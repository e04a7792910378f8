//! The delivery-facing edge of the listing call: the shape of the query
//! string and the enveloping of the interactor's outcome.
//!
//! The underlying error message is never copied into the envelope: a
//! failure always produces the same generic message and code, so nothing
//! from the store layer leaks to untrusted clients (the transport may log
//! the detailed error server-side).

use vstd::prelude::*;
use crate::domain::{opt_text, CandidateError};
use crate::response::{error, success, HttpBaseResponse};
use crate::usecase::{Request, Response};

verus! {

/// The raw query-string parameters of the listing endpoint, as the
/// transport decodes them.
#[derive(Clone, Debug)]
pub struct CandidateListQuery {
    pub id: Option<String>,
    pub page: Option<u32>,
    pub limit: Option<u32>,
}

/// Turns the decoded query string into the interactor's request, every
/// parameter forwarded untouched: absent pagination stays absent and is
/// defaulted once, in the pagination resolver.
pub fn request_of_query(q: CandidateListQuery) -> (req: Request)
    ensures
        opt_text(req.id) == opt_text(q.id),
        req.page == q.page,
        req.limit == q.limit,
{
    Request { id: q.id, page: q.page, limit: q.limit }
}

/// Wraps the interactor's outcome into the reply envelope. A success
/// carries the response as payload; a failure carries no payload and
/// only the fixed generic message and code, whatever the error said.
pub fn candidate_list_envelope(outcome: Result<Response, CandidateError>) -> (r: HttpBaseResponse<
    Response,
>)
    ensures
        match outcome {
            Ok(resp) => {
                &&& r.status == true
                &&& r.data matches Some(d) && d == resp
                &&& r.message@ == "Successfully processed candidate"@
                &&& r.error_code@ == Seq::<char>::empty()
            },
            Err(e) => {
                &&& r.status == false
                &&& r.data is None
                &&& r.message@ == "failed process data"@
                &&& r.error_code@ == "-1"@
            },
        },
{
    match outcome {
        Ok(resp) => success(Some(resp), "Successfully processed candidate".to_owned()),
        Err(_) => error(None, "failed process data".to_owned(), "-1".to_owned()),
    }
}

} // verus!
