//! The list interactor: the single caller of the repository layer.
//!
//! It forwards the inbound request as a filter, and reshapes the page the
//! repository returns into the response object, echoing the pagination
//! that was actually used (the resolved, defaulted values, not the raw
//! client input). It adds no error kind of its own: a repository failure
//! passes through unchanged.

use vstd::prelude::*;
use crate::domain::{opt_text, Candidate, CandidateError, CandidateFilter, CandidateListPage};

verus! {

/// The inbound listing request, already parsed by the transport: an
/// optional exact-match identifier and optional 1-based pagination.
#[derive(Clone, Debug)]
pub struct Request {
    pub id: Option<String>,
    pub page: Option<u32>,
    pub limit: Option<u32>,
}

/// What the interactor hands back: the page's candidates and total,
/// together with the page number and page size that were actually used.
#[derive(Clone, Debug)]
pub struct Response {
    pub total: usize,
    pub page: u32,
    pub limit: u32,
    pub candidates: Vec<Candidate>,
}

/// Builds the repository filter from a request. Every criterion is
/// forwarded untouched: defaulting of absent pagination happens in the
/// pagination resolver and nowhere else.
pub fn build_filter(req: Request) -> (f: CandidateFilter)
    ensures
        opt_text(f.id) == opt_text(req.id),
        f.page == req.page,
        f.limit == req.limit,
{
    CandidateFilter { id: req.id, page: req.page, limit: req.limit }
}

/// Reshapes the repository's outcome into the interactor's response.
///
/// On success the page's candidates and total are taken over unchanged
/// and the resolved page number and page size are echoed; on failure the
/// repository's error is propagated exactly as it came.
pub fn build_response(
    outcome: Result<CandidateListPage, CandidateError>,
    page: u32,
    limit: u32,
) -> (r: Result<Response, CandidateError>)
    ensures
        match outcome {
            Ok(p) => {
                &&& r matches Ok(resp)
                &&& resp.total == p.total
                &&& resp.page == page
                &&& resp.limit == limit
                &&& resp.candidates == p.candidates
            },
            Err(e) => r matches Err(e2) && e2 == e,
        },
{
    match outcome {
        Ok(p) => Ok(Response { total: p.total, page, limit, candidates: p.candidates }),
        Err(e) => Err(e),
    }
}

} // verus!
