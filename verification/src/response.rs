//! The envelope every HTTP reply is wrapped in, and its two constructors.

use vstd::prelude::*;

verus! {

/// Uniform reply envelope of the service: a success flag, a
/// human-readable message, an error code (empty on success), and the
/// payload when there is one.
#[derive(Clone, Debug)]
pub struct HttpBaseResponse<T> {
    pub status: bool,
    pub message: String,
    pub error_code: String,
    pub data: Option<T>,
}

/// A success envelope: status true, no error code, the given payload.
pub fn success<T>(data: Option<T>, message: String) -> (r: HttpBaseResponse<T>)
    ensures
        r.status == true,
        r.message@ == message@,
        r.error_code@ == Seq::<char>::empty(),
        r.data == data,
{
    HttpBaseResponse { status: true, message, error_code: String::new(), data }
}

/// A failure envelope: status false, the given error code and message.
pub fn error<T>(data: Option<T>, message: String, err_code: String) -> (r: HttpBaseResponse<T>)
    ensures
        r.status == false,
        r.message@ == message@,
        r.error_code@ == err_code@,
        r.data == data,
{
    HttpBaseResponse { status: false, message, error_code: err_code, data }
}

} // verus!
