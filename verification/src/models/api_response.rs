use vstd::prelude::*;

verus! {

/// The envelope around every JSON answer of the API: `status` is `success`
/// or `error`, `message` is for people, and `data` is the payload, if any.
#[derive(Debug, Clone, PartialEq, Eq)]
pub struct ApiResponse<T> {
    pub status: String,
    pub message: String,
    pub data: Option<T>,
}

impl<T> ApiResponse<T> {
    /// A success envelope around `data`.
    pub fn success(message: String, data: T) -> (r: Self)
        ensures
            r.status@ == "success"@,
            r.message == message,
            r.data == Some(data),
    {
        ApiResponse { status: "success".to_string(), message, data: Some(data) }
    }

    /// A success envelope without a payload.
    pub fn done(message: String) -> (r: Self)
        ensures
            r.status@ == "success"@,
            r.message == message,
            r.data is None,
    {
        ApiResponse { status: "success".to_string(), message, data: None }
    }

    /// An error envelope; it never carries a payload.
    pub fn error(message: String) -> (r: Self)
        ensures
            r.status@ == "error"@,
            r.message == message,
            r.data is None,
    {
        ApiResponse { status: "error".to_string(), message, data: None }
    }
}

} // verus!
