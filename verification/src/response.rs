//! The uniform response envelope: every handler reply, success or error,
//! is a message together with optional data.

use vstd::prelude::*;

verus! {

/// A two-field response body: `message`, and `data` present only on
/// success.
pub struct ApiResponse<T> {
    pub message: String,
    pub data: Option<T>,
}

impl<T> ApiResponse<T> {
    /// A success envelope: the fixed message `"success"`, carrying `data`.
    pub fn success(data: T) -> (r: Self)
        ensures
            r.message@ == "success"@,
            r.data == Option::Some(data),
    {
        ApiResponse { message: "success".to_owned(), data: Option::Some(data) }
    }

    /// An error envelope: the given message, with no data.
    pub fn error(message: String) -> (r: Self)
        ensures
            r.message == message,
            r.data is None,
    {
        ApiResponse { message, data: Option::None }
    }
}

} // verus!
