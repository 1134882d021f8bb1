//! The envelope of every answer of the service.
use vstd::prelude::*;

verus! {

#[derive(Debug)]
pub struct ApiResponse<T> {
    pub code: String,
    pub message: String,
    pub data: Option<T>,
}

impl<T> ApiResponse<T> {
    /// A successful answer that carries `data`.
    pub fn ok(data: T) -> (response: Self)
        ensures
            response.code@ == "OK"@,
            response.message@ == "ok"@,
            response.data == Some(data),
    {
        Self { code: "OK".to_owned(), message: "ok".to_owned(), data: Some(data) }
    }

    /// A successful answer that carries nothing.
    pub fn empty() -> (response: Self)
        ensures
            response.code@ == "OK"@,
            response.message@ == "ok"@,
            response.data is None,
    {
        Self { code: "OK".to_owned(), message: "ok".to_owned(), data: None }
    }
}

} // verus!
