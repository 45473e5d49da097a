//! The shape in which every request is answered.

use vstd::prelude::*;
use crate::error::{message_of, status_of, AppError};

verus! {

/// An answer that carries nothing.
#[derive(Debug, Clone, Copy, PartialEq, Eq, Structural)]
pub struct EmptyResp {}

/// The answer to a request: the data on success, a message on failure, and
/// the status code that the transport sends with it.
#[derive(Debug, Clone, PartialEq, Eq)]
pub struct ApiResponse<T> {
    pub success: bool,
    pub data: Option<T>,
    pub error_message: Option<String>,
    pub status_code: u16,
}

impl<T> ApiResponse<T> {
    /// Whether this is the answer that reports success with `data`.
    pub open spec fn is_success(self, data: T) -> bool {
        &&& self.success
        &&& self.data == Some(data)
        &&& self.error_message is None
        &&& self.status_code == 200
    }

    /// Whether this is the answer that reports a failure with the given
    /// message and status code.
    pub open spec fn is_failure(self, message: Seq<char>, status_code: u16) -> bool {
        &&& !self.success
        &&& self.data is None
        &&& self.error_message matches Some(m) && m@ == message
        &&& self.status_code == status_code
    }

    /// The answer to a request that ended in `result`: the data with status
    /// 200, or the error's message with the error's status code.
    pub fn from_result(result: Result<T, AppError>) -> (r: Self)
        ensures
            match result {
                Ok(data) => r.is_success(data),
                Err(e) => r.is_failure(message_of(e@), status_of(e@)),
            },
    {
        match result {
            Ok(data) => ApiResponse {
                success: true,
                data: Some(data),
                error_message: None,
                status_code: 200,
            },
            Err(e) => e.to_api_response(),
        }
    }

    /// The answer to a request whose failure is known by its message alone:
    /// the data with status 200, or the message with status 400.
    pub fn from_message_result(result: Result<T, String>) -> (r: Self)
        ensures
            match result {
                Ok(data) => r.is_success(data),
                Err(message) => r.is_failure(message@, 400),
            },
    {
        match result {
            Ok(data) => ApiResponse {
                success: true,
                data: Some(data),
                error_message: None,
                status_code: 200,
            },
            Err(message) => ApiResponse {
                success: false,
                data: None,
                error_message: Some(message),
                status_code: 400,
            },
        }
    }
}

/// What `from` returns is stated by its own contract: a response holds a
/// `String`, which no specification function can build.
impl<T> vstd::std_specs::convert::FromSpecImpl<Result<T, AppError>> for ApiResponse<T> {
    open spec fn obeys_from_spec() -> bool {
        false
    }

    open spec fn from_spec(result: Result<T, AppError>) -> Self {
        arbitrary()
    }
}

impl<T> From<Result<T, AppError>> for ApiResponse<T> {
    fn from(result: Result<T, AppError>) -> (r: Self)
        ensures
            match result {
                Ok(data) => r.is_success(data),
                Err(e) => r.is_failure(message_of(e@), status_of(e@)),
            },
    {
        ApiResponse::from_result(result)
    }
}

} // verus!
