use vstd::prelude::*;

use crate::models::{error_text, LauncherError};

verus! {

/// The shape of every answer handed to the user interface.
#[derive(Clone, Debug)]
pub struct ApiResponse<T> {
    pub success: bool,
    pub data: Option<T>,
    pub error: Option<String>,
}

impl<T> ApiResponse<T> {
    pub fn success(data: T) -> (r: ApiResponse<T>)
        ensures
            r.success,
            r.data == Some(data),
            r.error is None,
    {
        ApiResponse { success: true, data: Some(data), error: None }
    }

    pub fn error(error: String) -> (r: ApiResponse<T>)
        ensures
            !r.success,
            r.data is None,
            r.error == Some(error),
    {
        ApiResponse { success: false, data: None, error: Some(error) }
    }

    /// The answer for the outcome of an operation: its value, or the message
    /// of its error.
    pub fn from_result(result: Result<T, LauncherError>) -> (r: ApiResponse<T>)
        ensures
            match result {
                Ok(d) => r.success && r.data == Some(d) && r.error is None,
                Err(e) => !r.success && r.data is None && r.error is Some && r.error->Some_0@
                    == error_text(e),
            },
    {
        match result {
            Ok(data) => ApiResponse::success(data),
            Err(e) => ApiResponse::error(e.message()),
        }
    }
}

/// Answer of a health check.
#[derive(Clone, Debug)]
pub struct HealthResponse {
    pub status: String,
    pub timestamp: String,
    pub version: String,
}

} // verus!
