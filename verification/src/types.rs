//! Shared response structures of the API.

use vstd::prelude::*;

verus! {

/// The alert of a successful response.
pub const ALERT_SUCCESS: &'static str = "success";

/// The alert of a failed response.
pub const ALERT_ERROR: &'static str = "error";

/// Standard API response structure.
#[derive(Clone, Debug)]
pub struct ApiResponse {
    pub message: String,
    pub alert: String,
}

impl ApiResponse {
    pub fn success(message: String) -> (response: ApiResponse)
        ensures
            response.message == message,
            response.alert@ == ALERT_SUCCESS@,
    {
        ApiResponse { message, alert: String::from_str(ALERT_SUCCESS) }
    }

    pub fn error(message: String) -> (response: ApiResponse)
        ensures
            response.message == message,
            response.alert@ == ALERT_ERROR@,
    {
        ApiResponse { message, alert: String::from_str(ALERT_ERROR) }
    }
}

/// API response with additional data payload.
#[derive(Clone, Debug)]
pub struct ApiResponseWithData<T> {
    pub message: String,
    pub alert: String,
    pub data: Option<T>,
}

impl<T> ApiResponseWithData<T> {
    pub fn success(message: String, data: T) -> (response: ApiResponseWithData<T>)
        ensures
            response.message == message,
            response.alert@ == ALERT_SUCCESS@,
            response.data == Some(data),
    {
        ApiResponseWithData { message, alert: String::from_str(ALERT_SUCCESS), data: Some(data) }
    }

    pub fn error(message: String) -> (response: ApiResponseWithData<T>)
        ensures
            response.message == message,
            response.alert@ == ALERT_ERROR@,
            response.data is None,
    {
        ApiResponseWithData { message, alert: String::from_str(ALERT_ERROR), data: None }
    }
}

} // verus!
