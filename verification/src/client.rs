//! Plain value types shared with the HTTP driver.
//!
//! The driver performs the requests; these types carry what came back, and
//! the verified mapping onto the error taxonomy.

use vstd::prelude::*;

use crate::errors::UpdateError;

verus! {

/// How a feed client is configured; `base_url` of `None` means the public
/// upstream API host.
pub struct GithubClConstructorParams {
    pub owner: String,
    pub repo: String,
    pub base_url: Option<String>,
}

/// The outcome of one feed request: a decoded body, or the raw body text of
/// a non-success response.
pub enum RestResponse<T> {
    Success(T),
    Error { message: String },
}

impl<T> RestResponse<T> {
    /// Map a response onto the error taxonomy: a non-success response
    /// becomes `ResponseError` carrying the raw body as its message.
    pub fn into_result(self) -> (r: Result<T, UpdateError>)
        ensures
            match r {
                Ok(t) => self == RestResponse::Success(t),
                Err(e) => {
                    &&& self matches RestResponse::Error { message } && e
                        == UpdateError::ResponseError(message)
                },
            },
    {
        match self {
            RestResponse::Success(t) => Ok(t),
            RestResponse::Error { message } => Err(UpdateError::ResponseError(message)),
        }
    }
}

} // verus!
