use vstd::prelude::*;

verus! {

/// Declares `serde_json::Error`, carried by `OpenPondError::SerializationError`.
#[verifier::external_type_specification]
#[verifier::external_body]
pub struct ExSerdeJsonError(serde_json::Error);

/// Declares `reqwest::Error`, carried by `OpenPondError::HttpError`.
#[verifier::external_type_specification]
#[verifier::external_body]
pub struct ExReqwestError(reqwest::Error);

/// Declares `eventsource_client::Error`, which maps to `OpenPondError::SSEError`.
#[verifier::external_type_specification]
#[verifier::external_body]
pub struct ExEventSourceError(eventsource_client::Error);

/// The configuration field that cannot be used.
#[derive(PartialEq, Eq, Structural, Clone, Copy, Debug)]
pub enum ConfigField {
    ApiUrl,
    ApiKey,
    PrivateKey,
}

/// What can go wrong when talking to the service.
#[derive(Debug)]
pub enum OpenPondError {
    /// The service answered with a status outside 2xx.
    ApiError { status: u16, message: String },
    /// The transport failed before an answer came.
    NetworkError(String),
    /// A payload could not be decoded.
    SerializationError(serde_json::Error),
    /// The HTTP client reported a failure.
    HttpError(reqwest::Error),
    /// The event stream could not be set up or failed.
    SSEError,
    /// The session's configuration cannot be used.
    ConfigurationError(ConfigField),
}

pub type Result<T> = core::result::Result<T, OpenPondError>;

impl From<eventsource_client::Error> for OpenPondError {
    fn from(e: eventsource_client::Error) -> (r: Self)
        ensures
            r is SSEError,
    {
        OpenPondError::SSEError
    }
}

impl vstd::std_specs::convert::FromSpecImpl<eventsource_client::Error> for OpenPondError {
    open spec fn obeys_from_spec() -> bool {
        true
    }

    open spec fn from_spec(e: eventsource_client::Error) -> OpenPondError {
        OpenPondError::SSEError
    }
}

/// HTTP's success class: 200 to 299.
pub open spec fn is_success_status(status: u16) -> bool {
    200 <= status && status < 300
}

/// The status the service gives when an agent is registered already.
pub const CONFLICT: u16 = 409;

/// What a response with this status and body means for an ordinary call.
pub open spec fn response_outcome(status: u16, body: String) -> Result<()> {
    if is_success_status(status) {
        Ok(())
    } else {
        Err(OpenPondError::ApiError { status, message: body })
    }
}

/// What a response to registration means: a conflict says the agent is
/// known already, which is success too.
pub open spec fn registration_outcome(status: u16, body: String) -> Result<()> {
    if is_success_status(status) || status == CONFLICT {
        Ok(())
    } else {
        Err(OpenPondError::ApiError { status, message: body })
    }
}

/// Whether `status` is in the success class, as `reqwest::StatusCode::is_success` decides.
pub fn status_is_success(status: u16) -> (r: bool)
    ensures
        r == is_success_status(status),
{
    200 <= status && status < 300
}

/// Turns a status and body into `Ok` or an `ApiError` that carries both.
pub fn check_response(status: u16, body: String) -> (r: Result<()>)
    ensures
        r == response_outcome(status, body),
{
    if status_is_success(status) {
        Ok(())
    } else {
        Err(OpenPondError::ApiError { status, message: body })
    }
}

/// Like `check_response`, but a conflict counts as success.
pub fn check_registration(status: u16, body: String) -> (r: Result<()>)
    ensures
        r == registration_outcome(status, body),
{
    if status_is_success(status) || status == CONFLICT {
        Ok(())
    } else {
        Err(OpenPondError::ApiError { status, message: body })
    }
}

} // verus!
