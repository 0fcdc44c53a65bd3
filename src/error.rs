use vstd::prelude::*;

verus! {

/// A failure reported by the HTTP transport (sending the request, reading or
/// decoding the response body).
#[verifier::external_type_specification]
#[verifier::external_body]
pub struct ExHttpError(reqwest::Error);

/// A failure to encode or decode JSON.
#[verifier::external_type_specification]
#[verifier::external_body]
pub struct ExJsonError(serde_json::Error);

/// An arbitrary decoded JSON document.
#[verifier::external_type_specification]
#[verifier::external_body]
pub struct ExJsonValue(serde_json::Value);

/// The details carried by an error payload of the remote service.
#[derive(Debug, Clone, PartialEq, Eq)]
pub struct OpenAiErrorDetails {
    pub code: Option<String>,
    pub message: String,
    pub param: Option<String>,
    /// Carried under the key `type` on the wire.
    pub error_type: Option<String>,
}

/// The error payload of the remote service: `{ "error": { ... } }`.
#[derive(Debug, Clone, PartialEq, Eq)]
pub struct OpenAiErrorResponse {
    pub error: OpenAiErrorDetails,
}

/// Every way in which an operation of this library can fail.
#[derive(Debug)]
pub enum OpenAiError {
    /// No token in the configuration and none in the environment.
    MissingTokenError,
    /// A request builder lacked a field without a default.
    MissingRequestParameter { name: String, request: String },
    /// The service answered with a body of no known shape.
    UnexpectedApiResponse,
    /// The service answered with its structured error payload.
    ApiErrorResponse(OpenAiErrorDetails),
    /// The service answered with JSON that is neither a payload nor an error.
    UnexpectedJsonResponse(serde_json::Value),
    /// The transport failed before a response could be classified.
    HttpError(reqwest::Error),
    /// JSON could not be encoded or decoded.
    JsonEncodeError(serde_json::Error),
}

pub type OpenAiResult<R> = Result<R, OpenAiError>;

impl From<reqwest::Error> for OpenAiError {
    fn from(e: reqwest::Error) -> (r: OpenAiError)
        ensures
            r == OpenAiError::HttpError(e),
    {
        OpenAiError::HttpError(e)
    }
}

impl vstd::std_specs::convert::FromSpecImpl<reqwest::Error> for OpenAiError {
    open spec fn obeys_from_spec() -> bool {
        true
    }

    open spec fn from_spec(e: reqwest::Error) -> OpenAiError {
        OpenAiError::HttpError(e)
    }
}

impl From<serde_json::Error> for OpenAiError {
    fn from(e: serde_json::Error) -> (r: OpenAiError)
        ensures
            r == OpenAiError::JsonEncodeError(e),
    {
        OpenAiError::JsonEncodeError(e)
    }
}

impl vstd::std_specs::convert::FromSpecImpl<serde_json::Error> for OpenAiError {
    open spec fn obeys_from_spec() -> bool {
        true
    }

    open spec fn from_spec(e: serde_json::Error) -> OpenAiError {
        OpenAiError::JsonEncodeError(e)
    }
}

} // verus!
