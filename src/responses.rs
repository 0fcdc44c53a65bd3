use vstd::prelude::*;
use crate::error::{OpenAiError, OpenAiErrorResponse, OpenAiResult};

verus! {

/// The token usage reported with text results.
#[derive(Debug, Clone, PartialEq, Eq)]
pub struct Usage {
    pub prompt_tokens: i64,
    pub completion_tokens: Option<i64>,
    pub total_tokens: i64,
}

/// One choice of a text result.
#[derive(Debug, Clone, PartialEq, Eq)]
pub struct TextChoice {
    pub text: String,
    pub index: i64,
    pub logprobs: Option<i64>,
    pub finish_reason: Option<String>,
}

/// The result of a completion or an edit.
#[derive(Debug, Clone, PartialEq, Eq)]
pub struct TextResult {
    pub id: Option<String>,
    pub object: String,
    pub created: i64,
    pub model: Option<String>,
    pub choices: Vec<TextChoice>,
    pub usage: Usage,
}

/// One choice of a completion response.
#[derive(Debug, Clone, PartialEq, Eq)]
pub struct Choices {
    pub text: String,
    pub index: i64,
    pub logprobs: Option<i64>,
    pub finish_reason: String,
}

/// A completion response in which every field is present.
#[derive(Debug, Clone, PartialEq, Eq)]
pub struct CompletionResponse {
    pub id: String,
    pub object: String,
    pub created: i64,
    pub model: String,
    pub choices: Vec<Choices>,
    pub usage: Usage,
}

/// One generated image, as a URL or as base64 data.
#[derive(Debug, Clone, PartialEq, Eq)]
pub struct ImageItem {
    pub url: Option<String>,
    pub b64_json: Option<String>,
}

/// The result of an image generation.
#[derive(Debug, Clone, PartialEq, Eq)]
pub struct ImageResult {
    pub created: u64,
    pub data: Vec<ImageItem>,
}

/// A permission entry of a model.
#[derive(Debug, Clone, PartialEq, Eq)]
pub struct OpenAiModelPermission {
    pub allow_create_engine: bool,
    pub allow_fine_tuning: bool,
    pub allow_logprobs: bool,
    pub allow_sampling: bool,
    pub allow_search_indices: bool,
    pub allow_view: bool,
    pub created: i64,
    pub group: Option<String>,
    pub id: String,
    pub is_blocking: bool,
    pub object: String,
    pub organization: String,
}

/// The description of one model.
#[derive(Debug, Clone, PartialEq, Eq)]
pub struct OpenAiModel {
    pub created: i64,
    pub id: String,
    pub object: String,
    pub owned_by: String,
    pub parent: Option<String>,
    pub permission: Vec<OpenAiModelPermission>,
    pub root: String,
}

/// The list of models.
#[derive(Debug, Clone, PartialEq, Eq)]
pub struct OpenAiModelResponse {
    pub data: Vec<OpenAiModel>,
    pub object: Option<String>,
}

/// A decoded response body: the payload that was asked for, the service's
/// error payload, or a document of neither shape.
#[derive(Debug)]
pub enum OpenAiResponse<T> {
    Success(T),
    Error(OpenAiErrorResponse),
    Other(serde_json::Value),
}

/// The alternative that a body decodes to, tried in order: the payload if
/// it has that shape, else the error payload if it has that shape, else the
/// raw document.
pub open spec fn classified<T>(
    success: Option<T>,
    error: Option<OpenAiErrorResponse>,
    raw: serde_json::Value,
) -> OpenAiResponse<T> {
    match success {
        Some(s) => OpenAiResponse::Success(s),
        None => match error {
            Some(e) => OpenAiResponse::Error(e),
            None => OpenAiResponse::Other(raw),
        },
    }
}

/// What a caller is handed for a decoded response.
pub open spec fn response_result<T>(response: OpenAiResponse<T>) -> OpenAiResult<T> {
    match response {
        OpenAiResponse::Success(s) => Ok(s),
        OpenAiResponse::Error(e) => Err(OpenAiError::ApiErrorResponse(e.error)),
        OpenAiResponse::Other(v) => Err(OpenAiError::UnexpectedJsonResponse(v)),
    }
}

/// Picks the alternative for one body from the outcomes of decoding it as
/// the payload (`success`) and as the error payload (`error`); `raw` is the
/// body as a JSON document.
pub fn classify_response<T>(
    success: Option<T>,
    error: Option<OpenAiErrorResponse>,
    raw: serde_json::Value,
) -> (r: OpenAiResponse<T>)
    ensures
        r == classified(success, error, raw),
{
    match success {
        Some(s) => OpenAiResponse::Success(s),
        None => match error {
            Some(e) => OpenAiResponse::Error(e),
            None => OpenAiResponse::Other(raw),
        },
    }
}

/// The payload of a success response; the service's error or the
/// unrecognised document otherwise.
pub fn unwrap_response<T>(response: OpenAiResponse<T>) -> (r: OpenAiResult<T>)
    ensures
        r == response_result(response),
{
    match response {
        OpenAiResponse::Success(s) => Ok(s),
        OpenAiResponse::Error(e) => Err(OpenAiError::ApiErrorResponse(e.error)),
        OpenAiResponse::Other(v) => Err(OpenAiError::UnexpectedJsonResponse(v)),
    }
}

/// The result of one call: a transport failure (the request could not be
/// sent, or its body could not be read or decoded) is handed on as it is,
/// before any response is looked at.
pub fn settle_response<T>(outcome: Result<OpenAiResponse<T>, reqwest::Error>) -> (r: OpenAiResult<T>)
    ensures
        match outcome {
            Ok(response) => r == response_result(response),
            Err(e) => r == Err::<T, OpenAiError>(OpenAiError::HttpError(e)),
        },
{
    match outcome {
        Ok(response) => unwrap_response(response),
        Err(e) => Err(OpenAiError::from(e)),
    }
}

/// Classifying a body and unwrapping it: a payload comes back as it is; a
/// body that is not a payload but a structured error becomes an API error
/// whose details, message included, are those of the body; a body of
/// neither shape becomes unexpected JSON that carries the raw document.
pub proof fn lemma_classified_result<T>(
    success: Option<T>,
    error: Option<OpenAiErrorResponse>,
    raw: serde_json::Value,
)
    ensures
        success matches Some(s) ==> response_result(classified(success, error, raw)) == Ok::<
            T,
            OpenAiError,
        >(s),
        success is None && error is Some ==> (response_result(classified(success, error, raw))
            matches Err(OpenAiError::ApiErrorResponse(d)) && d.message == error->0.error.message
            && d == error->0.error),
        success is None && error is None ==> response_result(classified(success, error, raw))
            == Err::<T, OpenAiError>(OpenAiError::UnexpectedJsonResponse(raw)),
{
}

} // verus!
