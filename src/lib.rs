pub mod config;
pub mod error;
pub mod params;
pub mod requests;
pub mod responses;

pub use config::{HttpCall, HttpMethod, OpenAiConfig, Operation};
pub use error::{OpenAiError, OpenAiErrorDetails, OpenAiErrorResponse, OpenAiResult};
pub use params::{IntoIntParam, IntoTextParam, IntoTextValue, StringOrListParam};
pub use requests::{
    CompletionRequest, CompletionRequestBuilder, CreateImageRequest, CreateImageRequestBuilder,
    EditRequest, EditRequestBuilder,
};
pub use responses::{
    Choices, CompletionResponse, ImageItem, ImageResult, OpenAiModel, OpenAiModelPermission,
    OpenAiModelResponse, OpenAiResponse, TextChoice, TextResult, Usage,
};
