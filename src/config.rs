use vstd::prelude::*;
use crate::error::{OpenAiError, OpenAiResult};

verus! {

/// The service's address, used unless another one is configured.
pub const BASE_URL: &'static str = "https://api.openai.com";

/// The API version, used unless another one is configured.
pub const DEFAULT_VERSION: &'static str = "v1";

/// The environment variable that holds the token when none is configured.
pub const ENV_TOKEN: &'static str = "OPENAI_API_KEY";

pub const MODELS_SEGMENT: &'static str = "models";

pub const COMPLETIONS_SEGMENT: &'static str = "completions";

pub const EDITS_SEGMENT: &'static str = "edits";

pub const IMAGES_SEGMENT: &'static str = "images";

pub const IMAGE_CREATE_SEGMENT: &'static str = "generations";

pub const IMAGE_EDITS_SEGMENT: &'static str = "edits";

pub const IMAGE_VARIATIONS_SEGMENT: &'static str = "variations";

/// `a` and `b` joined by one `/`, with no escaping or normalisation.
pub open spec fn joined(a: Seq<char>, b: Seq<char>) -> Seq<char> {
    a + seq!['/'] + b
}

/// The token that a request is sent with: the configured one if it is not
/// empty, else the one from the environment, if any.
pub open spec fn resolved_token(configured: Seq<char>, env: Option<Seq<char>>) -> Option<Seq<char>> {
    if configured.len() > 0 {
        Some(configured)
    } else {
        env
    }
}

/// The value of the `Authorization` header for a token.
pub open spec fn bearer_of(token: Seq<char>) -> Seq<char> {
    seq!['B', 'e', 'a', 'r', 'e', 'r', ' '] + token
}

pub open spec fn opt_view(s: Option<String>) -> Option<Seq<char>> {
    match s {
        Some(t) => Some(t@),
        None => None,
    }
}

/// `path` and `segment` joined by one `/`.
fn join_segments(path: &str, segment: &str) -> (r: String)
    ensures
        r@ == joined(path@, segment@),
{
    let mut r = path.to_owned();
    r.append("/");
    proof {
        reveal_strlit("/");
    }
    r.append(segment);
    r
}

/// The `Authorization` header value that carries `token`.
pub fn bearer_header(token: &str) -> (r: String)
    ensures
        r@ == bearer_of(token@),
{
    let r = String::from_str("Bearer ");
    proof {
        reveal_strlit("Bearer ");
    }
    r.concat(token)
}

/// Where the service is reached and with which credential.
#[derive(Debug, Clone)]
pub struct OpenAiConfig {
    pub base_url: String,
    pub version: String,
    /// Empty means: take the token from the environment.
    pub access_token: String,
}

/// The HTTP method of a call.
#[derive(Debug, Clone, Copy, PartialEq, Eq)]
pub enum HttpMethod {
    Get,
    Post,
}

/// Everything a transport needs to send one authenticated call.
#[derive(Debug, Clone)]
pub struct HttpCall {
    pub method: HttpMethod,
    pub url: String,
    pub authorization: String,
}

impl OpenAiConfig {
    /// The default service address and version with the given token.
    pub fn new(access_token: &str) -> (r: Self)
        ensures
            r.base_url@ == BASE_URL@,
            r.version@ == DEFAULT_VERSION@,
            r.access_token@ == access_token@,
    {
        OpenAiConfig::create(BASE_URL, DEFAULT_VERSION, access_token)
    }

    pub fn create(base_url: &str, version: &str, access_token: &str) -> (r: Self)
        ensures
            r.base_url@ == base_url@,
            r.version@ == version@,
            r.access_token@ == access_token@,
    {
        OpenAiConfig {
            base_url: base_url.to_owned(),
            version: version.to_owned(),
            access_token: access_token.to_owned(),
        }
    }

    /// The configuration with another service address.
    pub fn base_url(self, url: &str) -> (r: Self)
        ensures
            r.base_url@ == url@,
            r.version@ == self.version@,
            r.access_token@ == self.access_token@,
    {
        OpenAiConfig { base_url: url.to_owned(), ..self }
    }

    /// The configuration with another API version.
    pub fn version(self, version: &str) -> (r: Self)
        ensures
            r.base_url@ == self.base_url@,
            r.version@ == version@,
            r.access_token@ == self.access_token@,
    {
        OpenAiConfig { version: version.to_owned(), ..self }
    }

    /// The configuration with another token; an empty one means the token
    /// is taken from the environment.
    pub fn access_token(self, access_token: &str) -> (r: Self)
        ensures
            r.base_url@ == self.base_url@,
            r.version@ == self.version@,
            r.access_token@ == access_token@,
    {
        OpenAiConfig { access_token: access_token.to_owned(), ..self }
    }

    /// The full URL of a path under the service address.
    pub fn api_url(&self, path: &str) -> (r: String)
        ensures
            r@ == joined(self.base_url@, path@),
    {
        join_segments(self.base_url.as_str(), path)
    }

    /// The full URL of a path under the configured API version:
    /// `{base_url}/{version}/{path}`.
    pub fn endpoint_url(&self, path: &str) -> (r: String)
        ensures
            r@ == joined(self.base_url@, joined(self.version@, path@)),
    {
        let versioned = join_segments(self.version.as_str(), path);
        join_segments(self.base_url.as_str(), versioned.as_str())
    }

    fn add_path_segment(&self, path: &str, segment: &str) -> (r: String)
        ensures
            r@ == joined(path@, segment@),
    {
        join_segments(path, segment)
    }

    fn image_path(&self, segment: &str) -> (r: String)
        ensures
            r@ == joined(joined(self.version@, IMAGES_SEGMENT@), segment@),
    {
        let images = self.add_path_segment(self.version.as_str(), IMAGES_SEGMENT);
        self.add_path_segment(images.as_str(), segment)
    }

    /// `{version}/models`
    pub fn get_models_path(&self) -> (r: String)
        ensures
            r@ == joined(self.version@, MODELS_SEGMENT@),
    {
        self.add_path_segment(self.version.as_str(), MODELS_SEGMENT)
    }

    /// `{version}/models/{model}`
    pub fn get_model_path(&self, model: &str) -> (r: String)
        ensures
            r@ == joined(joined(self.version@, MODELS_SEGMENT@), model@),
    {
        let models = self.get_models_path();
        self.add_path_segment(models.as_str(), model)
    }

    /// `{version}/images/generations`
    pub fn get_create_image_path(&self) -> (r: String)
        ensures
            r@ == joined(joined(self.version@, IMAGES_SEGMENT@), IMAGE_CREATE_SEGMENT@),
    {
        self.image_path(IMAGE_CREATE_SEGMENT)
    }

    /// `{version}/images/edits`
    pub fn get_edit_image_path(&self) -> (r: String)
        ensures
            r@ == joined(joined(self.version@, IMAGES_SEGMENT@), IMAGE_EDITS_SEGMENT@),
    {
        self.image_path(IMAGE_EDITS_SEGMENT)
    }

    /// `{version}/images/variations`
    pub fn get_image_variations_path(&self) -> (r: String)
        ensures
            r@ == joined(joined(self.version@, IMAGES_SEGMENT@), IMAGE_VARIATIONS_SEGMENT@),
    {
        self.image_path(IMAGE_VARIATIONS_SEGMENT)
    }

    /// `{version}/edits`
    pub fn get_edit_path(&self) -> (r: String)
        ensures
            r@ == joined(self.version@, EDITS_SEGMENT@),
    {
        self.add_path_segment(self.version.as_str(), EDITS_SEGMENT)
    }

    /// `{version}/completions`
    pub fn get_completion_path(&self) -> (r: String)
        ensures
            r@ == joined(self.version@, COMPLETIONS_SEGMENT@),
    {
        self.add_path_segment(self.version.as_str(), COMPLETIONS_SEGMENT)
    }

    /// The token to send: the configured one if it is not empty, else
    /// `env_token`, the value of the variable named by `ENV_TOKEN` as the
    /// caller read it (`None` when it is unset).
    pub fn get_access_token(&self, env_token: Option<String>) -> (r: OpenAiResult<String>)
        ensures
            match r {
                Ok(t) => resolved_token(self.access_token@, opt_view(env_token)) == Some(t@),
                Err(e) => resolved_token(self.access_token@, opt_view(env_token)) is None
                    && e is MissingTokenError,
            },
    {
        if self.access_token.as_str().is_empty() {
            match env_token {
                Some(token) => Ok(token),
                None => Err(OpenAiError::MissingTokenError),
            }
        } else {
            Ok(self.access_token.clone())
        }
    }

    /// The call to `endpoint` (a path under the service address), with its
    /// bearer token resolved as `get_access_token` does.
    pub fn prepare_call(&self, method: HttpMethod, endpoint: &str, env_token: Option<String>) -> (r: OpenAiResult<HttpCall>)
        ensures
            match r {
                Ok(call) => {
                    &&& resolved_token(self.access_token@, opt_view(env_token)) matches Some(t)
                    &&& call.authorization@ == bearer_of(t)
                    &&& call.url@ == joined(self.base_url@, endpoint@)
                    &&& call.method == method
                },
                Err(e) => resolved_token(self.access_token@, opt_view(env_token)) is None
                    && e is MissingTokenError,
            },
    {
        let token = self.get_access_token(env_token)?;
        let authorization = bearer_header(token.as_str());
        let url = self.api_url(endpoint);
        Ok(HttpCall { method, url, authorization })
    }

    /// The call to `endpoint` (a path under the configured API version),
    /// with its bearer token resolved as `get_access_token` does.
    pub fn prepare_versioned_call(&self, method: HttpMethod, endpoint: &str, env_token: Option<String>) -> (r: OpenAiResult<HttpCall>)
        ensures
            match r {
                Ok(call) => {
                    &&& resolved_token(self.access_token@, opt_view(env_token)) matches Some(t)
                    &&& call.authorization@ == bearer_of(t)
                    &&& call.url@ == joined(self.base_url@, joined(self.version@, endpoint@))
                    &&& call.method == method
                },
                Err(e) => resolved_token(self.access_token@, opt_view(env_token)) is None
                    && e is MissingTokenError,
            },
    {
        let token = self.get_access_token(env_token)?;
        let authorization = bearer_header(token.as_str());
        let url = self.endpoint_url(endpoint);
        Ok(HttpCall { method, url, authorization })
    }
}

impl Default for OpenAiConfig {
    /// The default service address and version, with the token taken from
    /// the environment.
    fn default() -> (r: Self)
        ensures
            r.base_url@ == BASE_URL@,
            r.version@ == DEFAULT_VERSION@,
            r.access_token@.len() == 0,
    {
        proof {
            reveal_strlit("");
        }
        OpenAiConfig::new("")
    }
}

/// The operations that the service offers.
#[derive(Debug, Clone, PartialEq, Eq)]
pub enum Operation {
    /// `GET {version}/models`
    ListModels,
    /// `GET {version}/models/{id}`
    GetModel(String),
    /// `POST {version}/completions`
    CreateCompletion,
    /// `POST {version}/edits`
    CreateEdit,
    /// `POST {version}/images/generations`
    CreateImage,
}

pub open spec fn method_of(op: Operation) -> HttpMethod {
    match op {
        Operation::ListModels | Operation::GetModel(_) => HttpMethod::Get,
        _ => HttpMethod::Post,
    }
}

/// The path of an operation under the service address.
pub open spec fn endpoint_of(version: Seq<char>, op: Operation) -> Seq<char> {
    match op {
        Operation::ListModels => joined(version, MODELS_SEGMENT@),
        Operation::GetModel(id) => joined(joined(version, MODELS_SEGMENT@), id@),
        Operation::CreateCompletion => joined(version, COMPLETIONS_SEGMENT@),
        Operation::CreateEdit => joined(version, EDITS_SEGMENT@),
        Operation::CreateImage => joined(joined(version, IMAGES_SEGMENT@), IMAGE_CREATE_SEGMENT@),
    }
}

impl Operation {
    pub fn method(&self) -> (r: HttpMethod)
        ensures
            r == method_of(*self),
    {
        match self {
            Operation::ListModels | Operation::GetModel(_) => HttpMethod::Get,
            _ => HttpMethod::Post,
        }
    }
}

impl OpenAiConfig {
    /// The path of `op` under the service address.
    pub fn endpoint(&self, op: &Operation) -> (r: String)
        ensures
            r@ == endpoint_of(self.version@, *op),
    {
        match op {
            Operation::ListModels => self.get_models_path(),
            Operation::GetModel(id) => self.get_model_path(id.as_str()),
            Operation::CreateCompletion => self.get_completion_path(),
            Operation::CreateEdit => self.get_edit_path(),
            Operation::CreateImage => self.get_create_image_path(),
        }
    }

    /// The authenticated call that performs `op`.
    pub fn operation_call(&self, op: &Operation, env_token: Option<String>) -> (r: OpenAiResult<HttpCall>)
        ensures
            match r {
                Ok(call) => {
                    &&& resolved_token(self.access_token@, opt_view(env_token)) matches Some(t)
                    &&& call.authorization@ == bearer_of(t)
                    &&& call.url@ == joined(self.base_url@, endpoint_of(self.version@, *op))
                    &&& call.method == method_of(*op)
                },
                Err(e) => resolved_token(self.access_token@, opt_view(env_token)) is None
                    && e is MissingTokenError,
            },
    {
        let endpoint = self.endpoint(op);
        self.prepare_call(op.method(), endpoint.as_str(), env_token)
    }
}

} // verus!
