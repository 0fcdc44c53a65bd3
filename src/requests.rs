use vstd::prelude::*;
use std::collections::HashMap;
use crate::error::{OpenAiError, OpenAiResult};
use crate::params::{IntoIntParam, IntoTextParam, IntoTextValue, StringOrListParam};

verus! {

/// The error for a request of kind `request` built without its field `name`.
pub open spec fn is_missing(e: OpenAiError, name: Seq<char>, request: Seq<char>) -> bool {
    e matches OpenAiError::MissingRequestParameter { name: n, request: q } && n@ == name && q@
        == request
}

fn missing(name: &str, request: &str) -> (e: OpenAiError)
    ensures
        is_missing(e, name@, request@),
{
    OpenAiError::MissingRequestParameter { name: name.to_owned(), request: request.to_owned() }
}

/// A text completion request. Only `model` is required; every other field
/// is left out of the request when unset.
#[derive(Debug, Clone, PartialEq, Default)]
pub struct CompletionRequest {
    pub model: String,
    pub prompt: Option<StringOrListParam>,
    pub suffix: Option<String>,
    pub max_tokens: Option<i64>,
    pub temperature: Option<i64>,
    pub top_p: Option<i64>,
    pub n: Option<i64>,
    pub stream: Option<bool>,
    pub logprobs: Option<i64>,
    pub echo: Option<bool>,
    pub stop: Option<StringOrListParam>,
    pub presence_penalty: Option<i64>,
    pub frequency_penalty: Option<i64>,
    pub best_of: Option<i64>,
    pub logit_bias: Option<HashMap<String, i64>>,
    pub user: Option<String>,
}

/// Collects the fields of a `CompletionRequest`; `build` checks that the
/// required one is there.
#[derive(Debug, Clone)]
pub struct CompletionRequestBuilder {
    pub model: Option<String>,
    pub prompt: Option<StringOrListParam>,
    pub suffix: Option<String>,
    pub max_tokens: Option<i64>,
    pub temperature: Option<i64>,
    pub top_p: Option<i64>,
    pub n: Option<i64>,
    pub stream: Option<bool>,
    pub logprobs: Option<i64>,
    pub echo: Option<bool>,
    pub stop: Option<StringOrListParam>,
    pub presence_penalty: Option<i64>,
    pub frequency_penalty: Option<i64>,
    pub best_of: Option<i64>,
    pub logit_bias: Option<HashMap<String, i64>>,
    pub user: Option<String>,
}

pub open spec fn text_is(o: Option<String>, v: Seq<char>) -> bool {
    o matches Some(s) && s@ == v
}

pub open spec fn param_is(o: Option<StringOrListParam>, v: crate::params::ParamModel) -> bool {
    o matches Some(p) && p@ == v
}

impl Default for CompletionRequestBuilder {
    /// A builder with every field unset.
    fn default() -> (r: Self)
        ensures
            r.model is None,
            r.prompt is None,
            r.suffix is None,
            r.max_tokens is None,
            r.temperature is None,
            r.top_p is None,
            r.n is None,
            r.stream is None,
            r.logprobs is None,
            r.echo is None,
            r.stop is None,
            r.presence_penalty is None,
            r.frequency_penalty is None,
            r.best_of is None,
            r.logit_bias is None,
            r.user is None,
    {
        CompletionRequestBuilder {
            model: None,
            prompt: None,
            suffix: None,
            max_tokens: None,
            temperature: None,
            top_p: None,
            n: None,
            stream: None,
            logprobs: None,
            echo: None,
            stop: None,
            presence_penalty: None,
            frequency_penalty: None,
            best_of: None,
            logit_bias: None,
            user: None,
        }
    }
}

impl CompletionRequestBuilder {
    pub fn model<V: IntoTextValue>(self, value: V) -> (r: Self)
        ensures
            r == (Self { model: r.model, ..self }),
            text_is(r.model, value.text_model()),
    {
        Self { model: Some(value.into_text()), ..self }
    }

    pub fn prompt<P: IntoTextParam>(self, value: P) -> (r: Self)
        ensures
            r == (Self { prompt: r.prompt, ..self }),
            param_is(r.prompt, value.param_model()),
    {
        Self { prompt: Some(value.into_param()), ..self }
    }

    pub fn suffix<V: IntoTextValue>(self, value: V) -> (r: Self)
        ensures
            r == (Self { suffix: r.suffix, ..self }),
            text_is(r.suffix, value.text_model()),
    {
        Self { suffix: Some(value.into_text()), ..self }
    }

    pub fn max_tokens<V: IntoIntParam>(self, value: V) -> (r: Self)
        ensures
            r == (Self { max_tokens: Some(value.int_model()), ..self }),
    {
        Self { max_tokens: Some(value.into_int()), ..self }
    }

    pub fn temperature<V: IntoIntParam>(self, value: V) -> (r: Self)
        ensures
            r == (Self { temperature: Some(value.int_model()), ..self }),
    {
        Self { temperature: Some(value.into_int()), ..self }
    }

    pub fn top_p<V: IntoIntParam>(self, value: V) -> (r: Self)
        ensures
            r == (Self { top_p: Some(value.int_model()), ..self }),
    {
        Self { top_p: Some(value.into_int()), ..self }
    }

    pub fn n<V: IntoIntParam>(self, value: V) -> (r: Self)
        ensures
            r == (Self { n: Some(value.int_model()), ..self }),
    {
        Self { n: Some(value.into_int()), ..self }
    }

    pub fn stream(self, value: bool) -> (r: Self)
        ensures
            r == (Self { stream: Some(value), ..self }),
    {
        Self { stream: Some(value), ..self }
    }

    pub fn logprobs<V: IntoIntParam>(self, value: V) -> (r: Self)
        ensures
            r == (Self { logprobs: Some(value.int_model()), ..self }),
    {
        Self { logprobs: Some(value.into_int()), ..self }
    }

    pub fn echo(self, value: bool) -> (r: Self)
        ensures
            r == (Self { echo: Some(value), ..self }),
    {
        Self { echo: Some(value), ..self }
    }

    pub fn stop<P: IntoTextParam>(self, value: P) -> (r: Self)
        ensures
            r == (Self { stop: r.stop, ..self }),
            param_is(r.stop, value.param_model()),
    {
        Self { stop: Some(value.into_param()), ..self }
    }

    pub fn presence_penalty<V: IntoIntParam>(self, value: V) -> (r: Self)
        ensures
            r == (Self { presence_penalty: Some(value.int_model()), ..self }),
    {
        Self { presence_penalty: Some(value.into_int()), ..self }
    }

    pub fn frequency_penalty<V: IntoIntParam>(self, value: V) -> (r: Self)
        ensures
            r == (Self { frequency_penalty: Some(value.int_model()), ..self }),
    {
        Self { frequency_penalty: Some(value.into_int()), ..self }
    }

    pub fn best_of<V: IntoIntParam>(self, value: V) -> (r: Self)
        ensures
            r == (Self { best_of: Some(value.int_model()), ..self }),
    {
        Self { best_of: Some(value.into_int()), ..self }
    }

    pub fn logit_bias(self, value: HashMap<String, i64>) -> (r: Self)
        ensures
            r == (Self { logit_bias: Some(value), ..self }),
    {
        Self { logit_bias: Some(value), ..self }
    }

    pub fn user<V: IntoTextValue>(self, value: V) -> (r: Self)
        ensures
            r == (Self { user: r.user, ..self }),
            text_is(r.user, value.text_model()),
    {
        Self { user: Some(value.into_text()), ..self }
    }

    /// The request with the collected fields; fails exactly when `model` is
    /// unset, naming it.
    pub fn build(self) -> (r: OpenAiResult<CompletionRequest>)
        ensures
            match r {
                Ok(req) => self.model == Some(req.model) && req == (CompletionRequest {
                    model: req.model,
                    prompt: self.prompt,
                    suffix: self.suffix,
                    max_tokens: self.max_tokens,
                    temperature: self.temperature,
                    top_p: self.top_p,
                    n: self.n,
                    stream: self.stream,
                    logprobs: self.logprobs,
                    echo: self.echo,
                    stop: self.stop,
                    presence_penalty: self.presence_penalty,
                    frequency_penalty: self.frequency_penalty,
                    best_of: self.best_of,
                    logit_bias: self.logit_bias,
                    user: self.user,
                }),
                Err(e) => self.model is None && is_missing(e, "model"@, "CompletionRequest"@),
            },
    {
        match self.model {
            None => Err(missing("model", "CompletionRequest")),
            Some(model) => Ok(
                CompletionRequest {
                    model,
                    prompt: self.prompt,
                    suffix: self.suffix,
                    max_tokens: self.max_tokens,
                    temperature: self.temperature,
                    top_p: self.top_p,
                    n: self.n,
                    stream: self.stream,
                    logprobs: self.logprobs,
                    echo: self.echo,
                    stop: self.stop,
                    presence_penalty: self.presence_penalty,
                    frequency_penalty: self.frequency_penalty,
                    best_of: self.best_of,
                    logit_bias: self.logit_bias,
                    user: self.user,
                },
            ),
        }
    }
}

/// A text edit request. `model` and `instruction` are required.
#[derive(Debug, Clone, PartialEq, Eq, Default)]
pub struct EditRequest {
    pub model: String,
    pub input: Option<String>,
    pub instruction: String,
    pub n: Option<i64>,
    pub temperature: Option<i64>,
    pub top_p: Option<i64>,
}

/// Collects the fields of an `EditRequest`.
#[derive(Debug, Clone)]
pub struct EditRequestBuilder {
    pub model: Option<String>,
    pub input: Option<String>,
    pub instruction: Option<String>,
    pub n: Option<i64>,
    pub temperature: Option<i64>,
    pub top_p: Option<i64>,
}

impl Default for EditRequestBuilder {
    /// A builder with every field unset.
    fn default() -> (r: Self)
        ensures
            r.model is None,
            r.input is None,
            r.instruction is None,
            r.n is None,
            r.temperature is None,
            r.top_p is None,
    {
        EditRequestBuilder {
            model: None,
            input: None,
            instruction: None,
            n: None,
            temperature: None,
            top_p: None,
        }
    }
}

impl EditRequestBuilder {
    pub fn model<V: IntoTextValue>(self, value: V) -> (r: Self)
        ensures
            r == (Self { model: r.model, ..self }),
            text_is(r.model, value.text_model()),
    {
        Self { model: Some(value.into_text()), ..self }
    }

    pub fn input<V: IntoTextValue>(self, value: V) -> (r: Self)
        ensures
            r == (Self { input: r.input, ..self }),
            text_is(r.input, value.text_model()),
    {
        Self { input: Some(value.into_text()), ..self }
    }

    pub fn instruction<V: IntoTextValue>(self, value: V) -> (r: Self)
        ensures
            r == (Self { instruction: r.instruction, ..self }),
            text_is(r.instruction, value.text_model()),
    {
        Self { instruction: Some(value.into_text()), ..self }
    }

    pub fn n<V: IntoIntParam>(self, value: V) -> (r: Self)
        ensures
            r == (Self { n: Some(value.int_model()), ..self }),
    {
        Self { n: Some(value.into_int()), ..self }
    }

    pub fn temperature<V: IntoIntParam>(self, value: V) -> (r: Self)
        ensures
            r == (Self { temperature: Some(value.int_model()), ..self }),
    {
        Self { temperature: Some(value.into_int()), ..self }
    }

    pub fn top_p<V: IntoIntParam>(self, value: V) -> (r: Self)
        ensures
            r == (Self { top_p: Some(value.int_model()), ..self }),
    {
        Self { top_p: Some(value.into_int()), ..self }
    }

    /// The request with the collected fields; fails exactly when `model` or
    /// `instruction` is unset, naming the first of them that is.
    pub fn build(self) -> (r: OpenAiResult<EditRequest>)
        ensures
            match r {
                Ok(req) => self.model == Some(req.model) && self.instruction == Some(
                    req.instruction,
                ) && req == (EditRequest {
                    model: req.model,
                    input: self.input,
                    instruction: req.instruction,
                    n: self.n,
                    temperature: self.temperature,
                    top_p: self.top_p,
                }),
                Err(e) => if self.model is None {
                    is_missing(e, "model"@, "EditRequest"@)
                } else {
                    self.instruction is None && is_missing(e, "instruction"@, "EditRequest"@)
                },
            },
    {
        match (self.model, self.instruction) {
            (None, _) => Err(missing("model", "EditRequest")),
            (Some(_), None) => Err(missing("instruction", "EditRequest")),
            (Some(model), Some(instruction)) => Ok(
                EditRequest {
                    model,
                    input: self.input,
                    instruction,
                    n: self.n,
                    temperature: self.temperature,
                    top_p: self.top_p,
                },
            ),
        }
    }
}

/// An image generation request. Only `prompt` is required.
#[derive(Debug, Clone, PartialEq, Eq, Default)]
pub struct CreateImageRequest {
    pub prompt: String,
    pub n: Option<i64>,
    pub size: Option<String>,
    pub response_format: Option<String>,
    pub user: Option<String>,
}

/// Collects the fields of a `CreateImageRequest`.
#[derive(Debug, Clone)]
pub struct CreateImageRequestBuilder {
    pub prompt: Option<String>,
    pub n: Option<i64>,
    pub size: Option<String>,
    pub response_format: Option<String>,
    pub user: Option<String>,
}

impl Default for CreateImageRequestBuilder {
    /// A builder with every field unset.
    fn default() -> (r: Self)
        ensures
            r.prompt is None,
            r.n is None,
            r.size is None,
            r.response_format is None,
            r.user is None,
    {
        CreateImageRequestBuilder {
            prompt: None,
            n: None,
            size: None,
            response_format: None,
            user: None,
        }
    }
}

impl CreateImageRequestBuilder {
    pub fn prompt<V: IntoTextValue>(self, value: V) -> (r: Self)
        ensures
            r == (Self { prompt: r.prompt, ..self }),
            text_is(r.prompt, value.text_model()),
    {
        Self { prompt: Some(value.into_text()), ..self }
    }

    pub fn n<V: IntoIntParam>(self, value: V) -> (r: Self)
        ensures
            r == (Self { n: Some(value.int_model()), ..self }),
    {
        Self { n: Some(value.into_int()), ..self }
    }

    pub fn size<V: IntoTextValue>(self, value: V) -> (r: Self)
        ensures
            r == (Self { size: r.size, ..self }),
            text_is(r.size, value.text_model()),
    {
        Self { size: Some(value.into_text()), ..self }
    }

    pub fn response_format<V: IntoTextValue>(self, value: V) -> (r: Self)
        ensures
            r == (Self { response_format: r.response_format, ..self }),
            text_is(r.response_format, value.text_model()),
    {
        Self { response_format: Some(value.into_text()), ..self }
    }

    pub fn user<V: IntoTextValue>(self, value: V) -> (r: Self)
        ensures
            r == (Self { user: r.user, ..self }),
            text_is(r.user, value.text_model()),
    {
        Self { user: Some(value.into_text()), ..self }
    }

    /// The request with the collected fields; fails exactly when `prompt` is
    /// unset, naming it.
    pub fn build(self) -> (r: OpenAiResult<CreateImageRequest>)
        ensures
            match r {
                Ok(req) => self.prompt == Some(req.prompt) && req == (CreateImageRequest {
                    prompt: req.prompt,
                    n: self.n,
                    size: self.size,
                    response_format: self.response_format,
                    user: self.user,
                }),
                Err(e) => self.prompt is None && is_missing(e, "prompt"@, "CreateImageRequest"@),
            },
    {
        match self.prompt {
            None => Err(missing("prompt", "CreateImageRequest")),
            Some(prompt) => Ok(
                CreateImageRequest {
                    prompt,
                    n: self.n,
                    size: self.size,
                    response_format: self.response_format,
                    user: self.user,
                },
            ),
        }
    }
}

} // verus!
