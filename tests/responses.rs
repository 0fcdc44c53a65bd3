use openai_client::config::bearer_header;
use openai_client::responses::{classify_response, settle_response, unwrap_response};
use openai_client::{
    EditRequestBuilder, HttpMethod, OpenAiConfig, OpenAiError, OpenAiErrorDetails,
    OpenAiErrorResponse, OpenAiResponse, Operation, TextChoice, TextResult, Usage,
};

fn text_result() -> TextResult {
    TextResult {
        id: None,
        object: "edit".to_string(),
        created: 1589478378,
        model: None,
        choices: vec![TextChoice {
            text: "What day of the week is it?".to_string(),
            index: 0,
            logprobs: None,
            finish_reason: None,
        }],
        usage: Usage { prompt_tokens: 25, completion_tokens: Some(32), total_tokens: 57 },
    }
}

fn error_payload() -> OpenAiErrorResponse {
    OpenAiErrorResponse {
        error: OpenAiErrorDetails {
            code: None,
            message: "The model does not exist".to_string(),
            param: Some("model".to_string()),
            error_type: Some("invalid_request_error".to_string()),
        },
    }
}

fn transport_error() -> reqwest::Error {
    reqwest::Client::new().get("not a url").build().unwrap_err()
}

#[test]
fn success_shape_unwraps_to_payload() {
    let r = classify_response(Some(text_result()), Some(error_payload()), serde_json::Value::Null);
    assert_eq!(unwrap_response(r).unwrap(), text_result());
}

#[test]
fn error_shape_unwraps_to_api_error() {
    let r = classify_response::<TextResult>(None, Some(error_payload()), serde_json::Value::Null);
    match unwrap_response(r) {
        Err(OpenAiError::ApiErrorResponse(d)) => {
            assert_eq!(d.message, "The model does not exist");
            assert_eq!(d, error_payload().error);
        }
        other => panic!("expected an api error, got {:?}", other),
    }
}

#[test]
fn other_shape_unwraps_to_unexpected_json() {
    let raw = serde_json::Value::String("surprise".to_string());
    let r = classify_response::<TextResult>(None, None, raw.clone());
    match unwrap_response(r) {
        Err(OpenAiError::UnexpectedJsonResponse(v)) => assert_eq!(v, raw),
        other => panic!("expected unexpected json, got {:?}", other),
    }
}

#[test]
fn classify_prefers_success_then_error() {
    match classify_response(Some(1u8), Some(error_payload()), serde_json::Value::Null) {
        OpenAiResponse::Success(v) => assert_eq!(v, 1),
        other => panic!("expected success, got {:?}", other),
    }
    match classify_response::<u8>(None, Some(error_payload()), serde_json::Value::Bool(true)) {
        OpenAiResponse::Error(e) => assert_eq!(e, error_payload()),
        other => panic!("expected error, got {:?}", other),
    }
}

#[test]
fn transport_failure_is_http_error() {
    match settle_response::<TextResult>(Err(transport_error())) {
        Err(OpenAiError::HttpError(_)) => {}
        other => panic!("expected an http error, got {:?}", other),
    }
}

#[test]
fn edit_call_and_response() {
    let config = OpenAiConfig::default().base_url("http://127.0.0.1:8080").access_token("mock_token");
    let _request = EditRequestBuilder::default()
        .model("text-davinci-edit-001")
        .input("What day of the wek is it?")
        .instruction("Fix the spelling mistakes")
        .build()
        .unwrap();
    let call = config.operation_call(&Operation::CreateEdit, None).unwrap();
    assert_eq!(call.method, HttpMethod::Post);
    assert_eq!(call.url, "http://127.0.0.1:8080/v1/edits");
    assert_eq!(call.authorization, bearer_header("mock_token"));
    let outcome = Ok(classify_response(Some(text_result()), None, serde_json::Value::Null));
    let result = settle_response(outcome).unwrap();
    assert!(!result.choices.is_empty());
}

#[test]
fn malformed_model_body_is_transport_error() {
    let config = OpenAiConfig::default().base_url("http://127.0.0.1:8080").access_token("mock_token");
    let call = config
        .operation_call(&Operation::GetModel("text-davinci-003".to_string()), None)
        .unwrap();
    assert_eq!(call.url, "http://127.0.0.1:8080/v1/models/text-davinci-003");
    match settle_response::<openai_client::OpenAiModel>(Err(transport_error())) {
        Err(OpenAiError::HttpError(_)) => {}
        Err(OpenAiError::ApiErrorResponse(_)) => panic!("a transport failure is no api error"),
        other => panic!("expected an http error, got {:?}", other),
    }
}

#[test]
fn error_conversions() {
    match OpenAiError::from(transport_error()) {
        OpenAiError::HttpError(_) => {}
        other => panic!("expected an http error, got {:?}", other),
    }
    let json_err = serde_json::from_str::<serde_json::Value>("{").unwrap_err();
    match OpenAiError::from(json_err) {
        OpenAiError::JsonEncodeError(_) => {}
        other => panic!("expected a json error, got {:?}", other),
    }
}
