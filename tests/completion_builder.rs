use openai_client::StringOrListParam::{ListParam, StringParam};
use openai_client::{CompletionRequest, CompletionRequestBuilder, OpenAiError};

#[test]
fn completion_builder_must_fail_on_empty_model() {
    let res = CompletionRequestBuilder::default().build();
    match res {
        Ok(_) => assert!(false, "expected required param error"),
        Err(_) => assert!(true),
    }
}

#[test]
fn types_builder_must_fail_on_empty_model() {
    let res = CompletionRequestBuilder::default().build();
    match res {
        Ok(_) => assert!(false, "expected required param error"),
        Err(_) => assert!(true),
    }
}

#[test]
fn completion_builder_missing_model_names_field_and_request() {
    match CompletionRequestBuilder::default().prompt("p").build() {
        Err(OpenAiError::MissingRequestParameter { name, request }) => {
            assert_eq!(name, "model");
            assert_eq!(request, "CompletionRequest");
        }
        _ => panic!("expected a missing parameter error"),
    }
}

#[test]
fn completion_builder_must_set_model() {
    let req = CompletionRequestBuilder::default().model("test").build().unwrap();
    assert_eq!(req.model, "test".to_string())
}

#[test]
fn types_builder_must_set_model() {
    let req = CompletionRequestBuilder::default().model("test").build().unwrap();
    assert_eq!(req.model, "test".to_string())
}

#[test]
fn completion_builder_must_set_suffix() {
    let req = CompletionRequestBuilder::default()
        .model("test")
        .suffix("test")
        .build()
        .unwrap();
    assert_eq!(req.suffix, Some("test".to_string()))
}

#[test]
fn types_builder_must_set_suffix() {
    let req = CompletionRequestBuilder::default()
        .model("test")
        .suffix("test")
        .build()
        .unwrap();
    assert_eq!(req.suffix, Some("test".to_string()))
}

#[test]
fn completion_builder_must_set_string_prompt() {
    let req = CompletionRequestBuilder::default()
        .model("test")
        .prompt("test")
        .build()
        .unwrap();
    match req.prompt {
        Some(StringParam(s)) => assert_eq!(s, "test".to_string()),
        _ => assert!(false, "prompt did not match a StringParam"),
    }
}

#[test]
fn types_builder_must_set_string_prompt() {
    let req = CompletionRequestBuilder::default()
        .model("test")
        .prompt("test")
        .build()
        .unwrap();
    match req.prompt {
        Some(StringParam(s)) => assert_eq!(s, "test".to_string()),
        _ => assert!(false, "prompt did not match a StringParam"),
    }
}

#[test]
fn completion_builder_must_set_list_prompt() {
    let req = CompletionRequestBuilder::default()
        .model("test")
        .prompt(vec!["a", "b"])
        .build()
        .unwrap();
    match req.prompt {
        Some(ListParam(s)) => assert_eq!(s, vec!["a", "b"]),
        _ => assert!(false, "prompt did not match a ListParam"),
    }
}

#[test]
fn types_builder_must_set_list_prompt() {
    let req = CompletionRequestBuilder::default()
        .model("test")
        .prompt(vec!["a", "b"])
        .build()
        .unwrap();
    match req.prompt {
        Some(ListParam(s)) => assert_eq!(s, vec!["a", "b"]),
        _ => assert!(false, "prompt did not match a ListParam"),
    }
}

#[test]
fn completion_builder_must_set_ref_list_prompt() {
    let list = vec!["test1", "test2"];
    let req = CompletionRequestBuilder::default()
        .model("test")
        .prompt(&list)
        .build()
        .unwrap();
    match req.prompt {
        Some(ListParam(s)) => assert_eq!(s, list),
        _ => assert!(false, "prompt did not match a ListParam"),
    }
}

#[test]
fn types_builder_must_set_ref_list_prompt() {
    let list = vec!["test1", "test2"];
    let req = CompletionRequestBuilder::default()
        .model("test")
        .prompt(&list)
        .build()
        .unwrap();
    match req.prompt {
        Some(ListParam(s)) => assert_eq!(s, list),
        _ => assert!(false, "prompt did not match a ListParam"),
    }
}

#[test]
fn completion_builder_sets_empty_list_stop() {
    let empty: Vec<&str> = Vec::new();
    let req = CompletionRequestBuilder::default()
        .model("test")
        .stop(empty)
        .build()
        .unwrap();
    assert_eq!(req.stop, Some(ListParam(Vec::new())));
}

fn expected_full_request() -> CompletionRequest {
    CompletionRequest {
        model: "model".to_string(),
        prompt: Some(StringParam("prompt".to_string())),
        suffix: Some("suffix".to_string()),
        max_tokens: None,
        temperature: None,
        top_p: None,
        n: Some(100),
        stream: Some(true),
        logprobs: None,
        echo: Some(true),
        stop: None,
        presence_penalty: None,
        frequency_penalty: None,
        best_of: Some(1),
        logit_bias: None,
        user: None,
    }
}

#[test]
fn completion_must_correctly_build() {
    let req = CompletionRequestBuilder::default()
        .model("model")
        .n(100)
        .prompt("prompt")
        .suffix("suffix")
        .best_of(true)
        .echo(true)
        .stream(true)
        .build()
        .unwrap();

    assert_eq!(req, expected_full_request())
}

#[test]
fn types_must_correctly_build() {
    let req = CompletionRequestBuilder::default()
        .model("model")
        .n(100)
        .prompt("prompt")
        .suffix("suffix")
        .best_of(true)
        .echo(true)
        .stream(true)
        .build()
        .unwrap();

    assert_eq!(req, expected_full_request())
}

#[test]
fn completion_builder_unset_fields_are_absent() {
    let req = CompletionRequestBuilder::default().model("m").build().unwrap();
    assert_eq!(
        req,
        CompletionRequest { model: "m".to_string(), ..CompletionRequest::default() }
    );
    assert_eq!(req.echo, None);
    assert_eq!(req.max_tokens, None);
}

#[test]
fn completion_builder_integer_conversions() {
    let req = CompletionRequestBuilder::default()
        .model("m")
        .best_of(false)
        .max_tokens(16i64)
        .temperature(-2)
        .logprobs(i64::MAX)
        .build()
        .unwrap();
    assert_eq!(req.best_of, Some(0));
    assert_eq!(req.max_tokens, Some(16));
    assert_eq!(req.temperature, Some(-2));
    assert_eq!(req.logprobs, Some(i64::MAX));
}

#[test]
fn completion_builder_later_setter_wins() {
    let req = CompletionRequestBuilder::default()
        .model("a")
        .model("b")
        .user("u")
        .build()
        .unwrap();
    assert_eq!(req.model, "b");
    assert_eq!(req.user, Some("u".to_string()));
}

#[test]
fn completion_builder_accepts_owned_and_borrowed_strings() {
    let suffix = String::from("end");
    let req = CompletionRequestBuilder::default()
        .model(String::from("m"))
        .suffix(&suffix)
        .user("u")
        .build()
        .unwrap();
    assert_eq!(req.model, "m");
    assert_eq!(req.suffix, Some("end".to_string()));
    assert_eq!(req.user, Some("u".to_string()));
}

#[test]
fn completion_builder_accepts_narrow_integers() {
    let req = CompletionRequestBuilder::default()
        .model("m")
        .n(3u8)
        .max_tokens(300u16)
        .logprobs(70000u32)
        .temperature(-5i8)
        .top_p(-300i16)
        .build()
        .unwrap();
    assert_eq!(req.n, Some(3));
    assert_eq!(req.max_tokens, Some(300));
    assert_eq!(req.logprobs, Some(70000));
    assert_eq!(req.temperature, Some(-5));
    assert_eq!(req.top_p, Some(-300));
}
