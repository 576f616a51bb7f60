use ai_chat::aliyun::AliYunClient;
use ai_chat::aliyun::AliYunError;
use ai_chat::aliyun::AliYunModelType;
use ai_chat::deepseek::ChatMessage;
use ai_chat::deepseek::ChatResponse;
use ai_chat::deepseek::Choice;
use ai_chat::deepseek::MessageResponse;
use ai_chat::deepseek::StreamChoice;
use ai_chat::deepseek::StreamDelta;
use ai_chat::deepseek::StreamResponse;
use ai_chat::deepseek::Usage;
use ai_chat::deepseek::DeepSeekClient;
use ai_chat::deepseek::DeepSeekError;
use ai_chat::i18n::Language;

#[test]
fn empty_key_is_a_config_error_for_deepseek() {
    let r = DeepSeekClient::with_api_key("");
    match r {
        Err(DeepSeekError::ConfigError(m)) => assert_eq!(m, "API key cannot be empty"),
        _ => panic!("an empty credential must fail with ConfigError"),
    }
}

#[test]
fn empty_key_is_a_config_error_for_aliyun() {
    let r = AliYunClient::with_api_key("");
    match r {
        Err(AliYunError::ConfigError(m)) => assert_eq!(m, "API key cannot be empty"),
        _ => panic!("an empty credential must fail with ConfigError"),
    }
}

#[test]
fn a_credential_makes_a_client() {
    let c = DeepSeekClient::with_api_key("k").unwrap();
    assert_eq!(c.get_config().base_url, "https://api.deepseek.com");
    assert_eq!(c.get_config().model, "deepseek-chat");
    assert_eq!(c.get_config().timeout_seconds, 30);
    let a = AliYunClient::with_api_key_and_model("k", AliYunModelType::QwenMax).unwrap();
    assert_eq!(a.get_config().base_url, "https://dashscope.aliyuncs.com");
    assert!(matches!(a.get_config().model_type, AliYunModelType::QwenMax));
}

#[test]
fn endpoints_and_auth_header() {
    let c = DeepSeekClient::with_api_key("sk-1").unwrap();
    assert_eq!(c.endpoint_url(), "https://api.deepseek.com/v1/chat/completions");
    assert_eq!(c.auth_header(), "Bearer sk-1");
    let a = AliYunClient::with_api_key("sk-2").unwrap();
    assert_eq!(
        a.endpoint_url(),
        "https://dashscope.aliyuncs.com/compatible-mode/v1/chat/completions"
    );
    assert_eq!(a.auth_header(), "Bearer sk-2");
}

#[test]
fn chat_returns_first_choice_content() {
    let c = DeepSeekClient::with_api_key("k").unwrap();
    let body = "{\"id\":\"1\",\"object\":\"chat.completion\",\"created\":0,\"model\":\"deepseek-chat\",\"choices\":[{\"index\":0,\"message\":{\"role\":\"assistant\",\"content\":\"Hello!\"},\"finish_reason\":\"stop\"}],\"usage\":{\"prompt_tokens\":1,\"completion_tokens\":1,\"total_tokens\":2}}";
    let r = c.response_outcome(200, body);
    assert_eq!(r.unwrap(), "Hello!");
}

#[test]
fn http_401_is_an_api_error_with_status_and_body() {
    let c = DeepSeekClient::with_api_key("k").unwrap();
    let r = c.response_outcome(401, "{\"error\":\"invalid key\"}");
    match r {
        Err(DeepSeekError::ApiError(m)) => {
            assert!(m.contains("401"));
            assert!(m.contains("{\"error\":\"invalid key\"}"));
            assert_eq!(m, "HTTP 401: {\"error\":\"invalid key\"}");
        }
        _ => panic!("a non-success status must fail with ApiError"),
    }
}

#[test]
fn aliyun_http_500_is_an_api_error() {
    let a = AliYunClient::with_api_key("k").unwrap();
    let r = a.response_outcome(500, "boom");
    match r {
        Err(AliYunError::ApiError(m)) => assert_eq!(m, "HTTP 500: boom"),
        _ => panic!("a non-success status must fail with ApiError"),
    }
}

#[test]
fn garbage_body_is_a_parse_error() {
    let c = DeepSeekClient::with_api_key("k").unwrap();
    let r = c.response_outcome(200, "not json at all");
    match r {
        Err(DeepSeekError::ParseError(m)) => assert_eq!(m, "Failed to parse response"),
        _ => panic!("a body that is not JSON must fail with ParseError"),
    }
}

#[test]
fn empty_choices_is_a_parse_error() {
    let c = DeepSeekClient::with_api_key("k").unwrap();
    let r = c.response_outcome(200, "{\"choices\":[]}");
    match r {
        Err(DeepSeekError::ParseError(m)) => assert_eq!(m, "No choices in response"),
        _ => panic!("a response with no choice must fail with ParseError"),
    }
}

#[test]
fn timeouts_are_told_apart_from_other_faults() {
    let c = DeepSeekClient::with_api_key("k").unwrap();
    match c.send_failure(true, "deadline") {
        DeepSeekError::Timeout(m) => assert_eq!(m, "Request timeout after 30 seconds"),
        _ => panic!("a timeout must be a Timeout"),
    }
    match c.send_failure(false, "connection refused") {
        DeepSeekError::RequestError(m) => {
            assert_eq!(m, "Failed to send request: connection refused")
        }
        _ => panic!("an I/O fault must be a RequestError"),
    }
}

#[test]
fn connection_verdict_swallows_every_error() {
    assert!(!DeepSeekClient::connection_verdict(&Err(DeepSeekError::RequestError(
        "x".to_string()
    ))));
    assert!(!DeepSeekClient::connection_verdict(&Err(DeepSeekError::Timeout("x".to_string()))));
    assert!(!DeepSeekClient::connection_verdict(&Err(DeepSeekError::ApiError("x".to_string()))));
    assert!(!DeepSeekClient::connection_verdict(&Err(DeepSeekError::ParseError("x".to_string()))));
    assert!(!DeepSeekClient::connection_verdict(&Err(DeepSeekError::ConfigError(
        "x".to_string()
    ))));
    assert!(!DeepSeekClient::connection_verdict(&Ok(String::new())));
    assert!(DeepSeekClient::connection_verdict(&Ok("OK".to_string())));
    assert!(DeepSeekClient::connection_verdict(&Ok("anything".to_string())));
    assert!(!AliYunClient::connection_verdict(&Err(AliYunError::RequestError("x".to_string()))));
    assert!(AliYunClient::connection_verdict(&Ok("回复".to_string())));
}

#[test]
fn probe_message_is_fixed() {
    let p = DeepSeekClient::connection_probe();
    assert_eq!(p.role, "user");
    assert_eq!(p.content, "Hello, respond with 'OK' if you can hear me.");
    let q = AliYunClient::connection_probe();
    assert_eq!(q.role, "user");
    assert_eq!(q.content, "Hello, respond with 'OK' if you can hear me.");
}

#[test]
fn simple_chat_messages_order() {
    let m = DeepSeekClient::simple_chat_messages("hi", Some("be brief"));
    assert_eq!(m.len(), 2);
    assert_eq!(m[0].role, "system");
    assert_eq!(m[0].content, "be brief");
    assert_eq!(m[1].role, "user");
    assert_eq!(m[1].content, "hi");
    let m2 = DeepSeekClient::simple_chat_messages("hi", None);
    assert_eq!(m2.len(), 1);
    assert_eq!(m2[0].role, "user");
}

#[test]
fn aliyun_simple_chat_adds_language_prompt() {
    let m = AliYunClient::simple_chat_messages("你好", None, Language::Chinese);
    assert_eq!(m.len(), 2);
    assert_eq!(m[0].role, "system");
    assert_eq!(m[0].content, "请使用中文回答。");
    assert_eq!(m[1].role, "user");
    assert_eq!(m[1].content, "你好");
    let m2 = AliYunClient::simple_chat_messages("hi", Some("sys"), Language::English);
    assert_eq!(m2.len(), 3);
    assert_eq!(m2[0].content, "sys");
    assert_eq!(m2[1].content, "Please respond in English only.");
    assert_eq!(m2[2].content, "hi");
}

#[test]
fn request_body_has_the_wire_shape() {
    let c = DeepSeekClient::with_api_key("k").unwrap();
    let messages = vec![ChatMessage { role: "user".to_string(), content: "Hi".to_string() }];
    let req = c.build_request(messages, None, None, false);
    assert_eq!(
        req.to_json(),
        "{\"model\":\"deepseek-chat\",\"messages\":[{\"role\":\"user\",\"content\":\"Hi\"}],\"temperature\":0.7,\"max_tokens\":null,\"stream\":false}"
    );
}

#[test]
fn aliyun_request_uses_the_model_wire_id() {
    let a = AliYunClient::with_api_key_and_model("k", AliYunModelType::QwenPlus).unwrap();
    let messages = vec![ChatMessage { role: "user".to_string(), content: "Hi".to_string() }];
    let req = a.build_request(messages, Some(50), Some(6000), true);
    assert_eq!(
        req.to_json(),
        "{\"model\":\"qwen-plus\",\"messages\":[{\"role\":\"user\",\"content\":\"Hi\"}],\"temperature\":0.5,\"max_tokens\":6000,\"stream\":true}"
    );
}

#[test]
fn set_model_changes_only_the_model() {
    let mut c = DeepSeekClient::with_api_key("k").unwrap();
    c.set_model("deepseek-coder");
    assert_eq!(c.get_config().model, "deepseek-coder");
    assert_eq!(c.get_config().api_key, "k");
    let mut a = AliYunClient::with_api_key("k").unwrap();
    a.set_model(AliYunModelType::QwenMaxLongContext);
    assert!(matches!(a.get_config().model_type, AliYunModelType::QwenMaxLongContext));
}

#[test]
fn a_decoded_response_answers_with_its_first_choice() {
    let resp = ChatResponse {
        id: "1".to_string(),
        object: "chat.completion".to_string(),
        created: 0,
        model: "deepseek-chat".to_string(),
        choices: vec![
            Choice {
                index: 0,
                message: MessageResponse { role: "assistant".to_string(), content: "first".to_string() },
                finish_reason: "stop".to_string(),
            },
            Choice {
                index: 1,
                message: MessageResponse { role: "assistant".to_string(), content: "second".to_string() },
                finish_reason: "stop".to_string(),
            },
        ],
        usage: Usage { prompt_tokens: 1, completion_tokens: 1, total_tokens: 2 },
    };
    assert_eq!(resp.first_content().unwrap(), "first");
    let empty = ChatResponse {
        id: "1".to_string(),
        object: "chat.completion".to_string(),
        created: 0,
        model: "m".to_string(),
        choices: vec![],
        usage: Usage { prompt_tokens: 0, completion_tokens: 0, total_tokens: 0 },
    };
    assert!(empty.first_content().is_none());
}

#[test]
fn a_decoded_stream_event_answers_with_its_first_delta() {
    let ev = StreamResponse {
        id: "1".to_string(),
        object: "chat.completion.chunk".to_string(),
        created: 0,
        model: "m".to_string(),
        choices: vec![StreamChoice {
            index: 0,
            delta: StreamDelta { role: None, content: Some("Hel".to_string()) },
            finish_reason: None,
        }],
    };
    assert_eq!(ev.first_delta().unwrap(), "Hel");
    let bare = StreamResponse {
        id: "1".to_string(),
        object: "chat.completion.chunk".to_string(),
        created: 0,
        model: "m".to_string(),
        choices: vec![StreamChoice {
            index: 0,
            delta: StreamDelta { role: Some("assistant".to_string()), content: None },
            finish_reason: None,
        }],
    };
    assert!(bare.first_delta().is_none());
}

#[test]
fn error_messages_render_with_their_kind() {
    assert_eq!(DeepSeekError::RequestError("x".to_string()).message(), "Request error: x");
    assert_eq!(DeepSeekError::ParseError("x".to_string()).message(), "Parse error: x");
    assert_eq!(DeepSeekError::ApiError("x".to_string()).message(), "API error: x");
    assert_eq!(DeepSeekError::Timeout("x".to_string()).message(), "Timeout: x");
    assert_eq!(DeepSeekError::ConfigError("x".to_string()).message(), "Config error: x");
    assert_eq!(AliYunError::Timeout("y".to_string()).message(), "Timeout: y");
}
