use ai_chat::deepseek::ChatMessage;
use ai_chat::deepseek::ChatRequest;
use ai_chat::i18n::Language;
use ai_chat::i18n::Translations;
use ai_chat::json::i64_to_string;
use ai_chat::json::temperature_to_string;
use ai_chat::text::str_contains;
use ai_chat::text::str_eq;
use ai_chat::text::str_is_blank;
use ai_chat::text::u64_to_string;

#[test]
fn decimal_rendering() {
    assert_eq!(u64_to_string(0), "0");
    assert_eq!(u64_to_string(7), "7");
    assert_eq!(u64_to_string(30), "30");
    assert_eq!(u64_to_string(401), "401");
    assert_eq!(u64_to_string(18446744073709551615), "18446744073709551615");
    assert_eq!(i64_to_string(-1), "-1");
    assert_eq!(i64_to_string(-2147483648), "-2147483648");
    assert_eq!(i64_to_string(2048), "2048");
}

#[test]
fn temperature_rendering() {
    assert_eq!(temperature_to_string(70), "0.7");
    assert_eq!(temperature_to_string(100), "1.0");
    assert_eq!(temperature_to_string(25), "0.25");
    assert_eq!(temperature_to_string(5), "0.05");
    assert_eq!(temperature_to_string(0), "0.0");
    assert_eq!(temperature_to_string(150), "1.5");
}

#[test]
fn string_helpers() {
    assert!(str_eq("abc", "abc"));
    assert!(!str_eq("abc", "abd"));
    assert!(!str_eq("abc", "ab"));
    assert!(str_eq("中文", "中文"));
    assert!(str_contains("hello OK world", "OK"));
    assert!(!str_contains("hello", "OK"));
    assert!(str_contains("abc", ""));
    assert!(str_is_blank(""));
    assert!(str_is_blank(" \t\r\n"));
    assert!(!str_is_blank(" x "));
}

#[test]
fn json_escaping_in_request_bodies() {
    let req = ChatRequest {
        model: "m".to_string(),
        messages: vec![ChatMessage {
            role: "user".to_string(),
            content: "say \"hi\"\nplease \\ now\ttab\u{1}".to_string(),
        }],
        temperature_hundredths: 70,
        max_tokens: None,
        stream: false,
    };
    assert_eq!(
        req.to_json(),
        "{\"model\":\"m\",\"messages\":[{\"role\":\"user\",\"content\":\"say \\\"hi\\\"\\nplease \\\\ now\\ttab\\u0001\"}],\"temperature\":0.7,\"max_tokens\":null,\"stream\":false}"
    );
}

#[test]
fn multiple_messages_are_comma_separated() {
    let req = ChatRequest {
        model: "m".to_string(),
        messages: vec![
            ChatMessage { role: "system".to_string(), content: "s".to_string() },
            ChatMessage { role: "user".to_string(), content: "u".to_string() },
        ],
        temperature_hundredths: 70,
        max_tokens: Some(100),
        stream: true,
    };
    assert_eq!(
        req.to_json(),
        "{\"model\":\"m\",\"messages\":[{\"role\":\"system\",\"content\":\"s\"},{\"role\":\"user\",\"content\":\"u\"}],\"temperature\":0.7,\"max_tokens\":100,\"stream\":true}"
    );
}

#[test]
fn an_empty_message_list_is_an_empty_array() {
    let req = ChatRequest {
        model: "m".to_string(),
        messages: vec![],
        temperature_hundredths: 70,
        max_tokens: None,
        stream: false,
    };
    assert_eq!(
        req.to_json(),
        "{\"model\":\"m\",\"messages\":[],\"temperature\":0.7,\"max_tokens\":null,\"stream\":false}"
    );
}

#[test]
fn translations_answer_their_keys() {
    let zh = Translations::new(Language::Chinese);
    assert_eq!(zh.get("notification_theme_changed"), "主题已更改");
    assert_eq!(zh.get("language_selector"), "语言 (C/E)");
    let en = Translations::new(Language::English);
    assert_eq!(en.get("notification_theme_changed"), "Theme changed");
    assert_eq!(
        en.get("welcome_message"),
        "Welcome to AI Chat Terminal! Use left/right arrows to switch AI models, press Enter to send messages. Press F1 for help, C/E to switch languages."
    );
}

#[test]
fn a_missing_key_is_marked_not_fatal() {
    let en = Translations::new(Language::English);
    assert_eq!(en.get("no_such_key"), "[MISSING: no_such_key]");
}

#[test]
fn language_names_and_codes() {
    assert_eq!(Language::Chinese.name(), "中文");
    assert_eq!(Language::English.name(), "English");
    assert_eq!(Language::Chinese.code(), "zh");
    assert_eq!(Language::English.code(), "en");
    assert_eq!(Language::default(), Language::Chinese);
}
