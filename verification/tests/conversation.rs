use ai_chat::ai_models::AIModel;
use ai_chat::conversation::ConversationStore;
use ai_chat::conversation::Message;
use ai_chat::conversation::Sender;
use ai_chat::i18n::Language;

#[test]
fn a_turn_leaves_one_user_and_one_answer_envelope() {
    let mut log = ConversationStore::new();
    let model = AIModel::DeepSeek;
    let id = log.submit("Hi", &model, Language::English, 1000).expect("non-blank input submits");
    assert_eq!(id, 1);
    assert_eq!(log.len(), 2);
    {
        let snap = log.snapshot();
        assert_eq!(snap[0].content, "Hi");
        assert_eq!(snap[0].sender, Sender::User);
        assert_eq!(snap[1].content, "🤔 DeepSeek is thinking...");
        assert_eq!(snap[1].sender, Sender::Thinking(AIModel::DeepSeek));
    }
    log.complete(id, &model, "Hello!", 2000);
    let snap = log.snapshot();
    assert_eq!(snap.len(), 2);
    assert_eq!(snap[0].content, "Hi");
    assert_eq!(snap[0].sender, Sender::User);
    assert_eq!(snap[1].content, "Hello!");
    assert_eq!(snap[1].sender, Sender::AI(AIModel::DeepSeek));
    assert!(!snap.iter().any(|m| matches!(m.sender, Sender::Thinking(_))));
}

#[test]
fn a_failed_turn_shows_the_error_as_an_answer() {
    let mut log = ConversationStore::new();
    let model = AIModel::DeepSeek;
    let id = log.submit("Hi", &model, Language::English, 0).unwrap();
    log.complete(id, &model, "⚠️ API call failed: Timeout: Request timeout after 30 seconds", 1);
    let snap = log.snapshot();
    assert_eq!(snap.len(), 2);
    assert!(matches!(snap[1].sender, Sender::AI(_)));
    assert!(snap[1].content.starts_with("⚠️"));
}

#[test]
fn blank_input_submits_nothing() {
    let mut log = ConversationStore::new();
    let model = AIModel::DeepSeek;
    assert!(log.submit("", &model, Language::English, 0).is_none());
    assert!(log.submit("   ", &model, Language::English, 0).is_none());
    assert!(log.submit("\t\n", &model, Language::English, 0).is_none());
    assert_eq!(log.len(), 0);
}

#[test]
fn the_placeholder_names_the_model_in_the_language() {
    let mut log = ConversationStore::new();
    let model = AIModel::OpenAI;
    log.submit("你好", &model, Language::Chinese, 0).unwrap();
    let snap = log.snapshot();
    assert_eq!(snap[1].content, "🤔 OpenAI GPT 正在思考中...");
}

#[test]
fn replace_with_a_stale_id_is_a_no_op() {
    let mut log = ConversationStore::new();
    let m = Message { content: "a".to_string(), sender: Sender::User, timestamp_ms: 0 };
    log.append(m);
    log.replace(
        5,
        Message { content: "b".to_string(), sender: Sender::User, timestamp_ms: 0 },
    );
    let snap = log.snapshot();
    assert_eq!(snap.len(), 1);
    assert_eq!(snap[0].content, "a");
}

#[test]
fn append_returns_stable_identifiers() {
    let mut log = ConversationStore::new();
    let a = log.append(Message { content: "a".to_string(), sender: Sender::User, timestamp_ms: 1 });
    let b = log.append(Message { content: "b".to_string(), sender: Sender::User, timestamp_ms: 2 });
    assert_eq!(a, 0);
    assert_eq!(b, 1);
    log.replace(a, Message { content: "a2".to_string(), sender: Sender::User, timestamp_ms: 3 });
    let snap = log.snapshot();
    assert_eq!(snap[0].content, "a2");
    assert_eq!(snap[1].content, "b");
}

#[test]
fn two_turns_in_flight_keep_distinct_placeholders() {
    let mut log = ConversationStore::new();
    let model = AIModel::DeepSeek;
    let first = log.submit("one", &model, Language::English, 0).unwrap();
    let second = log.submit("two", &model, Language::English, 0).unwrap();
    assert_ne!(first, second);
    log.complete(second, &model, "answer two", 1);
    let snap = log.snapshot();
    assert!(matches!(snap[first].sender, Sender::Thinking(_)));
    assert_eq!(snap[second].content, "answer two");
    log.complete(first, &model, "answer one", 2);
    let snap2 = log.snapshot();
    assert_eq!(snap2[first].content, "answer one");
    assert!(!snap2.iter().any(|m| matches!(m.sender, Sender::Thinking(_))));
}
