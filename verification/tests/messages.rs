use ai_chat::deepseek::create_assistant_message;
use ai_chat::deepseek::create_system_message;
use ai_chat::deepseek::create_user_message;

#[test]
fn test_message_creation() {
    let system_msg = create_system_message("You are a helpful assistant.");
    let user_msg = create_user_message("Hello, how are you?");
    let assistant_msg = create_assistant_message("I'm doing well, thank you!");
    assert_eq!(system_msg.role, "system");
    assert_eq!(user_msg.role, "user");
    assert_eq!(assistant_msg.role, "assistant");
}

#[test]
fn message_contents_are_kept() {
    let system_msg = create_system_message("You are a helpful assistant.");
    let user_msg = create_user_message("Hello, how are you?");
    let assistant_msg = create_assistant_message("I'm doing well, thank you!");
    assert_eq!(system_msg.content, "You are a helpful assistant.");
    assert_eq!(user_msg.content, "Hello, how are you?");
    assert_eq!(assistant_msg.content, "I'm doing well, thank you!");
}
