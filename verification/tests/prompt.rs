use copilot_cli::driver::CopilotCliDriver;
use copilot_cli::llm::CompletionRequest;
use copilot_cli::message::{Message, MessageContent, Role};

fn message(role: Role, text: &str) -> Message {
    Message { role, content: MessageContent::text(text) }
}

fn request(system: Option<&str>, messages: Vec<Message>) -> CompletionRequest {
    CompletionRequest {
        model: "copilot-cli".to_string(),
        messages,
        max_tokens: 1024,
        system: system.map(|s| s.to_string()),
        thinking: None,
    }
}

#[test]
fn test_build_prompt_simple() {
    let request = CompletionRequest {
        model: "copilot-cli".to_string(),
        messages: vec![Message {
            role: Role::User,
            content: MessageContent::text("Hello"),
        }],
        max_tokens: 1024,
        system: Some("You are helpful.".to_string()),
        thinking: None,
    };

    let prompt = CopilotCliDriver::build_prompt(&request);
    assert!(prompt.contains("[System]"));
    assert!(prompt.contains("You are helpful."));
    assert!(prompt.contains("[User]"));
    assert!(prompt.contains("Hello"));
}

#[test]
fn prompt_keeps_roles_and_order() {
    let request = request(
        Some("Be brief."),
        vec![
            message(Role::User, "Hi"),
            message(Role::Assistant, "Hello!"),
            message(Role::System, "Note."),
            message(Role::User, "Bye"),
        ],
    );
    assert_eq!(
        CopilotCliDriver::build_prompt(&request),
        "[System]\nBe brief.\n\n[User]\nHi\n\n[Assistant]\nHello!\n\n[System]\nNote.\n\n[User]\nBye"
    );
}

#[test]
fn prompt_leaves_out_messages_without_text() {
    let with = request(None, vec![message(Role::User, ""), message(Role::User, "a")]);
    let without = request(None, vec![message(Role::User, "a")]);
    assert_eq!(CopilotCliDriver::build_prompt(&with), "[User]\na");
    assert_eq!(
        CopilotCliDriver::build_prompt(&with),
        CopilotCliDriver::build_prompt(&without)
    );
}

#[test]
fn prompt_keeps_an_empty_system_prompt() {
    assert_eq!(CopilotCliDriver::build_prompt(&request(Some(""), vec![])), "[System]\n");
    assert_eq!(CopilotCliDriver::build_prompt(&request(None, vec![])), "");
    assert_eq!(
        CopilotCliDriver::build_prompt(&request(None, vec![message(Role::Assistant, "")])),
        ""
    );
}

#[test]
fn message_content_is_its_text() {
    assert_eq!(MessageContent::text("Hello").text_content(), "Hello");
}
