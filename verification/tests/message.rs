use coro_agent::message::{ContentBlock, LlmMessage, MessageContent, MessageRole};

fn empty_object() -> serde_json::Value {
    serde_json::Value::Object(serde_json::Map::new())
}

#[test]
fn test_llm_message_constructors() {
    let system_msg = LlmMessage::system("You are a helpful assistant");
    assert_eq!(system_msg.role, MessageRole::System);
    assert_eq!(
        system_msg.get_text(),
        Some("You are a helpful assistant".to_string())
    );

    let user_msg = LlmMessage::user("Hello, world!");
    assert_eq!(user_msg.role, MessageRole::User);
    assert_eq!(user_msg.get_text(), Some("Hello, world!".to_string()));

    let assistant_msg = LlmMessage::assistant("Hello! How can I help you?");
    assert_eq!(assistant_msg.role, MessageRole::Assistant);
    assert_eq!(
        assistant_msg.get_text(),
        Some("Hello! How can I help you?".to_string())
    );
}

#[test]
fn test_get_text_multimodal() {
    let message = LlmMessage {
        role: MessageRole::Assistant,
        content: MessageContent::MultiModal(vec![
            ContentBlock::Text { text: "First part".to_string() },
            ContentBlock::Text { text: "Second part".to_string() },
        ]),
        metadata: None,
    };

    assert_eq!(message.get_text(), Some("First part\nSecond part".to_string()));
}

#[test]
fn test_has_tool_use() {
    let simple_message = LlmMessage::user("Hello");
    assert!(!simple_message.has_tool_use());

    let tool_message = LlmMessage {
        role: MessageRole::Assistant,
        content: MessageContent::MultiModal(vec![ContentBlock::ToolUse {
            id: "tool_1".to_string(),
            name: "test".to_string(),
            input: empty_object(),
        }]),
        metadata: None,
    };
    assert!(tool_message.has_tool_use());
}

#[test]
fn tool_constructor_has_tool_role() {
    let msg = LlmMessage::tool("done");
    assert_eq!(msg.role, MessageRole::Tool);
    assert_eq!(msg.get_text(), Some("done".to_string()));
    assert!(msg.metadata.is_none());
}

#[test]
fn get_text_skips_other_blocks_and_is_none_without_text() {
    let mixed = LlmMessage {
        role: MessageRole::Assistant,
        content: MessageContent::MultiModal(vec![
            ContentBlock::Image { data: "AAAA".to_string(), mime_type: "image/png".to_string() },
            ContentBlock::Text { text: "a".to_string() },
            ContentBlock::ToolUse {
                id: "t".to_string(),
                name: "bash".to_string(),
                input: empty_object(),
            },
            ContentBlock::Text { text: "".to_string() },
            ContentBlock::Text { text: "c".to_string() },
        ]),
        metadata: None,
    };
    assert_eq!(mixed.get_text(), Some("a\n\nc".to_string()));

    let none = LlmMessage {
        role: MessageRole::Assistant,
        content: MessageContent::MultiModal(vec![ContentBlock::ToolUse {
            id: "t".to_string(),
            name: "bash".to_string(),
            input: empty_object(),
        }]),
        metadata: None,
    };
    assert_eq!(none.get_text(), None);

    let empty = LlmMessage {
        role: MessageRole::Assistant,
        content: MessageContent::MultiModal(Vec::new()),
        metadata: None,
    };
    assert_eq!(empty.get_text(), None);
    assert!(!empty.has_tool_use());
}

#[test]
fn get_tool_uses_keeps_order_and_only_tool_uses() {
    let message = LlmMessage {
        role: MessageRole::Assistant,
        content: MessageContent::MultiModal(vec![
            ContentBlock::Text { text: "thinking".to_string() },
            ContentBlock::ToolUse {
                id: "first".to_string(),
                name: "bash".to_string(),
                input: empty_object(),
            },
            ContentBlock::ToolResult {
                tool_use_id: "x".to_string(),
                is_error: None,
                content: "c".to_string(),
            },
            ContentBlock::ToolUse {
                id: "second".to_string(),
                name: "task_done".to_string(),
                input: serde_json::Value::String("v".to_string()),
            },
        ]),
        metadata: None,
    };
    let uses = message.get_tool_uses();
    assert_eq!(uses.len(), 2);
    match uses[0] {
        ContentBlock::ToolUse { id, name, .. } => {
            assert_eq!(id, "first");
            assert_eq!(name, "bash");
        }
        _ => panic!("not a tool use"),
    }
    match uses[1] {
        ContentBlock::ToolUse { id, input, .. } => {
            assert_eq!(id, "second");
            assert_eq!(input, &serde_json::Value::String("v".to_string()));
        }
        _ => panic!("not a tool use"),
    }
    assert!(LlmMessage::user("plain").get_tool_uses().is_empty());
}

#[test]
fn tool_result_message_shape() {
    let msg = LlmMessage::tool_result("id-1", true, "boom");
    assert_eq!(msg.role, MessageRole::Tool);
    match &msg.content {
        MessageContent::MultiModal(blocks) => {
            assert_eq!(blocks.len(), 1);
            match &blocks[0] {
                ContentBlock::ToolResult { tool_use_id, is_error, content } => {
                    assert_eq!(tool_use_id, "id-1");
                    assert_eq!(*is_error, Some(true));
                    assert_eq!(content, "boom");
                }
                _ => panic!("not a tool result"),
            }
        }
        _ => panic!("not multi-part"),
    }
}

#[test]
fn clone_copies_content_and_input() {
    let mut object = serde_json::Map::new();
    object.insert("command".to_string(), serde_json::Value::String("ls".to_string()));
    let message = LlmMessage {
        role: MessageRole::Assistant,
        content: MessageContent::MultiModal(vec![ContentBlock::ToolUse {
            id: "t".to_string(),
            name: "bash".to_string(),
            input: serde_json::Value::Object(object.clone()),
        }]),
        metadata: None,
    };
    let copy = message.clone();
    assert_eq!(copy.role, MessageRole::Assistant);
    match &copy.content {
        MessageContent::MultiModal(blocks) => match &blocks[0] {
            ContentBlock::ToolUse { id, name, input } => {
                assert_eq!(id, "t");
                assert_eq!(name, "bash");
                assert_eq!(input, &serde_json::Value::Object(object));
            }
            _ => panic!("not a tool use"),
        },
        _ => panic!("not multi-part"),
    }
}
