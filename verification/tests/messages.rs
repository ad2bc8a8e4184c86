use codex_anthropic::messages::{
    messages_request, response_items_to_anthropic_messages, tool_input, AnthropicContent,
    AnthropicMessage, AnthropicToolDef, ToolInput,
};
use codex_anthropic::protocol::{ContentItem, ResponseItem};

fn message(role: &str, content: Vec<ContentItem>) -> ResponseItem {
    ResponseItem::Message {
        id: None,
        role: role.to_string(),
        content,
    }
}

fn input(text: &str) -> ContentItem {
    ContentItem::InputText {
        text: text.to_string(),
    }
}

fn output(text: &str) -> ContentItem {
    ContentItem::OutputText {
        text: text.to_string(),
    }
}

fn image(url: &str) -> ContentItem {
    ContentItem::InputImage {
        image_url: url.to_string(),
    }
}

fn texts(m: &AnthropicMessage) -> Vec<String> {
    m.content
        .iter()
        .map(|c| match c {
            AnthropicContent::Text { text } => text.clone(),
            other => panic!("not a text block: {other:?}"),
        })
        .collect()
}

#[test]
fn system_messages_become_the_system_prompt() {
    let items = vec![
        message("system", vec![input("be brief"), output("ignored"), input(" and kind")]),
        message("user", vec![input("hi")]),
        message("system", vec![input("!")]),
    ];
    let (system, messages) = response_items_to_anthropic_messages(&items);
    assert_eq!(system.as_deref(), Some("be brief and kind!"));
    assert_eq!(messages.len(), 1);
    assert_eq!(messages[0].role, "user");
    assert_eq!(texts(&messages[0]), vec!["hi"]);
}

#[test]
fn system_prompt_absent_without_system_text() {
    let items = vec![
        message("system", vec![output("not an input")]),
        message("user", vec![input("hi")]),
    ];
    let (system, _) = response_items_to_anthropic_messages(&items);
    assert!(system.is_none());
}

#[test]
fn consecutive_messages_of_one_role_merge() {
    let items = vec![
        message("user", vec![input("a")]),
        message("user", vec![input("b"), output("c")]),
        message("assistant", vec![output("d")]),
        message("user", vec![input("e")]),
    ];
    let (_, messages) = response_items_to_anthropic_messages(&items);
    assert_eq!(messages.len(), 3);
    assert_eq!(messages[0].role, "user");
    assert_eq!(texts(&messages[0]), vec!["a", "b", "c"]);
    assert_eq!(messages[1].role, "assistant");
    assert_eq!(texts(&messages[1]), vec!["d"]);
    assert_eq!(messages[2].role, "user");
    assert_eq!(texts(&messages[2]), vec!["e"]);
}

#[test]
fn tool_calls_and_results_stand_alone() {
    let items = vec![
        message("assistant", vec![output("let me look")]),
        ResponseItem::FunctionCall {
            id: Some("fc_1".to_string()),
            name: "shell".to_string(),
            namespace: None,
            arguments: "{\"cmd\":\"ls\",\"n\":1}".to_string(),
            call_id: "call_1".to_string(),
        },
        ResponseItem::FunctionCallOutput {
            call_id: "call_1".to_string(),
            output: "file.txt".to_string(),
        },
        message("assistant", vec![output("done")]),
    ];
    let (system, messages) = response_items_to_anthropic_messages(&items);
    assert!(system.is_none());
    assert_eq!(messages.len(), 4);
    assert_eq!(messages[0].role, "assistant");
    assert_eq!(texts(&messages[0]), vec!["let me look"]);

    assert_eq!(messages[1].role, "assistant");
    assert_eq!(messages[1].content.len(), 1);
    match &messages[1].content[0] {
        AnthropicContent::ToolUse { id, name, input } => {
            assert_eq!(id, "call_1");
            assert_eq!(name, "shell");
            match input {
                ToolInput::Json(v) => {
                    assert_eq!(v.get("cmd").and_then(|x| x.as_str()), Some("ls"));
                    assert_eq!(v.get("n").and_then(|x| x.as_i64()), Some(1));
                }
                ToolInput::Null => panic!("arguments should parse"),
            }
        }
        other => panic!("not a tool use: {other:?}"),
    }

    assert_eq!(messages[2].role, "user");
    assert_eq!(messages[2].content.len(), 1);
    match &messages[2].content[0] {
        AnthropicContent::ToolResult {
            tool_use_id,
            content,
        } => {
            assert_eq!(tool_use_id, "call_1");
            assert_eq!(content, "file.txt");
        }
        other => panic!("not a tool result: {other:?}"),
    }

    assert_eq!(messages[3].role, "assistant");
    assert_eq!(texts(&messages[3]), vec!["done"]);
}

#[test]
fn unparsable_arguments_become_null() {
    let items = vec![ResponseItem::FunctionCall {
        id: None,
        name: "shell".to_string(),
        namespace: None,
        arguments: "not json".to_string(),
        call_id: "c".to_string(),
    }];
    let (_, messages) = response_items_to_anthropic_messages(&items);
    assert_eq!(messages.len(), 1);
    match &messages[0].content[0] {
        AnthropicContent::ToolUse { input, .. } => assert!(matches!(input, ToolInput::Null)),
        other => panic!("not a tool use: {other:?}"),
    }
}

#[test]
fn tool_input_reads_json_text() {
    assert!(matches!(tool_input(" [1, 2] "), ToolInput::Json(_)));
    assert!(matches!(tool_input("null"), ToolInput::Json(_)));
    assert!(matches!(tool_input(""), ToolInput::Null));
    assert!(matches!(tool_input("{\"a\":"), ToolInput::Null));
}

#[test]
fn images_are_sent_as_base64_sources() {
    let items = vec![message(
        "user",
        vec![
            image("data:image/jpeg;base64,QUJD"),
            image("data:image/gif"),
            image("https://example.com/cat.png"),
            input("what is this?"),
        ],
    )];
    let (_, messages) = response_items_to_anthropic_messages(&items);
    assert_eq!(messages.len(), 1);
    let content = &messages[0].content;
    assert_eq!(content.len(), 3);
    match &content[0] {
        AnthropicContent::Image { source } => {
            assert_eq!(source.source_type, "base64");
            assert_eq!(source.media_type, "image/jpeg");
            assert_eq!(source.data, "QUJD");
        }
        other => panic!("not an image: {other:?}"),
    }
    match &content[1] {
        AnthropicContent::Image { source } => {
            assert_eq!(source.source_type, "base64");
            assert_eq!(source.media_type, "image/png");
            assert_eq!(source.data, "data:image/gif");
        }
        other => panic!("not an image: {other:?}"),
    }
    match &content[2] {
        AnthropicContent::Text { text } => assert_eq!(text, "what is this?"),
        other => panic!("not a text block: {other:?}"),
    }
}

#[test]
fn messages_without_content_are_dropped() {
    let items = vec![
        message("user", vec![]),
        message("assistant", vec![image("https://example.com/x.png")]),
        ResponseItem::Other,
        message("user", vec![input("hello")]),
    ];
    let (system, messages) = response_items_to_anthropic_messages(&items);
    assert!(system.is_none());
    assert_eq!(messages.len(), 1);
    assert_eq!(messages[0].role, "user");
    assert_eq!(texts(&messages[0]), vec!["hello"]);
}

#[test]
fn empty_history_converts_to_nothing() {
    let (system, messages) = response_items_to_anthropic_messages(&[]);
    assert!(system.is_none());
    assert!(messages.is_empty());
}

#[test]
fn request_omits_empty_tools_and_absent_system() {
    let req = messages_request("model-x".to_string(), None, Vec::new(), Vec::new(), 1024);
    assert_eq!(req.model, "model-x");
    assert_eq!(req.max_tokens, 1024);
    assert!(req.stream);
    assert!(req.system.is_none());
    assert!(req.tools.is_none());
    assert!(req.messages.is_empty());
}

#[test]
fn request_keeps_system_and_tools() {
    let tools = vec![AnthropicToolDef {
        name: "shell".to_string(),
        description: "runs a command".to_string(),
        input_schema: None,
    }];
    let msgs = vec![AnthropicMessage {
        role: "user".to_string(),
        content: vec![AnthropicContent::Text {
            text: "hi".to_string(),
        }],
    }];
    let req = messages_request(
        "model-x".to_string(),
        Some("be brief".to_string()),
        msgs,
        tools,
        64,
    );
    assert_eq!(req.system.as_deref(), Some("be brief"));
    let tools = req.tools.expect("tools");
    assert_eq!(tools.len(), 1);
    assert_eq!(tools[0].name, "shell");
    assert_eq!(req.messages.len(), 1);
}

#[test]
fn other_items_change_nothing() {
    let with_other = vec![
        message("user", vec![input("a")]),
        ResponseItem::Other,
        message("user", vec![input("b")]),
    ];
    let without = vec![message("user", vec![input("a")]), message("user", vec![input("b")])];
    let (s1, m1) = response_items_to_anthropic_messages(&with_other);
    let (s2, m2) = response_items_to_anthropic_messages(&without);
    assert_eq!(s1, s2);
    assert_eq!(m1.len(), 1);
    assert_eq!(m2.len(), 1);
    assert_eq!(texts(&m1[0]), texts(&m2[0]));
}

#[test]
fn tool_input_holds_the_parsed_value() {
    match tool_input("{\"path\": \"a.txt\", \"lines\": [1, 2]}") {
        ToolInput::Json(v) => {
            assert_eq!(v, serde_json::from_str::<serde_json::Value>("{\"lines\":[1,2],\"path\":\"a.txt\"}").unwrap());
        }
        ToolInput::Null => panic!("arguments should parse"),
    }
}
