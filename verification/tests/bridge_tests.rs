use rusted_tools::mcp::bridge::{
    bridge_call_request, bridge_call_result, build_rmcp_tool, build_rmcp_tools,
    to_bridge_content, BridgeContent, StdioBridge,
};
use rusted_tools::mcp::types::{ToolCallResponse, ToolContent, ToolDefinition};
use serde_json::Value;

fn object(entries: Vec<(&str, Value)>) -> Value {
    let mut map = serde_json::Map::new();
    for (key, value) in entries {
        map.insert(key.to_string(), value);
    }
    Value::Object(map)
}

fn text(s: &str) -> Value {
    Value::String(s.to_string())
}

#[test]
fn test_build_rmcp_tool_preserves_object_schema() {
    let tool = ToolDefinition {
        name: "example".to_string(),
        description: Some("Example tool".to_string()),
        input_schema: object(vec![("type", text("object"))]),
    };

    let converted = build_rmcp_tool(tool);
    assert!(converted.input_schema.contains_key("type"));
}

#[test]
fn test_build_rmcp_tool_non_object_schema_is_empty() {
    let tool = ToolDefinition {
        name: "example".to_string(),
        description: None,
        input_schema: Value::Bool(true),
    };

    let converted = build_rmcp_tool(tool);
    assert!(converted.input_schema.is_empty());
}

#[test]
fn test_bridge_list_tools_creates_correct_mcp_tools() {
    let tool = ToolDefinition {
        name: "test_tool".to_string(),
        description: Some("A test tool".to_string()),
        input_schema: object(vec![
            ("type", text("object")),
            ("properties", object(vec![("arg", object(vec![("type", text("string"))]))])),
        ]),
    };

    let converted = build_rmcp_tool(tool);
    assert_eq!(converted.name.as_str(), "test_tool");
    assert_eq!(
        converted.description.as_ref().map(|d| d.as_str()),
        Some("A test tool")
    );
}

#[test]
fn test_bridge_handles_tool_with_complex_schema() {
    let tool = ToolDefinition {
        name: "complex_tool".to_string(),
        description: Some("Complex tool with nested schema".to_string()),
        input_schema: object(vec![
            ("type", text("object")),
            (
                "properties",
                object(vec![(
                    "config",
                    object(vec![
                        ("type", text("object")),
                        ("properties", object(vec![("nested", object(vec![("type", text("string"))]))])),
                    ]),
                )]),
            ),
        ]),
    };

    let converted = build_rmcp_tool(tool);
    assert_eq!(converted.name.as_str(), "complex_tool");
    assert!(converted.input_schema.contains_key("properties"));
}

#[test]
fn test_bridge_handles_tool_with_null_schema() {
    let tool = ToolDefinition {
        name: "null_tool".to_string(),
        description: Some("Tool with null schema".to_string()),
        input_schema: Value::Null,
    };

    let converted = build_rmcp_tool(tool);
    assert!(converted.input_schema.is_empty());
}

#[test]
fn test_bridge_handles_tool_with_array_schema() {
    let tool = ToolDefinition {
        name: "array_tool".to_string(),
        description: Some("Tool with array schema".to_string()),
        input_schema: Value::Array(vec![object(vec![("type", text("string"))])]),
    };

    let converted = build_rmcp_tool(tool);
    assert!(converted.input_schema.is_empty());
}

#[test]
fn test_build_rmcp_tool_removes_non_object_schema_and_logs_warn() {
    let tool = ToolDefinition {
        name: "string_tool".to_string(),
        description: Some("Tool with string schema".to_string()),
        input_schema: text("just a string"),
    };

    let converted = build_rmcp_tool(tool);
    assert!(converted.input_schema.is_empty());
    assert_eq!(converted.name.as_str(), "string_tool");
}

#[test]
fn an_object_schema_is_carried_over_whole() {
    let schema = object(vec![
        ("type", text("object")),
        ("required", Value::Array(vec![text("a")])),
    ]);
    let expected = match &schema {
        Value::Object(map) => map.clone(),
        _ => unreachable!(),
    };
    let converted = build_rmcp_tool(ToolDefinition {
        name: "t".to_string(),
        description: None,
        input_schema: schema,
    });
    assert_eq!(converted.input_schema, expected);
    assert_eq!(converted.description, None);
}

#[test]
fn tools_are_converted_in_order() {
    let tools = vec![
        ToolDefinition { name: "a".to_string(), description: None, input_schema: Value::Null },
        ToolDefinition {
            name: "b".to_string(),
            description: Some("second".to_string()),
            input_schema: object(vec![("type", text("object"))]),
        },
    ];
    let converted = build_rmcp_tools(tools);
    assert_eq!(converted.len(), 2);
    assert_eq!(converted[0].name, "a");
    assert!(converted[0].input_schema.is_empty());
    assert_eq!(converted[1].name, "b");
    assert_eq!(converted[1].description, Some("second".to_string()));
    assert_eq!(converted[1].input_schema.len(), 1);
    assert!(build_rmcp_tools(vec![]).is_empty());
}

#[test]
fn a_wire_call_without_arguments_gets_an_empty_object() {
    let request = bridge_call_request("echo", None);
    assert_eq!(request.name, "echo");
    assert_eq!(request.arguments, Value::Object(serde_json::Map::new()));

    let mut arguments = serde_json::Map::new();
    arguments.insert("text".to_string(), text("hi"));
    let request = bridge_call_request("echo", Some(arguments.clone()));
    assert_eq!(request.arguments, Value::Object(arguments));
}

#[test]
fn text_and_image_go_to_the_wire_as_they_are() {
    match to_bridge_content(ToolContent::Text { text: "hello".to_string() }) {
        BridgeContent::Text { text } => assert_eq!(text, "hello"),
        other => panic!("expected text, got {:?}", other),
    }
    match to_bridge_content(ToolContent::Image {
        data: "AAAA".to_string(),
        mime_type: "image/png".to_string(),
    }) {
        BridgeContent::Image { data, mime_type } => {
            assert_eq!(data, "AAAA");
            assert_eq!(mime_type, "image/png");
        }
        other => panic!("expected an image, got {:?}", other),
    }
}

#[test]
fn a_resource_goes_to_the_wire_as_a_text_that_describes_it() {
    match to_bridge_content(ToolContent::Resource {
        uri: "file:///a.txt".to_string(),
        mime_type: Some("text/plain".to_string()),
    }) {
        BridgeContent::Text { text } => assert_eq!(text, "Resource: file:///a.txt (text/plain)"),
        other => panic!("expected text, got {:?}", other),
    }
    match to_bridge_content(ToolContent::Resource { uri: "mem://x".to_string(), mime_type: None }) {
        BridgeContent::Text { text } => assert_eq!(text, "Resource: mem://x (unknown)"),
        other => panic!("expected text, got {:?}", other),
    }
}

#[test]
fn a_result_goes_to_the_wire_item_by_item() {
    let wire = bridge_call_result(ToolCallResponse {
        content: vec![
            ToolContent::Text { text: "one".to_string() },
            ToolContent::Resource { uri: "u".to_string(), mime_type: None },
        ],
        is_error: Some(false),
    });
    assert_eq!(wire.is_error, Some(false));
    assert_eq!(wire.content.len(), 2);
    assert!(matches!(&wire.content[0], BridgeContent::Text { text } if text == "one"));
    assert!(matches!(&wire.content[1], BridgeContent::Text { text } if text == "Resource: u (unknown)"));
    let empty = bridge_call_result(ToolCallResponse { content: vec![], is_error: None });
    assert!(empty.content.is_empty());
    assert_eq!(empty.is_error, None);
}

#[test]
fn the_bridge_says_which_server_it_stands_for() {
    let bridge = StdioBridge::new("time".to_string());
    assert_eq!(bridge.get_info(), "Proxy to time MCP server");
}

#[test]
fn a_copied_tool_definition_is_the_same_tool() {
    let tool = ToolDefinition {
        name: "t".to_string(),
        description: Some("d".to_string()),
        input_schema: object(vec![("type", text("object"))]),
    };
    let copy = tool.clone();
    assert_eq!(copy.name, tool.name);
    assert_eq!(copy.description, tool.description);
    assert_eq!(copy.input_schema, tool.input_schema);
}
