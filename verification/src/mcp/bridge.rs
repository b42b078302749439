//! The bridge: the uniform wire shape of tool discovery and invocation,
//! in front of a local endpoint.

use vstd::prelude::*;
use vstd::string::StringExecFns;
use crate::mcp::json::{empty_object, json_members, json_object, no_members, object_value, value_as_object};
use crate::mcp::types::{
    opt_text, ToolCallRequest, ToolCallResponse, ToolContent, ToolDefinition,
};
use crate::text::join3;

verus! {

/// A tool as the wire protocol declares it: the schema is an object.
#[derive(Debug)]
pub struct BridgeTool {
    pub name: String,
    pub description: Option<String>,
    pub input_schema: serde_json::Map<String, serde_json::Value>,
}

/// One item of a tool result as the wire protocol carries it.
#[derive(Debug)]
pub enum BridgeContent {
    Text { text: String },
    Image { data: String, mime_type: String },
}

/// One item as the wire protocol carries it, with strings as sequences
/// of characters.
pub enum BridgeContentView {
    Text { text: Seq<char> },
    Image { data: Seq<char>, mime_type: Seq<char> },
}

impl View for BridgeContent {
    type V = BridgeContentView;

    open spec fn view(&self) -> BridgeContentView {
        match self {
            BridgeContent::Text { text } => BridgeContentView::Text { text: text@ },
            BridgeContent::Image { data, mime_type } => BridgeContentView::Image {
                data: data@,
                mime_type: mime_type@,
            },
        }
    }
}

/// A tool result as the wire protocol carries it.
#[derive(Debug)]
pub struct BridgeCallResult {
    pub content: Vec<BridgeContent>,
    pub is_error: Option<bool>,
}

/// The bridge in front of the local endpoint called `server_name`.
#[derive(Debug)]
pub struct StdioBridge {
    server_name: String,
}

impl StdioBridge {
    pub fn new(server_name: String) -> (bridge: StdioBridge)
        ensures
            bridge.name() == server_name@,
    {
        StdioBridge { server_name }
    }

    /// The name of the endpoint behind the bridge.
    pub closed spec fn name(&self) -> Seq<char> {
        self.server_name@
    }

    /// What the bridge tells a peer about itself.
    pub fn get_info(&self) -> (instructions: String)
        ensures
            instructions@ == "Proxy to "@ + self.name() + " MCP server"@,
    {
        join3("Proxy to ", self.server_name.as_str(), " MCP server")
    }
}

/// The wire form of a tool: name and description as they are; the schema
/// as it is where it is an object, and an object without members where
/// it is anything else.
pub fn build_rmcp_tool(tool: ToolDefinition) -> (wire: BridgeTool)
    ensures
        wire.name@ == tool.name@,
        opt_text(wire.description) == opt_text(tool.description),
        match json_object(tool.input_schema) {
            Some(object) => wire.input_schema == object,
            None => json_members(wire.input_schema) == no_members(),
        },
{
    let input_schema = match value_as_object(&tool.input_schema) {
        Some(schema) => schema,
        None => empty_object(),
    };
    BridgeTool { name: tool.name, description: tool.description, input_schema }
}

/// The wire forms of `tools`, in order.
pub fn build_rmcp_tools(tools: Vec<ToolDefinition>) -> (wire: Vec<BridgeTool>)
    ensures
        wire@.len() == tools@.len(),
        forall|i: int|
            0 <= i < tools@.len() ==> {
                &&& (#[trigger] wire@[i]).name@ == tools@[i].name@
                &&& opt_text(wire@[i].description) == opt_text(tools@[i].description)
                &&& match json_object(tools@[i].input_schema) {
                    Some(object) => wire@[i].input_schema == object,
                    None => json_members(wire@[i].input_schema) == no_members(),
                }
            },
{
    let ghost all = tools@;
    let mut wire: Vec<BridgeTool> = Vec::new();
    for tool in iter: tools.into_iter()
        invariant
            iter.seq() == all,
            wire@.len() == iter.index(),
            forall|i: int|
                0 <= i < wire@.len() ==> {
                    &&& (#[trigger] wire@[i]).name@ == all[i].name@
                    &&& opt_text(wire@[i].description) == opt_text(all[i].description)
                    &&& match json_object(all[i].input_schema) {
                        Some(object) => wire@[i].input_schema == object,
                        None => json_members(wire@[i].input_schema) == no_members(),
                    }
                },
    {
        wire.push(build_rmcp_tool(tool));
    }
    wire
}

/// The request that a wire call asks for: the arguments given, as an
/// object; an object without members where none are given.
pub fn bridge_call_request(name: &str, arguments: Option<
    serde_json::Map<String, serde_json::Value>,
>) -> (request: ToolCallRequest)
    ensures
        request.name@ == name@,
        match arguments {
            Some(object) => json_object(request.arguments) == Some(object),
            None => json_object(request.arguments) matches Some(object) && json_members(object)
                == no_members(),
        },
{
    let object = match arguments {
        Some(object) => object,
        None => empty_object(),
    };
    ToolCallRequest { name: String::from_str(name), arguments: object_value(object) }
}

/// The text that stands for a resource on the wire: its address, and its
/// media type where that is known.
pub open spec fn resource_text(uri: Seq<char>, mime_type: Option<Seq<char>>) -> Seq<char> {
    "Resource: "@ + uri + " ("@ + match mime_type {
        Some(m) => m,
        None => "unknown"@,
    } + ")"@
}

/// The wire form of a content item: text and image as they are, a
/// resource as a text that describes it.
pub open spec fn wire_form(item: ToolContent) -> BridgeContentView {
    match item {
        ToolContent::Text { text } => BridgeContentView::Text { text: text@ },
        ToolContent::Image { data, mime_type } => BridgeContentView::Image {
            data: data@,
            mime_type: mime_type@,
        },
        ToolContent::Resource { uri, mime_type } => BridgeContentView::Text {
            text: resource_text(uri@, opt_text(mime_type)),
        },
    }
}

/// The wire form of a content item.
pub fn to_bridge_content(item: ToolContent) -> (wire: BridgeContent)
    ensures
        wire@ == wire_form(item),
{
    match item {
        ToolContent::Text { text } => BridgeContent::Text { text },
        ToolContent::Image { data, mime_type } => BridgeContent::Image { data, mime_type },
        ToolContent::Resource { uri, mime_type } => {
            let mut text = join3("Resource: ", uri.as_str(), " (");
            match &mime_type {
                Some(m) => text.append(m.as_str()),
                None => text.append("unknown"),
            }
            text.append(")");
            BridgeContent::Text { text }
        },
    }
}

/// The wire form of a tool result: every item in its wire form, in
/// order, and the error flag as it is.
pub fn bridge_call_result(response: ToolCallResponse) -> (wire: BridgeCallResult)
    ensures
        wire.is_error == response.is_error,
        wire.content@.len() == response.content@.len(),
        forall|i: int|
            0 <= i < response.content@.len() ==> (#[trigger] wire.content@[i])@ == wire_form(
                response.content@[i],
            ),
{
    let ghost all = response.content@;
    let mut content: Vec<BridgeContent> = Vec::new();
    for item in iter: response.content.into_iter()
        invariant
            iter.seq() == all,
            content@.len() == iter.index(),
            forall|i: int| 0 <= i < content@.len() ==> (#[trigger] content@[i])@ == wire_form(all[i]),
    {
        content.push(to_bridge_content(item));
    }
    BridgeCallResult { content, is_error: response.is_error }
}

} // verus!
