//! The data that crosses the gateway: tool definitions, tool calls and
//! their results.

use vstd::prelude::*;

verus! {

/// A tool as a backend declares it. The input schema is a structured
/// document that the gateway carries and never looks into, except to ask
/// whether it is an object.
#[derive(Debug)]
pub struct ToolDefinition {
    pub name: String,
    pub description: Option<String>,
    pub input_schema: serde_json::Value,
}

/// A request to invoke the tool called `name` with `arguments`.
#[derive(Debug)]
pub struct ToolCallRequest {
    pub name: String,
    pub arguments: serde_json::Value,
}

/// What a tool call produced: content items in the backend's order, and
/// the backend's error flag if it set one.
#[derive(Debug)]
pub struct ToolCallResponse {
    pub content: Vec<ToolContent>,
    pub is_error: Option<bool>,
}

/// One item of a tool's result, in the gateway's uniform three-way form.
#[derive(Debug)]
pub enum ToolContent {
    Text { text: String },
    Image { data: String, mime_type: String },
    Resource { uri: String, mime_type: Option<String> },
}

/// The characters of an optional string.
pub open spec fn opt_text(s: Option<String>) -> Option<Seq<char>> {
    match s {
        Some(t) => Some(t@),
        None => None,
    }
}

/// What a content item says, with strings as sequences of characters.
pub enum ToolContentView {
    Text { text: Seq<char> },
    Image { data: Seq<char>, mime_type: Seq<char> },
    Resource { uri: Seq<char>, mime_type: Option<Seq<char>> },
}

impl View for ToolContent {
    type V = ToolContentView;

    open spec fn view(&self) -> ToolContentView {
        match self {
            ToolContent::Text { text } => ToolContentView::Text { text: text@ },
            ToolContent::Image { data, mime_type } => ToolContentView::Image {
                data: data@,
                mime_type: mime_type@,
            },
            ToolContent::Resource { uri, mime_type } => ToolContentView::Resource {
                uri: uri@,
                mime_type: opt_text(*mime_type),
            },
        }
    }
}

/// The views of the items of `items`, in order.
pub open spec fn content_views(items: Seq<ToolContent>) -> Seq<ToolContentView> {
    Seq::new(items.len(), |i: int| items[i]@)
}

fn clone_opt_text(text: &Option<String>) -> (copy: Option<String>)
    ensures
        opt_text(copy) == opt_text(*text),
{
    match text {
        Some(t) => Some(t.clone()),
        None => None,
    }
}

impl Clone for ToolDefinition {
    fn clone(&self) -> (copy: ToolDefinition)
        ensures
            copy.name@ == self.name@,
            opt_text(copy.description) == opt_text(self.description),
            copy.input_schema == self.input_schema,
    {
        ToolDefinition {
            name: self.name.clone(),
            description: clone_opt_text(&self.description),
            input_schema: self.input_schema.clone(),
        }
    }
}

impl Clone for ToolCallRequest {
    fn clone(&self) -> (copy: ToolCallRequest)
        ensures
            copy.name@ == self.name@,
            copy.arguments == self.arguments,
    {
        ToolCallRequest { name: self.name.clone(), arguments: self.arguments.clone() }
    }
}

impl Clone for ToolContent {
    fn clone(&self) -> (copy: ToolContent)
        ensures
            copy@ == self@,
    {
        match self {
            ToolContent::Text { text } => ToolContent::Text { text: text.clone() },
            ToolContent::Image { data, mime_type } => ToolContent::Image {
                data: data.clone(),
                mime_type: mime_type.clone(),
            },
            ToolContent::Resource { uri, mime_type } => ToolContent::Resource {
                uri: uri.clone(),
                mime_type: clone_opt_text(mime_type),
            },
        }
    }
}

impl Clone for ToolCallResponse {
    fn clone(&self) -> (copy: ToolCallResponse)
        ensures
            content_views(copy.content@) == content_views(self.content@),
            copy.is_error == self.is_error,
    {
        let mut content: Vec<ToolContent> = Vec::new();
        let mut i: usize = 0;
        while i < self.content.len()
            invariant
                i <= self.content.len(),
                content.len() == i,
                forall|k: int| 0 <= k < i ==> content@[k]@ == self.content@[k]@,
            decreases self.content.len() - i,
        {
            content.push(self.content[i].clone());
            i += 1;
        }
        assert(content_views(content@) =~= content_views(self.content@));
        ToolCallResponse { content, is_error: self.is_error }
    }
}

} // verus!
