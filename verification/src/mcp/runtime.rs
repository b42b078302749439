//! The session worker: one owner per live session, fed through a queue.
//!
//! The worker and its queue run in the program around the core. What is
//! decided here: whether a request may be sent at all, what the worker
//! does with each message, which state the worker ends in, and what a
//! caller gets when the answer does or does not come.

use vstd::prelude::*;
use crate::error::{named_detail, service_error_detail, cancelled_detail, ErrorKind, ProxyError};
use crate::mcp::json::{json_object, value_as_object};
use crate::mcp::types::{
    content_views, opt_text, ToolCallRequest, ToolCallResponse, ToolContent, ToolContentView,
    ToolDefinition,
};
use crate::text::join2;

verus! {

/// How many requests may wait in a worker's queue.
pub const REQUEST_BUFFER: usize = 32;

/// The state of a session worker.
#[derive(Debug)]
pub enum RuntimeState {
    Running,
    Stopped,
    Failed(String),
}

/// The state of a session worker, with the reason of a failure as a
/// sequence of characters.
pub enum RuntimeStateView {
    Running,
    Stopped,
    Failed(Seq<char>),
}

impl View for RuntimeState {
    type V = RuntimeStateView;

    open spec fn view(&self) -> RuntimeStateView {
        match self {
            RuntimeState::Running => RuntimeStateView::Running,
            RuntimeState::Stopped => RuntimeStateView::Stopped,
            RuntimeState::Failed(reason) => RuntimeStateView::Failed(reason@),
        }
    }
}

impl Clone for RuntimeState {
    fn clone(&self) -> (copy: RuntimeState)
        ensures
            copy@ == self@,
    {
        match self {
            RuntimeState::Running => RuntimeState::Running,
            RuntimeState::Stopped => RuntimeState::Stopped,
            RuntimeState::Failed(reason) => RuntimeState::Failed(reason.clone()),
        }
    }
}

/// A message to the worker.
#[derive(Debug)]
pub enum ServiceRequest {
    ListTools,
    CallTool { request: ToolCallRequest },
    Stop,
}

/// What the worker does with what it took from its queue.
#[derive(Debug)]
pub enum WorkerStep {
    /// List the backend's tools, answer, and go on.
    ListTools,
    /// Call the tool, answer, and go on.
    CallTool(ToolCallRequest),
    /// Close the session, settle the state, answer if `answer`, and end.
    Close { answer: bool },
}

/// The worker's decision on what it took from its queue: a request is
/// served; a stop, or a queue that every sender has left, ends the
/// worker, and only a stop is answered.
pub fn worker_step(message: Option<ServiceRequest>) -> (step: WorkerStep)
    ensures
        match message {
            Some(ServiceRequest::ListTools) => step is ListTools,
            Some(ServiceRequest::CallTool { request }) => step == WorkerStep::CallTool(request),
            Some(ServiceRequest::Stop) => step == (WorkerStep::Close { answer: true }),
            None => step == (WorkerStep::Close { answer: false }),
        },
{
    match message {
        Some(ServiceRequest::ListTools) => WorkerStep::ListTools,
        Some(ServiceRequest::CallTool { request }) => WorkerStep::CallTool(request),
        Some(ServiceRequest::Stop) => WorkerStep::Close { answer: true },
        None => WorkerStep::Close { answer: false },
    }
}

/// How closing the session ended, as the worker reports it.
pub fn close_result(closed: Result<(), String>) -> (r: Result<(), ProxyError>)
    ensures
        match closed {
            Ok(()) => r is Ok,
            Err(cause) => r matches Err(e) && e.is_of(
                ErrorKind::McpProtocol,
                "Failed to stop MCP client: "@ + cause@,
            ),
        },
{
    match closed {
        Ok(()) => Ok(()),
        Err(cause) => Err(ProxyError::mcp_client_stop_failed(cause.as_str())),
    }
}

/// The state a worker ends in: `Stopped` after a clean close, `Failed`
/// with the error's message after any other.
pub fn set_state(result: &Result<(), ProxyError>) -> (state: RuntimeState)
    ensures
        match result {
            Ok(()) => state@ is Stopped,
            Err(e) => state matches RuntimeState::Failed(reason) && e.has_message(reason@),
        },
{
    match result {
        Ok(()) => RuntimeState::Stopped,
        Err(e) => RuntimeState::Failed(e.message()),
    }
}

/// What became of a request that was handed to the worker's queue.
#[derive(Debug)]
pub enum Delivery<T> {
    /// The queue took nothing: the worker is gone.
    ChannelClosed,
    /// The worker took the request and left without answering.
    Abandoned,
    /// The worker's answer.
    Replied(Result<T, ProxyError>),
}

/// The caller's side of a session worker: the worker's state, readable
/// at any time without waiting for work in flight.
#[derive(Debug)]
pub struct McpRuntimeHandle {
    state: RuntimeState,
}

impl View for McpRuntimeHandle {
    type V = RuntimeStateView;

    closed spec fn view(&self) -> RuntimeStateView {
        self.state@
    }
}

/// Whether `e` is the error that a worker in `state` answers requests
/// with, at the server called `server_name`.
pub open spec fn refusal(state: RuntimeStateView, server_name: Seq<char>, e: ProxyError) -> bool {
    match state {
        RuntimeStateView::Running => false,
        RuntimeStateView::Stopped => e.is_of(ErrorKind::ServerNotRunning, server_name),
        RuntimeStateView::Failed(reason) => e.is_of(
            ErrorKind::ServerRuntimeFailed,
            named_detail(server_name, reason),
        ),
    }
}

impl McpRuntimeHandle {
    /// The handle of a worker that has just been given its session.
    pub fn new() -> (handle: McpRuntimeHandle)
        ensures
            handle@ is Running,
    {
        McpRuntimeHandle { state: RuntimeState::Running }
    }

    /// The worker's state.
    pub fn state(&self) -> (state: RuntimeState)
        ensures
            state@ == self@,
    {
        self.state.clone()
    }

    /// Whether requests may be sent: only to a running worker. A stopped
    /// one answers `ServerNotRunning`, a failed one `ServerRuntimeFailed`
    /// with the reason it failed for, every time.
    pub fn ensure_running(&self, server_name: &str) -> (r: Result<(), ProxyError>)
        ensures
            match r {
                Ok(()) => self@ is Running,
                Err(e) => refusal(self@, server_name@, e),
            },
    {
        match &self.state {
            RuntimeState::Running => Ok(()),
            RuntimeState::Stopped => Err(ProxyError::server_not_running(server_name)),
            RuntimeState::Failed(details) => Err(
                ProxyError::server_runtime_failed(server_name, details.as_str()),
            ),
        }
    }

    /// Marks the worker as failed for `details`, and gives the error that
    /// says so.
    pub fn runtime_failed(&mut self, server_name: &str, details: &str) -> (e: ProxyError)
        ensures
            final(self)@ == RuntimeStateView::Failed(details@),
            e.is_of(ErrorKind::ServerRuntimeFailed, named_detail(server_name@, details@)),
    {
        self.state = RuntimeState::Failed(details.to_owned());
        ProxyError::server_runtime_failed(server_name, details)
    }

    /// The message that asks the worker for the backend's tools; the
    /// worker's refusal where it is not running, and then nothing is sent.
    pub fn list_tools(&self, server_name: &str) -> (r: Result<ServiceRequest, ProxyError>)
        ensures
            match r {
                Ok(message) => self@ is Running && message is ListTools,
                Err(e) => refusal(self@, server_name@, e),
            },
    {
        self.ensure_running(server_name)?;
        Ok(ServiceRequest::ListTools)
    }

    /// The message that asks the worker to call a tool; the worker's
    /// refusal where it is not running, and then nothing is sent.
    pub fn call_tool(&self, server_name: &str, request: ToolCallRequest) -> (r: Result<
        ServiceRequest,
        ProxyError,
    >)
        ensures
            match r {
                Ok(message) => self@ is Running && message == (ServiceRequest::CallTool {
                    request: request,
                }),
                Err(e) => refusal(self@, server_name@, e),
            },
    {
        self.ensure_running(server_name)?;
        Ok(ServiceRequest::CallTool { request })
    }

    /// The message that asks the worker to stop; the worker's refusal
    /// where it is not running, and then nothing is sent.
    pub fn stop(&self, server_name: &str) -> (r: Result<ServiceRequest, ProxyError>)
        ensures
            match r {
                Ok(message) => self@ is Running && message is Stop,
                Err(e) => refusal(self@, server_name@, e),
            },
    {
        self.ensure_running(server_name)?;
        Ok(ServiceRequest::Stop)
    }

    /// What the caller of `action` gets. An answer comes back as it is,
    /// the state untouched. A request that the queue did not take marks
    /// the worker as failed; one that was left unanswered counts as
    /// cancelled.
    pub fn settle<T>(&mut self, server_name: &str, action: &str, delivery: Delivery<T>) -> (r:
        Result<T, ProxyError>)
        ensures
            match delivery {
                Delivery::Replied(answer) => r == answer && final(self)@ == old(self)@,
                Delivery::ChannelClosed => {
                    &&& final(self)@ == RuntimeStateView::Failed("worker channel closed"@)
                    &&& r matches Err(e) && e.is_of(
                        ErrorKind::ServerRuntimeFailed,
                        named_detail(server_name@, "worker channel closed"@),
                    )
                },
                Delivery::Abandoned => {
                    &&& final(self)@ == old(self)@
                    &&& r matches Err(e) && e.is_of(
                        ErrorKind::McpProtocol,
                        cancelled_detail(action@, server_name@),
                    )
                },
            },
    {
        match delivery {
            Delivery::Replied(answer) => answer,
            Delivery::ChannelClosed => Err(
                self.runtime_failed(server_name, "worker channel closed"),
            ),
            Delivery::Abandoned => Err(ProxyError::mcp_cancelled(action, server_name)),
        }
    }

    /// The worker's last act: it has closed the session, and its state
    /// becomes the one that [`set_state`] gives for how that ended.
    pub fn closed(&mut self, result: &Result<(), ProxyError>)
        ensures
            match result {
                Ok(()) => final(self)@ is Stopped,
                Err(e) => final(self)@ matches RuntimeStateView::Failed(reason) && e.has_message(
                    reason,
                ),
            },
    {
        self.state = set_state(result);
    }

    /// After a stop was answered, the worker is joined. A worker that
    /// panicked marks the handle as failed and surfaces as
    /// `ServerRuntimeFailed`.
    pub fn joined(&mut self, server_name: &str, panic: Option<String>) -> (r: Result<
        (),
        ProxyError,
    >)
        ensures
            match panic {
                None => r is Ok && final(self)@ == old(self)@,
                Some(cause) => {
                    &&& final(self)@ == RuntimeStateView::Failed("worker panicked: "@ + cause@)
                    &&& r matches Err(e) && e.is_of(
                        ErrorKind::ServerRuntimeFailed,
                        named_detail(server_name@, "worker panicked: "@ + cause@),
                    )
                },
            },
    {
        match panic {
            None => Ok(()),
            Some(cause) => {
                let details = join2("worker panicked: ", cause.as_str());
                Err(self.runtime_failed(server_name, details.as_str()))
            },
        }
    }
}

/// One page of a backend's tool listing.
#[derive(Debug)]
pub struct ToolPage {
    pub tools: Vec<ToolDefinition>,
    pub next_cursor: Option<String>,
}

/// A tool listing in progress: the tools gathered so far, and the cursor
/// that the last page gave for the next.
#[derive(Debug)]
pub struct ToolListing {
    tools: Vec<ToolDefinition>,
    cursor: Option<String>,
}

/// A tool listing in progress, with the cursor as a sequence of characters.
pub struct ToolListingView {
    pub tools: Seq<ToolDefinition>,
    pub cursor: Option<Seq<char>>,
}

impl View for ToolListing {
    type V = ToolListingView;

    closed spec fn view(&self) -> ToolListingView {
        ToolListingView { tools: self.tools@, cursor: opt_text(self.cursor) }
    }
}

impl ToolListing {
    /// A listing that has gathered nothing and asks for the first page.
    pub fn new() -> (listing: ToolListing)
        ensures
            listing@.tools.len() == 0,
            listing@.cursor is None,
    {
        ToolListing { tools: Vec::new(), cursor: None }
    }

    /// The cursor to ask the backend for the next page with.
    pub fn cursor(&self) -> (cursor: Option<String>)
        ensures
            opt_text(cursor) == self@.cursor,
    {
        match &self.cursor {
            Some(c) => Some(c.clone()),
            None => None,
        }
    }

    /// Takes in a page: its tools follow those gathered so far, its
    /// cursor is the next to ask with. Says whether another page follows.
    pub fn absorb(&mut self, page: ToolPage) -> (more: bool)
        ensures
            final(self)@.tools == old(self)@.tools + page.tools@,
            final(self)@.cursor == opt_text(page.next_cursor),
            more == page.next_cursor is Some,
    {
        let mut tools = page.tools;
        self.tools.append(&mut tools);
        self.cursor = page.next_cursor;
        self.cursor.is_some()
    }

    /// The tools gathered.
    pub fn into_tools(self) -> (tools: Vec<ToolDefinition>)
        ensures
            tools@ == self@.tools,
    {
        self.tools
    }
}

/// What walking `pages` from position `from` on gives, with `gathered`
/// in hand: the walk takes page after page while each names a next one,
/// and ends with the tools of all pages taken, in page order; a page that
/// failed ends it with that failure.
pub open spec fn walk(
    pages: Seq<Result<ToolPage, String>>,
    from: int,
    gathered: Seq<ToolDefinition>,
) -> Result<Seq<ToolDefinition>, Seq<char>>
    decreases pages.len() - from,
{
    if from < 0 || from >= pages.len() {
        Ok(gathered)
    } else {
        match pages[from] {
            Err(cause) => Err(cause@),
            Ok(page) => if page.next_cursor is Some {
                walk(pages, from + 1, gathered + page.tools@)
            } else {
                Ok(gathered + page.tools@)
            },
        }
    }
}

/// The full tool list of a backend, from the pages it answers with in
/// turn: the tools of every page up to the first that names no next one,
/// in page order. A page that failed fails the listing.
pub fn list_tools_from_service(pages: Vec<Result<ToolPage, String>>) -> (r: Result<
    Vec<ToolDefinition>,
    ProxyError,
>)
    ensures
        match walk(pages@, 0, Seq::empty()) {
            Ok(tools) => r matches Ok(listed) && listed@ == tools,
            Err(cause) => r matches Err(e) && e.is_of(
                ErrorKind::McpProtocol,
                service_error_detail("list tools"@, cause),
            ),
        },
{
    let ghost all = pages@;
    let mut listing = ToolListing::new();
    let ghost mut at: int = 0;
    proof {
        assert(listing@.tools =~= Seq::empty());
    }
    for page in iter: pages.into_iter()
        invariant
            iter.seq() == all,
            at == iter.index(),
            walk(all, 0, Seq::empty()) == walk(all, at, listing@.tools),
    {
        match page {
            Ok(page) => {
                let more = listing.absorb(page);
                if !more {
                    return Ok(listing.into_tools());
                }
            },
            Err(cause) => {
                return Err(ProxyError::mcp_service_error("list tools", cause.as_str()));
            },
        }
        proof {
            at = at + 1;
        }
    }
    Ok(listing.into_tools())
}

/// One item of a backend's tool result, as the backend tells its kinds apart.
#[derive(Debug)]
pub enum BackendContent {
    Text { text: String },
    Image { data: String, mime_type: String },
    TextResource { uri: String, mime_type: Option<String> },
    BlobResource { uri: String, mime_type: Option<String> },
    /// A kind that the gateway does not carry.
    Other,
}

/// What a backend answered a tool call with.
#[derive(Debug)]
pub struct BackendCallResult {
    pub content: Vec<BackendContent>,
    pub is_error: Option<bool>,
}

/// A tool call as the backend takes it: the arguments are there only
/// where the request's arguments are an object.
#[derive(Debug)]
pub struct CallParams {
    pub name: String,
    pub arguments: Option<serde_json::Map<String, serde_json::Value>>,
}

/// The call that `request` asks for.
pub fn call_params(request: &ToolCallRequest) -> (params: CallParams)
    ensures
        params.name@ == request.name@,
        params.arguments == json_object(request.arguments),
{
    CallParams { name: request.name.clone(), arguments: value_as_object(&request.arguments) }
}

/// The uniform form of a backend item: text and image stay what they
/// are, both kinds of resource become a resource with its address and
/// media type, and any other kind is dropped.
pub open spec fn uniform(item: BackendContent) -> Option<ToolContentView> {
    match item {
        BackendContent::Text { text } => Some(ToolContentView::Text { text: text@ }),
        BackendContent::Image { data, mime_type } => Some(
            ToolContentView::Image { data: data@, mime_type: mime_type@ },
        ),
        BackendContent::TextResource { uri, mime_type } => Some(
            ToolContentView::Resource { uri: uri@, mime_type: opt_text(mime_type) },
        ),
        BackendContent::BlobResource { uri, mime_type } => Some(
            ToolContentView::Resource { uri: uri@, mime_type: opt_text(mime_type) },
        ),
        BackendContent::Other => None,
    }
}

/// The uniform forms of `items`, in order, without those that have none.
pub open spec fn uniform_items(items: Seq<BackendContent>) -> Seq<ToolContentView>
    decreases items.len(),
{
    if items.len() == 0 {
        Seq::empty()
    } else {
        match uniform(items.last()) {
            Some(item) => uniform_items(items.drop_last()).push(item),
            None => uniform_items(items.drop_last()),
        }
    }
}

/// The uniform form of a backend item, if it has one.
pub fn to_tool_content(item: BackendContent) -> (r: Option<ToolContent>)
    ensures
        match uniform(item) {
            Some(view) => r matches Some(content) && content@ == view,
            None => r is None,
        },
{
    match item {
        BackendContent::Text { text } => Some(ToolContent::Text { text }),
        BackendContent::Image { data, mime_type } => Some(ToolContent::Image { data, mime_type }),
        BackendContent::TextResource { uri, mime_type } => Some(
            ToolContent::Resource { uri, mime_type },
        ),
        BackendContent::BlobResource { uri, mime_type } => Some(
            ToolContent::Resource { uri, mime_type },
        ),
        BackendContent::Other => None,
    }
}

/// What the caller of a tool gets for what the backend answered: the
/// items in their uniform form and in their order, with the backend's
/// error flag; or, where the call itself failed, a protocol error that
/// says why.
pub fn call_tool_on_service(outcome: Result<BackendCallResult, String>) -> (r: Result<
    ToolCallResponse,
    ProxyError,
>)
    ensures
        match outcome {
            Ok(result) => {
                &&& r matches Ok(response)
                &&& content_views(response.content@) == uniform_items(result.content@)
                &&& response.is_error == result.is_error
            },
            Err(cause) => r matches Err(e) && e.is_of(
                ErrorKind::McpProtocol,
                service_error_detail("call tool"@, cause@),
            ),
        },
{
    match outcome {
        Ok(result) => {
            let ghost all = result.content@;
            let mut content: Vec<ToolContent> = Vec::new();
            proof {
                assert(content_views(content@) =~= uniform_items(all.take(0)));
            }
            for item in iter: result.content.into_iter()
                invariant
                    iter.seq() == all,
                    content_views(content@) == uniform_items(all.take(iter.index() as int)),
            {
                let ghost done = iter.index() as int;
                let ghost before = content_views(content@);
                proof {
                    assert(all.take(done + 1).drop_last() =~= all.take(done));
                    assert(all.take(done + 1).last() == item);
                }
                match to_tool_content(item) {
                    Some(converted) => {
                        content.push(converted);
                        proof {
                            assert(content_views(content@) =~= before.push(converted@));
                        }
                    },
                    None => {},
                }
            }
            proof {
                assert(all.take(all.len() as int) =~= all);
            }
            Ok(ToolCallResponse { content, is_error: result.is_error })
        },
        Err(cause) => Err(ProxyError::mcp_service_error("call tool", cause.as_str())),
    }
}

} // verus!
