//! The client of one backend: the server's name, and, once the handshake
//! has succeeded, the handle of the worker that owns the session.

use vstd::prelude::*;
use crate::error::{ErrorKind, ProxyError};
use crate::mcp::runtime::{
    refusal, Delivery, McpRuntimeHandle, RuntimeState, RuntimeStateView, ServiceRequest,
};
use crate::mcp::types::ToolCallRequest;

verus! {

/// The client of the server called `server_name`.
#[derive(Debug)]
pub struct McpClient {
    server_name: String,
    runtime: Option<McpRuntimeHandle>,
}

/// A client: the server's name, and the state of its worker where it has one.
pub struct McpClientView {
    pub server_name: Seq<char>,
    pub runtime: Option<RuntimeStateView>,
}

impl View for McpClient {
    type V = McpClientView;

    closed spec fn view(&self) -> McpClientView {
        McpClientView {
            server_name: self.server_name@,
            runtime: match self.runtime {
                Some(handle) => Some(handle@),
                None => None,
            },
        }
    }
}

impl McpClientView {
    /// Whether `e` is what this client answers requests with instead of
    /// sending them: `ServerNotRunning` while no session was ever set up,
    /// and else the refusal of its worker.
    pub open spec fn refuses_with(self, e: ProxyError) -> bool {
        match self.runtime {
            None => e.is_of(ErrorKind::ServerNotRunning, self.server_name),
            Some(state) => refusal(state, self.server_name, e),
        }
    }

    /// Whether requests are sent on: the client has a worker, and it runs.
    pub open spec fn serves(self) -> bool {
        self.runtime == Some(RuntimeStateView::Running)
    }
}

impl McpClient {
    /// A client that has no session yet.
    pub fn new(server_name: String) -> (client: McpClient)
        ensures
            client@.server_name == server_name@,
            client@.runtime is None,
    {
        McpClient { server_name, runtime: None }
    }

    /// The name of the server.
    pub fn server_name(&self) -> (name: &str)
        ensures
            name@ == self@.server_name,
    {
        self.server_name.as_str()
    }

    /// The handshake has succeeded and a worker owns the session: from
    /// now on the client has a running worker.
    pub fn store_service(&mut self)
        ensures
            final(self)@.server_name == old(self)@.server_name,
            final(self)@.serves(),
    {
        self.runtime = Some(McpRuntimeHandle::new());
    }

    /// The state of the worker, where the client has one.
    pub fn state(&self) -> (state: Option<RuntimeState>)
        ensures
            match state {
                Some(s) => self@.runtime == Some(s@),
                None => self@.runtime is None,
            },
    {
        match &self.runtime {
            Some(handle) => Some(handle.state()),
            None => None,
        }
    }

    /// The message that asks for the backend's tools; where the client
    /// does not serve, its refusal, and nothing is sent.
    pub fn list_tools(&self) -> (r: Result<ServiceRequest, ProxyError>)
        ensures
            match r {
                Ok(message) => self@.serves() && message is ListTools,
                Err(e) => !self@.serves() && self@.refuses_with(e),
            },
    {
        match &self.runtime {
            Some(handle) => handle.list_tools(self.server_name.as_str()),
            None => Err(ProxyError::server_not_running(self.server_name.as_str())),
        }
    }

    /// The message that asks for a tool to be called; where the client
    /// does not serve, its refusal, and nothing is sent.
    pub fn call_tool(&self, request: ToolCallRequest) -> (r: Result<ServiceRequest, ProxyError>)
        ensures
            match r {
                Ok(message) => self@.serves() && message == (ServiceRequest::CallTool {
                    request: request,
                }),
                Err(e) => !self@.serves() && self@.refuses_with(e),
            },
    {
        match &self.runtime {
            Some(handle) => handle.call_tool(self.server_name.as_str(), request),
            None => Err(ProxyError::server_not_running(self.server_name.as_str())),
        }
    }

    /// The message that asks the worker to stop; where the client does
    /// not serve, its refusal, and nothing is sent.
    pub fn stop(&self) -> (r: Result<ServiceRequest, ProxyError>)
        ensures
            match r {
                Ok(message) => self@.serves() && message is Stop,
                Err(e) => !self@.serves() && self@.refuses_with(e),
            },
    {
        match &self.runtime {
            Some(handle) => handle.stop(self.server_name.as_str()),
            None => Err(ProxyError::server_not_running(self.server_name.as_str())),
        }
    }

    /// The worker's handle, to settle answers and the worker's end on.
    pub fn runtime(&mut self) -> (handle: Option<&mut McpRuntimeHandle>)
        ensures
            match handle {
                Some(h) => old(self)@.runtime == Some(h@) && final(self)@ == (McpClientView {
                    runtime: Some(final(h)@),
                    ..old(self)@
                }),
                None => old(self)@.runtime is None && final(self)@ == old(self)@,
            },
    {
        self.runtime.as_mut()
    }
}

} // verus!
