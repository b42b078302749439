//! The gateway's error type: one variant per failure class, each carrying
//! the text that explains the failure.

use vstd::prelude::*;
use vstd::string::StringExecFns;
use crate::text::{begins_with, join2, join3, starts_with};
use vstd::string::to_string_from_display_ensures;

verus! {

/// `std::io::Error`: carried inside [`ProxyError::Io`] as it is.
#[verifier::external_type_specification]
#[verifier::external_body]
pub struct ExIoError(std::io::Error);

/// `serde_json::Error`: carried inside [`ProxyError::Json`] as it is.
#[verifier::external_type_specification]
#[verifier::external_body]
pub struct ExJsonError(serde_json::Error);

/// The failure classes of the gateway, one per variant of [`ProxyError`].
#[derive(Clone, Copy, Debug, PartialEq, Eq, Structural)]
pub enum ErrorKind {
    Config,
    ServerNotFound,
    ServerAlreadyExists,
    ServerNotRunning,
    ServerAlreadyRunning,
    ServerRuntimeFailed,
    ServerStartFailed,
    McpProtocol,
    Io,
    Json,
    InvalidRequest,
    ToolNotAllowed,
    Internal,
}

/// What can go wrong in the gateway. Every variant but `Io` and `Json`
/// carries the text that tells the failure apart from others of its class.
#[derive(Debug)]
pub enum ProxyError {
    Config(String),
    ServerNotFound(String),
    ServerAlreadyExists(String),
    ServerNotRunning(String),
    ServerAlreadyRunning(String),
    ServerRuntimeFailed(String),
    ServerStartFailed(String),
    McpProtocol(String),
    Io(std::io::Error),
    Json(serde_json::Error),
    InvalidRequest(String),
    ToolNotAllowed(String),
    Internal(String),
}

/// A result whose error is a [`ProxyError`].
pub type Result<T> = std::result::Result<T, ProxyError>;

/// What `Duration::from_secs(secs)` prints under the `{:?}` format.
pub uninterp spec fn duration_debug(secs: u64) -> Seq<char>;

/// Formats a whole number of seconds the way `std::time::Duration`'s
/// `Debug` impl does. The text is whatever std produces; it depends on
/// `secs` alone.
#[verifier::external_body]
fn duration_text(secs: u64) -> (r: String)
    ensures
        r@ == duration_debug(secs),
{
    format!("{:?}", std::time::Duration::from_secs(secs))
}

/// The fixed text that opens the message of every error of class `kind`.
pub open spec fn kind_prefix(kind: ErrorKind) -> Seq<char> {
    match kind {
        ErrorKind::Config => "Configuration error: "@,
        ErrorKind::ServerNotFound => "Server not found: "@,
        ErrorKind::ServerAlreadyExists => "Server already exists: "@,
        ErrorKind::ServerNotRunning => "Server is not running: "@,
        ErrorKind::ServerAlreadyRunning => "Server is already running: "@,
        ErrorKind::ServerRuntimeFailed => "Server runtime failed: "@,
        ErrorKind::ServerStartFailed => "Failed to start server: "@,
        ErrorKind::McpProtocol => "MCP protocol error: "@,
        ErrorKind::Io => "IO error: "@,
        ErrorKind::Json => "JSON error: "@,
        ErrorKind::InvalidRequest => "Invalid request: "@,
        ErrorKind::ToolNotAllowed => "Tool not allowed: "@,
        ErrorKind::Internal => "Internal error: "@,
    }
}

/// The HTTP status that the boundary answers with for an error of class `kind`.
pub open spec fn kind_status(kind: ErrorKind) -> u16 {
    match kind {
        ErrorKind::Config => 500,
        ErrorKind::ServerNotFound => 404,
        ErrorKind::ServerAlreadyExists => 409,
        ErrorKind::ServerNotRunning => 503,
        ErrorKind::ServerAlreadyRunning => 409,
        ErrorKind::ServerRuntimeFailed => 503,
        ErrorKind::ServerStartFailed => 500,
        ErrorKind::McpProtocol => 502,
        ErrorKind::Io => 500,
        ErrorKind::Json => 400,
        ErrorKind::InvalidRequest => 400,
        ErrorKind::ToolNotAllowed => 403,
        ErrorKind::Internal => 500,
    }
}

/// Detail of a runtime or start failure: the server's name, a colon, the cause.
pub open spec fn named_detail(server_name: Seq<char>, cause: Seq<char>) -> Seq<char> {
    server_name + ": "@ + cause
}

/// Detail of a request that ran past its deadline of `secs` seconds.
pub open spec fn timeout_detail(secs: u64) -> Seq<char> {
    "MCP request timed out after "@ + duration_debug(secs)
}

/// Detail of a handshake that ran past its deadline of `secs` seconds.
pub open spec fn handshake_timeout_detail(
    secs: u64,
    server_name: Seq<char>,
    url: Option<Seq<char>>,
) -> Seq<char> {
    let head = "MCP handshake timed out after "@ + duration_debug(secs) + " for server: "@
        + server_name;
    match url {
        Some(u) => head + " at "@ + u,
        None => head,
    }
}

/// Detail of a request whose reply was abandoned by the worker.
pub open spec fn cancelled_detail(action: Seq<char>, server_name: Seq<char>) -> Seq<char> {
    "MCP "@ + action + " request cancelled for "@ + server_name
}

/// Detail of a backend call that failed: what was attempted, then why it failed.
pub open spec fn service_error_detail(action: Seq<char>, cause: Seq<char>) -> Seq<char> {
    "Failed to "@ + action + ": "@ + cause
}

impl ErrorKind {
    /// The HTTP status code that stands for an error of this class at the
    /// boundary.
    pub fn status_code(self) -> (code: u16)
        ensures
            code == kind_status(self),
    {
        match self {
            ErrorKind::Config => 500,
            ErrorKind::ServerNotFound => 404,
            ErrorKind::ServerAlreadyExists => 409,
            ErrorKind::ServerNotRunning => 503,
            ErrorKind::ServerAlreadyRunning => 409,
            ErrorKind::ServerRuntimeFailed => 503,
            ErrorKind::ServerStartFailed => 500,
            ErrorKind::McpProtocol => 502,
            ErrorKind::Io => 500,
            ErrorKind::Json => 400,
            ErrorKind::InvalidRequest => 400,
            ErrorKind::ToolNotAllowed => 403,
            ErrorKind::Internal => 500,
        }
    }
}

impl ProxyError {
    /// The class of this error.
    pub open spec fn kind(&self) -> ErrorKind {
        match self {
            ProxyError::Config(_) => ErrorKind::Config,
            ProxyError::ServerNotFound(_) => ErrorKind::ServerNotFound,
            ProxyError::ServerAlreadyExists(_) => ErrorKind::ServerAlreadyExists,
            ProxyError::ServerNotRunning(_) => ErrorKind::ServerNotRunning,
            ProxyError::ServerAlreadyRunning(_) => ErrorKind::ServerAlreadyRunning,
            ProxyError::ServerRuntimeFailed(_) => ErrorKind::ServerRuntimeFailed,
            ProxyError::ServerStartFailed(_) => ErrorKind::ServerStartFailed,
            ProxyError::McpProtocol(_) => ErrorKind::McpProtocol,
            ProxyError::Io(_) => ErrorKind::Io,
            ProxyError::Json(_) => ErrorKind::Json,
            ProxyError::InvalidRequest(_) => ErrorKind::InvalidRequest,
            ProxyError::ToolNotAllowed(_) => ErrorKind::ToolNotAllowed,
            ProxyError::Internal(_) => ErrorKind::Internal,
        }
    }

    /// Whether the error carries its own text (every class but `Io` and
    /// `Json`, which carry the error of the layer below).
    pub open spec fn is_textual(&self) -> bool {
        !(self is Io) && !(self is Json)
    }

    /// The text carried by a textual error; empty for `Io` and `Json`.
    pub open spec fn detail(&self) -> Seq<char> {
        match self {
            ProxyError::Config(s) => s@,
            ProxyError::ServerNotFound(s) => s@,
            ProxyError::ServerAlreadyExists(s) => s@,
            ProxyError::ServerNotRunning(s) => s@,
            ProxyError::ServerAlreadyRunning(s) => s@,
            ProxyError::ServerRuntimeFailed(s) => s@,
            ProxyError::ServerStartFailed(s) => s@,
            ProxyError::McpProtocol(s) => s@,
            ProxyError::Io(_) => Seq::empty(),
            ProxyError::Json(_) => Seq::empty(),
            ProxyError::InvalidRequest(s) => s@,
            ProxyError::ToolNotAllowed(s) => s@,
            ProxyError::Internal(s) => s@,
        }
    }

    /// A textual error of class `kind` that carries exactly `detail`.
    pub open spec fn is_of(&self, kind: ErrorKind, detail: Seq<char>) -> bool {
        self.kind() == kind && self.is_textual() && self.detail() == detail
    }

    /// Whether `text` is this error's full message: the class prefix followed
    /// by the carried text, or, for `Io` and `Json`, by a rendering of the
    /// wrapped error.
    pub open spec fn has_message(&self, text: Seq<char>) -> bool {
        match self {
            ProxyError::Io(e) => exists|t: String| #[trigger]
                to_string_from_display_ensures::<std::io::Error>(e, t) && text == kind_prefix(
                    ErrorKind::Io,
                ) + t@,
            ProxyError::Json(e) => exists|t: String| #[trigger]
                to_string_from_display_ensures::<serde_json::Error>(e, t) && text == kind_prefix(
                    ErrorKind::Json,
                ) + t@,
            _ => text == kind_prefix(self.kind()) + self.detail(),
        }
    }

    /// Whether this is the error of a handshake that ran out of time: a
    /// protocol error whose text opens the way only that error's does.
    pub open spec fn timed_out_handshake(&self) -> bool {
        self.kind() == ErrorKind::McpProtocol && begins_with(
            self.detail(),
            "MCP handshake timed out after "@,
        )
    }

    /// Whether this is the error of a handshake that ran out of time.
    pub fn is_handshake_timeout(&self) -> (timed_out: bool)
        ensures
            timed_out == self.timed_out_handshake(),
    {
        match self {
            ProxyError::McpProtocol(detail) => starts_with(
                detail.as_str(),
                "MCP handshake timed out after ",
            ),
            _ => false,
        }
    }

    /// The class of this error.
    pub fn error_kind(&self) -> (k: ErrorKind)
        ensures
            k == self.kind(),
    {
        match self {
            ProxyError::Config(_) => ErrorKind::Config,
            ProxyError::ServerNotFound(_) => ErrorKind::ServerNotFound,
            ProxyError::ServerAlreadyExists(_) => ErrorKind::ServerAlreadyExists,
            ProxyError::ServerNotRunning(_) => ErrorKind::ServerNotRunning,
            ProxyError::ServerAlreadyRunning(_) => ErrorKind::ServerAlreadyRunning,
            ProxyError::ServerRuntimeFailed(_) => ErrorKind::ServerRuntimeFailed,
            ProxyError::ServerStartFailed(_) => ErrorKind::ServerStartFailed,
            ProxyError::McpProtocol(_) => ErrorKind::McpProtocol,
            ProxyError::Io(_) => ErrorKind::Io,
            ProxyError::Json(_) => ErrorKind::Json,
            ProxyError::InvalidRequest(_) => ErrorKind::InvalidRequest,
            ProxyError::ToolNotAllowed(_) => ErrorKind::ToolNotAllowed,
            ProxyError::Internal(_) => ErrorKind::Internal,
        }
    }

    /// The HTTP status code that stands for this error at the boundary.
    pub fn status_code(&self) -> (code: u16)
        ensures
            code == kind_status(self.kind()),
    {
        self.error_kind().status_code()
    }

    /// The full message: class prefix, then what the error carries.
    pub fn message(&self) -> (text: String)
        ensures
            self.has_message(text@),
    {
        match self {
            ProxyError::Config(s) => join2("Configuration error: ", s.as_str()),
            ProxyError::ServerNotFound(s) => join2("Server not found: ", s.as_str()),
            ProxyError::ServerAlreadyExists(s) => join2("Server already exists: ", s.as_str()),
            ProxyError::ServerNotRunning(s) => join2("Server is not running: ", s.as_str()),
            ProxyError::ServerAlreadyRunning(s) => join2(
                "Server is already running: ",
                s.as_str(),
            ),
            ProxyError::ServerRuntimeFailed(s) => join2("Server runtime failed: ", s.as_str()),
            ProxyError::ServerStartFailed(s) => join2("Failed to start server: ", s.as_str()),
            ProxyError::McpProtocol(s) => join2("MCP protocol error: ", s.as_str()),
            ProxyError::Io(e) => {
                let t = e.to_string();
                join2("IO error: ", t.as_str())
            },
            ProxyError::Json(e) => {
                let t = e.to_string();
                join2("JSON error: ", t.as_str())
            },
            ProxyError::InvalidRequest(s) => join2("Invalid request: ", s.as_str()),
            ProxyError::ToolNotAllowed(s) => join2("Tool not allowed: ", s.as_str()),
            ProxyError::Internal(s) => join2("Internal error: ", s.as_str()),
        }
    }

    pub fn config(message: &str) -> (e: ProxyError)
        ensures
            e.is_of(ErrorKind::Config, message@),
    {
        ProxyError::Config(String::from_str(message))
    }

    pub fn server_not_found(name: &str) -> (e: ProxyError)
        ensures
            e.is_of(ErrorKind::ServerNotFound, name@),
    {
        ProxyError::ServerNotFound(String::from_str(name))
    }

    pub fn server_already_exists(name: &str) -> (e: ProxyError)
        ensures
            e.is_of(ErrorKind::ServerAlreadyExists, name@),
    {
        ProxyError::ServerAlreadyExists(String::from_str(name))
    }

    pub fn server_not_running(name: &str) -> (e: ProxyError)
        ensures
            e.is_of(ErrorKind::ServerNotRunning, name@),
    {
        ProxyError::ServerNotRunning(String::from_str(name))
    }

    pub fn server_already_running(name: &str) -> (e: ProxyError)
        ensures
            e.is_of(ErrorKind::ServerAlreadyRunning, name@),
    {
        ProxyError::ServerAlreadyRunning(String::from_str(name))
    }

    pub fn server_runtime_failed(server_name: &str, details: &str) -> (e: ProxyError)
        ensures
            e.is_of(ErrorKind::ServerRuntimeFailed, named_detail(server_name@, details@)),
    {
        ProxyError::ServerRuntimeFailed(join3(server_name, ": ", details))
    }

    pub fn server_start_failed(server_name: &str, err: &str) -> (e: ProxyError)
        ensures
            e.is_of(ErrorKind::ServerStartFailed, named_detail(server_name@, err@)),
    {
        ProxyError::ServerStartFailed(join3(server_name, ": ", err))
    }

    pub fn invalid_request(err: &str) -> (e: ProxyError)
        ensures
            e.is_of(ErrorKind::InvalidRequest, "Invalid request format: "@ + err@),
    {
        ProxyError::InvalidRequest(join2("Invalid request format: ", err))
    }

    pub fn tool_not_allowed(tool_name: &str) -> (e: ProxyError)
        ensures
            e.is_of(ErrorKind::ToolNotAllowed, tool_name@),
    {
        ProxyError::ToolNotAllowed(String::from_str(tool_name))
    }

    /// A request that was not answered within `timeout_secs` seconds.
    pub fn mcp_timeout(timeout_secs: u64) -> (e: ProxyError)
        ensures
            e.is_of(ErrorKind::McpProtocol, timeout_detail(timeout_secs)),
    {
        let t = duration_text(timeout_secs);
        ProxyError::McpProtocol(join2("MCP request timed out after ", t.as_str()))
    }

    /// A handshake that was not completed within `timeout_secs` seconds.
    pub fn mcp_handshake_timeout(timeout_secs: u64, server_name: &str, url: Option<&str>) -> (e:
        ProxyError)
        ensures
            e.is_of(
                ErrorKind::McpProtocol,
                handshake_timeout_detail(
                    timeout_secs,
                    server_name@,
                    match url {
                        Some(u) => Some(u@),
                        None => None,
                    },
                ),
            ),
    {
        let t = duration_text(timeout_secs);
        let mut message = join3("MCP handshake timed out after ", t.as_str(), " for server: ");
        message.append(server_name);
        match url {
            Some(u) => {
                message.append(" at ");
                message.append(u);
            },
            None => {},
        }
        ProxyError::McpProtocol(message)
    }

    pub fn mcp_cancelled(action: &str, server_name: &str) -> (e: ProxyError)
        ensures
            e.is_of(ErrorKind::McpProtocol, cancelled_detail(action@, server_name@)),
    {
        let mut message = join3("MCP ", action, " request cancelled for ");
        message.append(server_name);
        ProxyError::McpProtocol(message)
    }

    pub fn mcp_protocol(message: &str) -> (e: ProxyError)
        ensures
            e.is_of(ErrorKind::McpProtocol, message@),
    {
        ProxyError::McpProtocol(String::from_str(message))
    }

    pub fn mcp_service_error(action: &str, err: &str) -> (e: ProxyError)
        ensures
            e.is_of(ErrorKind::McpProtocol, service_error_detail(action@, err@)),
    {
        let mut message = join3("Failed to ", action, ": ");
        message.append(err);
        ProxyError::McpProtocol(message)
    }

    pub fn mcp_client_stop_failed(err: &str) -> (e: ProxyError)
        ensures
            e.is_of(ErrorKind::McpProtocol, "Failed to stop MCP client: "@ + err@),
    {
        ProxyError::McpProtocol(join2("Failed to stop MCP client: ", err))
    }

    /// The text under which this error is reported to a protocol peer:
    /// what was being attempted, then the error's own message.
    pub fn to_mcp_error(&self, context: &str) -> (text: String)
        ensures
            exists|m: Seq<char>| #[trigger]
                self.has_message(m) && text@ == service_error_detail(context@, m),
    {
        let m = self.message();
        let mut text = join3("Failed to ", context, ": ");
        text.append(m.as_str());
        text
    }
}

impl From<std::io::Error> for ProxyError {
    fn from(err: std::io::Error) -> (e: ProxyError) {
        ProxyError::Io(err)
    }
}

impl vstd::std_specs::convert::FromSpecImpl<std::io::Error> for ProxyError {
    open spec fn obeys_from_spec() -> bool {
        true
    }

    open spec fn from_spec(err: std::io::Error) -> ProxyError {
        ProxyError::Io(err)
    }
}

impl From<serde_json::Error> for ProxyError {
    fn from(err: serde_json::Error) -> (e: ProxyError) {
        ProxyError::Json(err)
    }
}

impl vstd::std_specs::convert::FromSpecImpl<serde_json::Error> for ProxyError {
    open spec fn obeys_from_spec() -> bool {
        true
    }

    open spec fn from_spec(err: serde_json::Error) -> ProxyError {
        ProxyError::Json(err)
    }
}

} // verus!
