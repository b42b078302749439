//! What the core asks the surrounding program to do to a backend, and
//! what the program reports back.

use std::collections::HashMap;
use vstd::prelude::*;
use crate::endpoint::client_holder::SessionId;
use crate::error::{
    duration_debug, handshake_timeout_detail, named_detail, ErrorKind, ProxyError,
};
use crate::text::join2;

verus! {

/// The longest a handshake may take, in seconds.
pub const HANDSHAKE_TIMEOUT_SECS: u64 = 30;

/// How to bring a session up.
#[derive(Debug)]
pub enum StartPlan {
    /// Spawn the subprocess, take its standard streams as the transport and
    /// shake hands within `timeout_secs`.
    Spawn { command: String, args: Vec<String>, env: HashMap<String, String>, timeout_secs: u64 },
    /// Open a streaming session to `url` and shake hands within
    /// `timeout_secs`; then list the tools once, for the log only.
    Connect { url: String, timeout_secs: u64 },
}

/// How bringing a session up ended.
#[derive(Debug)]
pub enum StartOutcome {
    /// The handshake completed; the session is kept under this number.
    Connected(SessionId),
    /// The transport could not be set up: the subprocess did not spawn.
    SpawnFailed(String),
    /// The handshake did not complete in time and was cancelled.
    HandshakeTimedOut,
    /// The peer answered the handshake with something else than the protocol asks.
    HandshakeFailed(String),
}

/// Where a caller gets the client for an endpoint from.
#[derive(Debug)]
pub enum ClientPlan {
    /// Use the endpoint's own session.
    Cached(SessionId),
    /// Open a fresh session to `url` for this one use; the endpoint's own
    /// state is not touched.
    Fresh { url: String },
}

/// Detail of the error for a local handshake that the peer got wrong.
pub open spec fn local_handshake_detail(cause: Seq<char>) -> Seq<char> {
    "Failed to initialize MCP client: "@ + cause
}

/// Detail of the error for a remote handshake that the peer got wrong.
pub open spec fn remote_handshake_detail(cause: Seq<char>) -> Seq<char> {
    "Failed to initialize MCP HTTP client: "@ + cause
}

impl StartOutcome {
    /// Whether `e` is the error that this outcome stands for, at the
    /// endpoint called `name`, reached at `url` if it is remote.
    pub open spec fn fails_with(
        self,
        e: ProxyError,
        name: Seq<char>,
        url: Option<Seq<char>>,
    ) -> bool {
        match self {
            StartOutcome::Connected(_) => false,
            StartOutcome::SpawnFailed(cause) => e.is_of(
                ErrorKind::ServerStartFailed,
                named_detail(name, cause@),
            ),
            StartOutcome::HandshakeTimedOut => e.is_of(
                ErrorKind::McpProtocol,
                handshake_timeout_detail(HANDSHAKE_TIMEOUT_SECS, name, url),
            ),
            StartOutcome::HandshakeFailed(cause) => e.is_of(
                ErrorKind::McpProtocol,
                if url is Some {
                    remote_handshake_detail(cause@)
                } else {
                    local_handshake_detail(cause@)
                },
            ),
        }
    }

    /// The session of a start that succeeded; the typed error of one that
    /// did not.
    pub fn into_session(self, name: &str, url: Option<&str>) -> (r: Result<SessionId, ProxyError>)
        ensures
            match r {
                Ok(session) => self == StartOutcome::Connected(session),
                Err(e) => self.fails_with(
                    e,
                    name@,
                    match url {
                        Some(u) => Some(u@),
                        None => None,
                    },
                ),
            },
    {
        match self {
            StartOutcome::Connected(session) => Ok(session),
            StartOutcome::SpawnFailed(cause) => Err(
                ProxyError::server_start_failed(name, cause.as_str()),
            ),
            StartOutcome::HandshakeTimedOut => Err(
                ProxyError::mcp_handshake_timeout(HANDSHAKE_TIMEOUT_SECS, name, url),
            ),
            StartOutcome::HandshakeFailed(cause) => {
                let message = match url {
                    Some(_) => join2("Failed to initialize MCP HTTP client: ", cause.as_str()),
                    None => join2("Failed to initialize MCP client: ", cause.as_str()),
                };
                Err(ProxyError::McpProtocol(message))
            },
        }
    }
}

/// The error of a handshake that ran out of time is told apart from the
/// error of a handshake that the peer got wrong: the first is a
/// handshake timeout, the second never is.
pub proof fn lemma_timeout_is_not_a_format_failure(
    timeout: ProxyError,
    failure: ProxyError,
    cause: String,
    name: Seq<char>,
    url: Option<Seq<char>>,
)
    requires
        StartOutcome::HandshakeTimedOut.fails_with(timeout, name, url),
        StartOutcome::HandshakeFailed(cause).fails_with(failure, name, url),
    ensures
        timeout.timed_out_handshake(),
        !failure.timed_out_handshake(),
        timeout.detail() != failure.detail(),
{
    reveal_strlit("MCP handshake timed out after ");
    reveal_strlit("Failed to initialize MCP HTTP client: ");
    reveal_strlit("Failed to initialize MCP client: ");
    let opening = "MCP handshake timed out after "@;
    let head = opening + duration_debug(HANDSHAKE_TIMEOUT_SECS) + " for server: "@ + name;
    assert(head.subrange(0, opening.len() as int) =~= opening);
    match url {
        Some(u) => {
            assert((head + " at "@ + u).subrange(0, opening.len() as int) =~= opening);
        },
        None => {},
    }
    assert(timeout.detail()[0] == 'M');
    assert(failure.detail()[0] == 'F');
    assert(failure.detail().len() > 0);
    if failure.timed_out_handshake() {
        assert(failure.detail().subrange(0, opening.len() as int)[0] == opening[0]);
    }
}

} // verus!
