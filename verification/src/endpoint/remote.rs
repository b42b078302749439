//! A remote endpoint: a backend reached over an HTTP streaming session.

use vstd::prelude::*;
use crate::config::{EndpointConfig, EndpointKindConfig};
use crate::endpoint::client_holder::{ClientHolder, SessionId};
use crate::endpoint::plan::{ClientPlan, StartOutcome, StartPlan, HANDSHAKE_TIMEOUT_SECS};
use crate::endpoint::registry::EndpointType;
use crate::error::{ErrorKind, ProxyError};

verus! {

/// Where a remote server is routed and where it is reached.
#[derive(Debug)]
pub struct RemoteMcpServer {
    pub path: String,
    pub url: String,
}

impl Clone for RemoteMcpServer {
    fn clone(&self) -> (copy: RemoteMcpServer)
        ensures
            copy.path@ == self.path@,
            copy.url@ == self.url@,
    {
        RemoteMcpServer { path: self.path.clone(), url: self.url.clone() }
    }
}

impl RemoteMcpServer {
    pub fn new(path: String, url: String) -> (server: RemoteMcpServer)
        ensures
            server.path@ == path@,
            server.url@ == url@,
    {
        RemoteMcpServer { path, url }
    }

    /// The remote server that `config` describes, routed under the
    /// configured path or else the name; a configuration error where
    /// `config` describes a local one.
    pub fn from_config(config: &EndpointConfig) -> (r: Result<RemoteMcpServer, ProxyError>)
        ensures
            match r {
                Ok(server) => {
                    &&& config.endpoint_type matches EndpointKindConfig::Remote { url }
                    &&& server.url@ == url@
                    &&& server.path@ == config.route()
                },
                Err(e) => config.endpoint_type is Local && e.is_of(
                    ErrorKind::Config,
                    "Expected remote server configuration"@,
                ),
            },
    {
        match &config.endpoint_type {
            EndpointKindConfig::Remote { url } => Ok(
                RemoteMcpServer::new(config.get_path(), url.clone()),
            ),
            _ => Err(ProxyError::config("Expected remote server configuration")),
        }
    }
}

/// A remote endpoint: where it is reached, and the session it runs on, if any.
#[derive(Debug)]
pub struct RemoteEndpoint {
    pub name: String,
    pub path: String,
    pub url: String,
    mcp_client: ClientHolder,
}

/// A remote endpoint with its strings as sequences of characters.
pub struct RemoteEndpointView {
    pub name: Seq<char>,
    pub path: Seq<char>,
    pub url: Seq<char>,
    pub session: Option<SessionId>,
}

impl View for RemoteEndpoint {
    type V = RemoteEndpointView;

    closed spec fn view(&self) -> RemoteEndpointView {
        RemoteEndpointView {
            name: self.name@,
            path: self.path@,
            url: self.url@,
            session: self.mcp_client@,
        }
    }
}

impl Clone for RemoteEndpoint {
    fn clone(&self) -> (copy: RemoteEndpoint)
        ensures
            copy@ == self@,
    {
        RemoteEndpoint {
            name: self.name.clone(),
            path: self.path.clone(),
            url: self.url.clone(),
            mcp_client: self.mcp_client.clone(),
        }
    }
}

impl StartPlan {
    /// Whether the plan connects to the address of `endpoint`, under the
    /// handshake deadline.
    pub open spec fn connects(self, endpoint: RemoteEndpointView) -> bool {
        match self {
            StartPlan::Connect { url, timeout_secs } => {
                &&& url@ == endpoint.url
                &&& timeout_secs == HANDSHAKE_TIMEOUT_SECS
            },
            StartPlan::Spawn { command, args, env, timeout_secs } => false,
        }
    }
}

impl RemoteEndpoint {
    /// A stopped endpoint.
    pub fn new(name: String, path: String, url: String) -> (endpoint: RemoteEndpoint)
        ensures
            endpoint@ == (RemoteEndpointView {
                name: name@,
                path: path@,
                url: url@,
                session: None,
            }),
    {
        RemoteEndpoint { name, path, url, mcp_client: ClientHolder::new() }
    }

    /// A stopped endpoint as `config` describes it, routed under the
    /// configured path or else the name; a configuration error where
    /// `config` describes a local one.
    pub fn from_config(config: &EndpointConfig) -> (r: Result<RemoteEndpoint, ProxyError>)
        ensures
            match r {
                Ok(endpoint) => {
                    &&& config.endpoint_type matches EndpointKindConfig::Remote { url }
                    &&& endpoint@ == (RemoteEndpointView {
                        name: config.name@,
                        path: config.route(),
                        url: url@,
                        session: None,
                    })
                },
                Err(e) => config.endpoint_type is Local && e.is_of(
                    ErrorKind::Config,
                    "Expected remote endpoint configuration"@,
                ),
            },
    {
        match &config.endpoint_type {
            EndpointKindConfig::Remote { url } => Ok(
                RemoteEndpoint::new(config.name.clone(), config.get_path(), url.clone()),
            ),
            _ => Err(ProxyError::config("Expected remote endpoint configuration")),
        }
    }

    pub fn name(&self) -> (name: &str)
        ensures
            name@ == self@.name,
    {
        self.name.as_str()
    }

    pub fn path(&self) -> (path: &str)
        ensures
            path@ == self@.path,
    {
        self.path.as_str()
    }

    pub fn endpoint_type(&self) -> (kind: EndpointType)
        ensures
            kind == EndpointType::Remote,
    {
        EndpointType::Remote
    }

    /// What it takes to start the endpoint: `ServerAlreadyRunning` where it
    /// has a session, and else the address to connect to. Nothing is
    /// contacted and nothing changes until the outcome comes back.
    pub fn start(&self) -> (r: Result<StartPlan, ProxyError>)
        ensures
            match r {
                Ok(plan) => self@.session is None && plan.connects(self@),
                Err(e) => self@.session is Some && e.is_of(
                    ErrorKind::ServerAlreadyRunning,
                    self@.name,
                ),
            },
    {
        self.mcp_client.ensure_not_running(self.name.as_str())?;
        Ok(StartPlan::Connect { url: self.url.clone(), timeout_secs: HANDSHAKE_TIMEOUT_SECS })
    }

    /// Takes in how the start ended. A connected session is kept; any
    /// failure leaves the endpoint without one and comes back as its
    /// typed error. An endpoint that already has a session keeps it and
    /// answers `ServerAlreadyRunning`.
    pub fn finish_start(&mut self, outcome: StartOutcome) -> (r: Result<(), ProxyError>)
        ensures
            match r {
                Ok(()) => {
                    &&& old(self)@.session is None
                    &&& outcome matches StartOutcome::Connected(session)
                    &&& final(self)@ == (RemoteEndpointView {
                        session: Some(session),
                        ..old(self)@
                    })
                },
                Err(e) => {
                    &&& final(self)@ == old(self)@
                    &&& if old(self)@.session is Some {
                        e.is_of(ErrorKind::ServerAlreadyRunning, old(self)@.name)
                    } else {
                        outcome.fails_with(e, old(self)@.name, Some(old(self)@.url))
                    }
                },
            },
    {
        self.mcp_client.ensure_not_running(self.name.as_str())?;
        let session = outcome.into_session(self.name.as_str(), Some(self.url.as_str()))?;
        self.mcp_client.set(session);
        Ok(())
    }

    /// Gives up the endpoint's session, to be closed. `ServerNotRunning`
    /// where there is none.
    pub fn stop(&mut self) -> (r: Result<SessionId, ProxyError>)
        ensures
            match r {
                Ok(session) => {
                    &&& old(self)@.session == Some(session)
                    &&& final(self)@ == (RemoteEndpointView { session: None, ..old(self)@ })
                },
                Err(e) => {
                    &&& old(self)@.session is None
                    &&& final(self)@ == old(self)@
                    &&& e.is_of(ErrorKind::ServerNotRunning, old(self)@.name)
                },
            },
    {
        let session = self.mcp_client.get(self.name.as_str())?;
        self.mcp_client.clear();
        Ok(session)
    }

    /// A remote endpoint serves callers from its own session where it has
    /// one, and else from a fresh session to its address, made for the
    /// one use and leaving the endpoint as it is.
    pub fn get_or_create_client(&self) -> (plan: ClientPlan)
        ensures
            match plan {
                ClientPlan::Cached(session) => self@.session == Some(session),
                ClientPlan::Fresh { url } => self@.session is None && url@ == self@.url,
            },
    {
        match self.mcp_client.get(self.name.as_str()) {
            Ok(session) => ClientPlan::Cached(session),
            Err(_) => ClientPlan::Fresh { url: self.url.clone() },
        }
    }

    /// Whether the endpoint has a session.
    pub fn is_started(&self) -> (started: bool)
        ensures
            started == self@.session is Some,
    {
        self.mcp_client.get(self.name.as_str()).is_ok()
    }
}

} // verus!
