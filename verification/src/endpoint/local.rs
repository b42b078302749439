//! A local endpoint: a backend that runs as a subprocess of the gateway.

use std::collections::HashMap;
use vstd::prelude::*;
use crate::config::{EndpointConfig, EndpointKindConfig, LocalServerConfig};
use crate::endpoint::client_holder::{ClientHolder, SessionId};
use crate::endpoint::plan::{ClientPlan, StartOutcome, StartPlan, HANDSHAKE_TIMEOUT_SECS};
use crate::endpoint::registry::EndpointType;
use crate::error::{ErrorKind, ProxyError};
use crate::text::{clone_names, names_of};

verus! {

/// A local endpoint: what launches it, and the session it runs on, if any.
#[derive(Debug)]
pub struct LocalEndpoint {
    pub name: String,
    pub path: String,
    pub config: LocalServerConfig,
    mcp_client: ClientHolder,
}

/// A local endpoint with its strings as sequences of characters.
pub struct LocalEndpointView {
    pub name: Seq<char>,
    pub path: Seq<char>,
    pub command: Seq<char>,
    pub args: Seq<Seq<char>>,
    pub env: Map<String, String>,
    pub session: Option<SessionId>,
}

impl View for LocalEndpoint {
    type V = LocalEndpointView;

    closed spec fn view(&self) -> LocalEndpointView {
        LocalEndpointView {
            name: self.name@,
            path: self.path@,
            command: self.config.command@,
            args: names_of(self.config.args@),
            env: self.config.env@,
            session: self.mcp_client@,
        }
    }
}

impl Clone for LocalEndpoint {
    fn clone(&self) -> (copy: LocalEndpoint)
        ensures
            copy@ == self@,
    {
        LocalEndpoint {
            name: self.name.clone(),
            path: self.path.clone(),
            config: self.config.duplicate(),
            mcp_client: self.mcp_client.clone(),
        }
    }
}

impl StartPlan {
    /// Whether the plan spawns the subprocess of `endpoint`, under the
    /// handshake deadline.
    pub open spec fn spawns(self, endpoint: LocalEndpointView) -> bool {
        match self {
            StartPlan::Spawn { command, args, env, timeout_secs } => {
                &&& command@ == endpoint.command
                &&& names_of(args@) == endpoint.args
                &&& env@ == endpoint.env
                &&& timeout_secs == HANDSHAKE_TIMEOUT_SECS
            },
            StartPlan::Connect { url, timeout_secs } => false,
        }
    }
}

impl LocalEndpoint {
    /// A stopped endpoint that is routed under its own name.
    pub fn new(name: String, config: LocalServerConfig) -> (endpoint: LocalEndpoint)
        ensures
            endpoint@ == (LocalEndpointView {
                name: name@,
                path: name@,
                command: config.command@,
                args: names_of(config.args@),
                env: config.env@,
                session: None,
            }),
    {
        let path = name.clone();
        LocalEndpoint { name, path, config, mcp_client: ClientHolder::new() }
    }

    /// A stopped endpoint as `config` describes it; a configuration error
    /// where `config` describes a remote one.
    pub fn from_config(config: &EndpointConfig) -> (r: Result<LocalEndpoint, ProxyError>)
        ensures
            match r {
                Ok(endpoint) => {
                    &&& config.endpoint_type matches EndpointKindConfig::Local {
                        command,
                        args,
                        env,
                        auto_start,
                    }
                    &&& endpoint@ == (LocalEndpointView {
                        name: config.name@,
                        path: config.route(),
                        command: command@,
                        args: names_of(args@),
                        env: env@,
                        session: None,
                    })
                },
                Err(e) => config.endpoint_type is Remote && e.is_of(
                    ErrorKind::Config,
                    "Expected local endpoint configuration"@,
                ),
            },
    {
        let settings = config.to_local_settings()?;
        Ok(
            LocalEndpoint {
                name: config.name.clone(),
                path: config.get_path(),
                config: settings,
                mcp_client: ClientHolder::new(),
            },
        )
    }

    pub fn name(&self) -> (name: &str)
        ensures
            name@ == self@.name,
    {
        self.name.as_str()
    }

    pub fn path(&self) -> (path: &str)
        ensures
            path@ == self@.path,
    {
        self.path.as_str()
    }

    pub fn endpoint_type(&self) -> (kind: EndpointType)
        ensures
            kind == EndpointType::Local,
    {
        EndpointType::Local
    }

    /// The endpoint's session; `ServerNotRunning` where it has none.
    pub fn get_client(&self) -> (r: Result<SessionId, ProxyError>)
        ensures
            match r {
                Ok(session) => self@.session == Some(session),
                Err(e) => self@.session is None && e.is_of(
                    ErrorKind::ServerNotRunning,
                    self@.name,
                ),
            },
    {
        self.mcp_client.get(self.name.as_str())
    }

    /// What it takes to start the endpoint: `ServerAlreadyRunning` where it
    /// has a session, and else the subprocess to spawn. Nothing is
    /// contacted and nothing changes until the outcome comes back.
    pub fn start(&self) -> (r: Result<StartPlan, ProxyError>)
        ensures
            match r {
                Ok(plan) => self@.session is None && plan.spawns(self@),
                Err(e) => self@.session is Some && e.is_of(
                    ErrorKind::ServerAlreadyRunning,
                    self@.name,
                ),
            },
    {
        self.mcp_client.ensure_not_running(self.name.as_str())?;
        Ok(
            StartPlan::Spawn {
                command: self.config.command.clone(),
                args: clone_names(&self.config.args),
                env: self.config.env.clone(),
                timeout_secs: HANDSHAKE_TIMEOUT_SECS,
            },
        )
    }

    /// Takes in how the start ended. A connected session is kept; any
    /// failure leaves the endpoint without one and comes back as its
    /// typed error. An endpoint that already has a session keeps it and
    /// answers `ServerAlreadyRunning`.
    pub fn finish_start(&mut self, outcome: StartOutcome) -> (r: Result<(), ProxyError>)
        ensures
            match r {
                Ok(()) => {
                    &&& old(self)@.session is None
                    &&& outcome matches StartOutcome::Connected(session)
                    &&& final(self)@ == (LocalEndpointView {
                        session: Some(session),
                        ..old(self)@
                    })
                },
                Err(e) => {
                    &&& final(self)@ == old(self)@
                    &&& if old(self)@.session is Some {
                        e.is_of(ErrorKind::ServerAlreadyRunning, old(self)@.name)
                    } else {
                        outcome.fails_with(e, old(self)@.name, None)
                    }
                },
            },
    {
        self.mcp_client.ensure_not_running(self.name.as_str())?;
        let session = outcome.into_session(self.name.as_str(), None)?;
        self.mcp_client.set(session);
        Ok(())
    }

    /// Gives up the endpoint's session, to be closed: closing it ends the
    /// subprocess. `ServerNotRunning` where there is none.
    pub fn stop(&mut self) -> (r: Result<SessionId, ProxyError>)
        ensures
            match r {
                Ok(session) => {
                    &&& old(self)@.session == Some(session)
                    &&& final(self)@ == (LocalEndpointView { session: None, ..old(self)@ })
                },
                Err(e) => {
                    &&& old(self)@.session is None
                    &&& final(self)@ == old(self)@
                    &&& e.is_of(ErrorKind::ServerNotRunning, old(self)@.name)
                },
            },
    {
        let session = self.mcp_client.get(self.name.as_str())?;
        self.mcp_client.clear();
        Ok(session)
    }

    /// A local endpoint serves callers from its own session only.
    pub fn get_or_create_client(&self) -> (r: Result<ClientPlan, ProxyError>)
        ensures
            match r {
                Ok(plan) => plan matches ClientPlan::Cached(session) && self@.session == Some(
                    session,
                ),
                Err(e) => self@.session is None && e.is_of(
                    ErrorKind::ServerNotRunning,
                    self@.name,
                ),
            },
    {
        let session = self.get_client()?;
        Ok(ClientPlan::Cached(session))
    }

    /// Whether the endpoint has a session.
    pub fn is_started(&self) -> (started: bool)
        ensures
            started == self@.session is Some,
    {
        self.mcp_client.get(self.name.as_str()).is_ok()
    }
}

} // verus!
