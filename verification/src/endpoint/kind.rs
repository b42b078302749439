//! The closed set of endpoint variants, and the dispatch over it.

use vstd::prelude::*;
use crate::endpoint::client_holder::SessionId;
use crate::endpoint::local::{LocalEndpoint, LocalEndpointView};
use crate::endpoint::plan::{ClientPlan, StartOutcome, StartPlan};
use crate::endpoint::registry::EndpointType;
use crate::endpoint::remote::{RemoteEndpoint, RemoteEndpointView};
use crate::error::{ErrorKind, ProxyError};

verus! {

/// An endpoint of either kind.
#[derive(Debug)]
pub enum EndpointKind {
    Local(LocalEndpoint),
    Remote(RemoteEndpoint),
}

/// An endpoint of either kind, with its strings as sequences of characters.
pub enum EndpointKindView {
    Local(LocalEndpointView),
    Remote(RemoteEndpointView),
}

impl View for EndpointKind {
    type V = EndpointKindView;

    open spec fn view(&self) -> EndpointKindView {
        match self {
            EndpointKind::Local(endpoint) => EndpointKindView::Local(endpoint@),
            EndpointKind::Remote(endpoint) => EndpointKindView::Remote(endpoint@),
        }
    }
}

impl Clone for EndpointKind {
    fn clone(&self) -> (copy: EndpointKind)
        ensures
            copy@ == self@,
    {
        match self {
            EndpointKind::Local(endpoint) => EndpointKind::Local(endpoint.clone()),
            EndpointKind::Remote(endpoint) => EndpointKind::Remote(endpoint.clone()),
        }
    }
}

impl EndpointKindView {
    pub open spec fn name(self) -> Seq<char> {
        match self {
            EndpointKindView::Local(endpoint) => endpoint.name,
            EndpointKindView::Remote(endpoint) => endpoint.name,
        }
    }

    pub open spec fn path(self) -> Seq<char> {
        match self {
            EndpointKindView::Local(endpoint) => endpoint.path,
            EndpointKindView::Remote(endpoint) => endpoint.path,
        }
    }

    pub open spec fn endpoint_type(self) -> EndpointType {
        match self {
            EndpointKindView::Local(_) => EndpointType::Local,
            EndpointKindView::Remote(_) => EndpointType::Remote,
        }
    }

    /// The session the endpoint runs on, if any.
    pub open spec fn session(self) -> Option<SessionId> {
        match self {
            EndpointKindView::Local(endpoint) => endpoint.session,
            EndpointKindView::Remote(endpoint) => endpoint.session,
        }
    }

    /// The address of a remote endpoint.
    pub open spec fn url(self) -> Option<Seq<char>> {
        match self {
            EndpointKindView::Local(_) => None,
            EndpointKindView::Remote(endpoint) => Some(endpoint.url),
        }
    }

    /// The same endpoint with `session` in its slot.
    pub open spec fn with_session(self, session: Option<SessionId>) -> EndpointKindView {
        match self {
            EndpointKindView::Local(endpoint) => EndpointKindView::Local(
                LocalEndpointView { session: session, ..endpoint },
            ),
            EndpointKindView::Remote(endpoint) => EndpointKindView::Remote(
                RemoteEndpointView { session: session, ..endpoint },
            ),
        }
    }
}

impl StartPlan {
    /// Whether the plan is the one that brings up `endpoint`: spawn its
    /// subprocess if it is local, connect to its address if it is remote.
    pub open spec fn starts(self, endpoint: EndpointKindView) -> bool {
        match endpoint {
            EndpointKindView::Local(local) => self.spawns(local),
            EndpointKindView::Remote(remote) => self.connects(remote),
        }
    }
}

impl ClientPlan {
    /// Whether the plan is how `endpoint` serves a caller: from its own
    /// session, or, for a remote endpoint without one, from a fresh
    /// session to its address.
    pub open spec fn serves(self, endpoint: EndpointKindView) -> bool {
        match self {
            ClientPlan::Cached(session) => endpoint.session() == Some(session),
            ClientPlan::Fresh { url } => endpoint.session() is None && endpoint.url() == Some(
                url@,
            ),
        }
    }
}

impl EndpointKind {
    pub fn name(&self) -> (name: &str)
        ensures
            name@ == self@.name(),
    {
        match self {
            EndpointKind::Local(endpoint) => endpoint.name(),
            EndpointKind::Remote(endpoint) => endpoint.name(),
        }
    }

    pub fn path(&self) -> (path: &str)
        ensures
            path@ == self@.path(),
    {
        match self {
            EndpointKind::Local(endpoint) => endpoint.path(),
            EndpointKind::Remote(endpoint) => endpoint.path(),
        }
    }

    pub fn endpoint_type(&self) -> (kind: EndpointType)
        ensures
            kind == self@.endpoint_type(),
    {
        match self {
            EndpointKind::Local(endpoint) => endpoint.endpoint_type(),
            EndpointKind::Remote(endpoint) => endpoint.endpoint_type(),
        }
    }

    /// What it takes to start the endpoint: `ServerAlreadyRunning` where it
    /// has a session, and else the plan that brings it up.
    pub fn start(&self) -> (r: Result<StartPlan, ProxyError>)
        ensures
            match r {
                Ok(plan) => self@.session() is None && plan.starts(self@),
                Err(e) => self@.session() is Some && e.is_of(
                    ErrorKind::ServerAlreadyRunning,
                    self@.name(),
                ),
            },
    {
        match self {
            EndpointKind::Local(endpoint) => endpoint.start(),
            EndpointKind::Remote(endpoint) => endpoint.start(),
        }
    }

    /// Takes in how the start ended: a connected session is kept, a
    /// failure comes back as its typed error and leaves the endpoint as it
    /// was.
    pub fn finish_start(&mut self, outcome: StartOutcome) -> (r: Result<(), ProxyError>)
        ensures
            match r {
                Ok(()) => {
                    &&& old(self)@.session() is None
                    &&& outcome matches StartOutcome::Connected(session)
                    &&& final(self)@ == old(self)@.with_session(Some(session))
                },
                Err(e) => {
                    &&& final(self)@ == old(self)@
                    &&& if old(self)@.session() is Some {
                        e.is_of(ErrorKind::ServerAlreadyRunning, old(self)@.name())
                    } else {
                        outcome.fails_with(e, old(self)@.name(), old(self)@.url())
                    }
                },
            },
    {
        match self {
            EndpointKind::Local(endpoint) => endpoint.finish_start(outcome),
            EndpointKind::Remote(endpoint) => endpoint.finish_start(outcome),
        }
    }

    /// Gives up the endpoint's session, to be closed. `ServerNotRunning`
    /// where there is none.
    pub fn stop(&mut self) -> (r: Result<SessionId, ProxyError>)
        ensures
            match r {
                Ok(session) => {
                    &&& old(self)@.session() == Some(session)
                    &&& final(self)@ == old(self)@.with_session(None)
                },
                Err(e) => {
                    &&& old(self)@.session() is None
                    &&& final(self)@ == old(self)@
                    &&& e.is_of(ErrorKind::ServerNotRunning, old(self)@.name())
                },
            },
    {
        match self {
            EndpointKind::Local(endpoint) => endpoint.stop(),
            EndpointKind::Remote(endpoint) => endpoint.stop(),
        }
    }

    /// Where a caller gets this endpoint's client from. Only a local
    /// endpoint without a session has none to offer.
    pub fn get_or_create_client(&self) -> (r: Result<ClientPlan, ProxyError>)
        ensures
            match r {
                Ok(plan) => plan.serves(self@),
                Err(e) => {
                    &&& self@ is Local
                    &&& self@.session() is None
                    &&& e.is_of(ErrorKind::ServerNotRunning, self@.name())
                },
            },
    {
        match self {
            EndpointKind::Local(endpoint) => endpoint.get_or_create_client(),
            EndpointKind::Remote(endpoint) => Ok(endpoint.get_or_create_client()),
        }
    }

    /// Whether the endpoint has a session.
    pub fn is_started(&self) -> (started: bool)
        ensures
            started == self@.session() is Some,
    {
        match self {
            EndpointKind::Local(endpoint) => endpoint.is_started(),
            EndpointKind::Remote(endpoint) => endpoint.is_started(),
        }
    }
}

} // verus!
