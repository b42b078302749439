//! The endpoint manager: the one authority for lifecycle transitions.
//!
//! Bringing a session up or down is work on a backend, and takes time.
//! The manager decides; the program around it does the work. So every
//! transition comes in two halves: the first checks the rules, marks the
//! endpoint as `Starting` or `Stopping` and says what is to be done; the
//! second takes in how it ended and settles the status.

use dashmap::DashMap;
use vstd::prelude::*;
use vstd::string::StringExecFns;
use crate::config::{clone_filter, EndpointConfig, EndpointKindConfig};
use crate::endpoint::client_holder::SessionId;
use crate::endpoint::kind::EndpointKind;
use crate::endpoint::lifecycle::{auto_start_names, no_pending_detail, ManagerView};
use crate::endpoint::local::LocalEndpoint;
use crate::endpoint::plan::{ClientPlan, StartOutcome, StartPlan};
use crate::endpoint::registry::{
    listed_names, no_route_detail, EndpointInfo, EndpointRegistry, EndpointStatus, EndpointType,
};
use crate::endpoint::remote::RemoteEndpoint;
use crate::endpoint::store::{
    kind_entries, kind_map_get, kind_map_insert, kind_map_new, no_endpoints, no_paths,
    no_variants,
};
use crate::error::{ErrorKind, ProxyError};
use crate::text::{join3, names_of};

verus! {

/// The pause between the two steps of a restart, in milliseconds, where
/// none is configured.
pub const DEFAULT_RESTART_DELAY_MS: u64 = 500;

/// The error for an outcome that no operation is waiting for.
fn no_pending(step: &str, name: &str) -> (e: ProxyError)
    ensures
        e.is_of(ErrorKind::Internal, no_pending_detail(step@, name@)),
{
    let mut detail = join3("no ", step, " in progress for ");
    detail.append(name);
    ProxyError::Internal(detail)
}

/// The manager of all endpoints.
pub struct EndpointManager {
    registry: EndpointRegistry,
    endpoints: DashMap<String, EndpointKind>,
    restart_delay_ms: u64,
}

impl View for EndpointManager {
    type V = ManagerView;

    closed spec fn view(&self) -> ManagerView {
        ManagerView {
            registry: self.registry@,
            endpoints: kind_entries(self.endpoints),
            restart_delay_ms: self.restart_delay_ms,
        }
    }
}

impl EndpointManager {
    /// A manager without endpoints, with the default restart delay.
    pub fn new() -> (manager: EndpointManager)
        ensures
            manager@.coherent(),
            manager@.registry.by_name == no_endpoints(),
            manager@.registry.by_path == no_paths(),
            manager@.endpoints == no_variants(),
            manager@.restart_delay_ms == DEFAULT_RESTART_DELAY_MS,
    {
        EndpointManager::new_with_restart_delay(DEFAULT_RESTART_DELAY_MS)
    }

    /// A manager without endpoints that pauses `restart_delay_ms`
    /// milliseconds between the stop and the start of a restart.
    pub fn new_with_restart_delay(restart_delay_ms: u64) -> (manager: EndpointManager)
        ensures
            manager@.coherent(),
            manager@.registry.by_name == no_endpoints(),
            manager@.registry.by_path == no_paths(),
            manager@.endpoints == no_variants(),
            manager@.restart_delay_ms == restart_delay_ms,
    {
        EndpointManager {
            registry: EndpointRegistry::new(),
            endpoints: kind_map_new(),
            restart_delay_ms,
        }
    }

    /// Registers the endpoint of `config`, stopped. Fails and changes
    /// nothing where its name, or else its path, is taken.
    pub fn init_endpoint(&mut self, config: &EndpointConfig) -> (r: Result<(), ProxyError>)
        requires
            old(self)@.coherent(),
        ensures
            final(self)@.coherent(),
            old(self)@.steps_to(final(self)@),
            match r {
                Ok(()) => !old(self)@.collides(*config) && final(self)@ == old(
                    self,
                )@.with_endpoint(*config),
                Err(e) => final(self)@ == old(self)@ && old(self)@.collision(*config, e),
            },
    {
        match &config.endpoint_type {
            EndpointKindConfig::Local { .. } => self.init_local_endpoint(config),
            EndpointKindConfig::Remote { .. } => self.init_remote_endpoint(config),
        }
    }

    fn init_local_endpoint(&mut self, config: &EndpointConfig) -> (r: Result<(), ProxyError>)
        requires
            old(self)@.coherent(),
            config.endpoint_type is Local,
        ensures
            final(self)@.coherent(),
            old(self)@.steps_to(final(self)@),
            match r {
                Ok(()) => !old(self)@.collides(*config) && final(self)@ == old(
                    self,
                )@.with_endpoint(*config),
                Err(e) => final(self)@ == old(self)@ && old(self)@.collision(*config, e),
            },
    {
        let endpoint = match LocalEndpoint::from_config(config) {
            Ok(endpoint) => endpoint,
            Err(e) => {
                return Err(e);
            },
        };
        self.registry.register(
            config.name.clone(),
            config.get_path(),
            EndpointType::Local,
            clone_filter(&config.tools),
        )?;
        kind_map_insert(&mut self.endpoints, config.name.clone(), EndpointKind::Local(endpoint));
        Ok(())
    }

    fn init_remote_endpoint(&mut self, config: &EndpointConfig) -> (r: Result<(), ProxyError>)
        requires
            old(self)@.coherent(),
            config.endpoint_type is Remote,
        ensures
            final(self)@.coherent(),
            old(self)@.steps_to(final(self)@),
            match r {
                Ok(()) => !old(self)@.collides(*config) && final(self)@ == old(
                    self,
                )@.with_endpoint(*config),
                Err(e) => final(self)@ == old(self)@ && old(self)@.collision(*config, e),
            },
    {
        let endpoint = match RemoteEndpoint::from_config(config) {
            Ok(endpoint) => endpoint,
            Err(e) => {
                return Err(e);
            },
        };
        self.registry.register(
            config.name.clone(),
            config.get_path(),
            EndpointType::Remote,
            clone_filter(&config.tools),
        )?;
        kind_map_insert(&mut self.endpoints, config.name.clone(), EndpointKind::Remote(endpoint));
        Ok(())
    }

    /// Registers the endpoints of `configs` in their order, each stopped,
    /// and names those to start right away: the local ones that ask for
    /// it. Stops at the first endpoint whose name or path is taken, with
    /// those before it registered, and reports it.
    pub fn init_from_config(&mut self, configs: Vec<EndpointConfig>) -> (r: Result<
        Vec<String>,
        ProxyError,
    >)
        requires
            old(self)@.coherent(),
        ensures
            final(self)@.coherent(),
            old(self)@.steps_to(final(self)@),
            match r {
                Ok(auto_start) => {
                    &&& old(self)@.admits(configs@)
                    &&& final(self)@ == old(self)@.after(configs@)
                    &&& names_of(auto_start@) == auto_start_names(configs@)
                },
                Err(e) => exists|i: int|
                    {
                        &&& 0 <= i < configs@.len()
                        &&& old(self)@.admits(configs@.take(i))
                        &&& final(self)@ == #[trigger] old(self)@.after(configs@.take(i))
                        &&& final(self)@.collision(configs@[i], e)
                    },
            },
    {
        let mut auto_start: Vec<String> = Vec::new();
        let mut i: usize = 0;
        while i < configs.len()
            invariant
                i <= configs.len(),
                old(self)@.coherent(),
                self@.coherent(),
                self@ == old(self)@.after(configs@.take(i as int)),
                old(self)@.admits(configs@.take(i as int)),
                names_of(auto_start@) == auto_start_names(configs@.take(i as int)),
                forall|name: Seq<char>| #[trigger]
                    old(self)@.knows(name) ==> self@.knows(name) && self@.status(name) == old(
                        self,
                    )@.status(name),
                forall|name: Seq<char>| #[trigger]
                    self@.knows(name) && !old(self)@.knows(name) ==> self@.status(name) is Stopped,
            decreases configs.len() - i,
        {
            let config = &configs[i];
            let ghost before = self@;
            let ghost done = configs@.take(i as int);
            let ghost next = configs@.take(i as int + 1);
            proof {
                assert(next.drop_last() =~= done);
                assert(next.last() == configs@[i as int]);
            }
            match self.init_endpoint(config) {
                Ok(()) => {},
                Err(e) => {
                    return Err(e);
                },
            }
            let ghost names_before = names_of(auto_start@);
            match &config.endpoint_type {
                EndpointKindConfig::Local { auto_start: wanted, .. } => {
                    if *wanted {
                        auto_start.push(config.name.clone());
                        proof {
                            assert(names_of(auto_start@) =~= names_before.push(config.name@));
                        }
                    }
                },
                EndpointKindConfig::Remote { .. } => {},
            }
            proof {
                assert forall|k: int| 0 <= k < next.len() implies !(#[trigger] old(self)@.after(
                    next.take(k),
                )).collides(next[k]) by {
                    if k < i {
                        assert(next.take(k) =~= done.take(k));
                    } else {
                        assert(next.take(k) =~= done);
                    }
                }
            }
            i += 1;
        }
        proof {
            assert(configs@.take(configs@.len() as int) =~= configs@);
        }
        Ok(auto_start)
    }

    /// First half of a start. Fails and changes nothing where the
    /// endpoint is unknown (`ServerNotFound`) or is running, starting or
    /// stopping (`ServerAlreadyRunning`). Else the endpoint, `Stopped` or
    /// `Failed` until now, is `Starting`, and the plan says how to bring
    /// its session up.
    pub fn start_endpoint(&mut self, name: &str) -> (r: Result<StartPlan, ProxyError>)
        requires
            old(self)@.coherent(),
        ensures
            final(self)@.coherent(),
            old(self)@.steps_to(final(self)@),
            match r {
                Ok(plan) => {
                    &&& old(self)@.knows(name@)
                    &&& old(self)@.status(name@) is Stopped || old(self)@.status(name@) is Failed
                    &&& final(self)@ == old(self)@.with_status(name@, EndpointStatus::Starting)
                    &&& plan.starts(old(self)@.endpoints[name@])
                },
                Err(e) => {
                    &&& final(self)@ == old(self)@
                    &&& if !old(self)@.knows(name@) {
                        e.is_of(ErrorKind::ServerNotFound, name@)
                    } else {
                        &&& !(old(self)@.status(name@) is Stopped)
                        &&& !(old(self)@.status(name@) is Failed)
                        &&& e.is_of(ErrorKind::ServerAlreadyRunning, name@)
                    }
                },
            },
    {
        let info = self.registry.get(name)?;
        match info.status {
            EndpointStatus::Stopped | EndpointStatus::Failed => {},
            _ => {
                return Err(ProxyError::server_already_running(name));
            },
        }
        let endpoint = match kind_map_get(&self.endpoints, name) {
            Some(endpoint) => endpoint,
            None => {
                return Err(ProxyError::server_not_found(name));
            },
        };
        match endpoint.start() {
            Ok(plan) => {
                let marked = self.registry.set_status(name, EndpointStatus::Starting);
                Ok(plan)
            },
            Err(e) => Err(e),
        }
    }

    /// Second half of a start. Fails and changes nothing where the
    /// endpoint is unknown (`ServerNotFound`) or is not `Starting`
    /// (`Internal`). Else a connected session is kept and the endpoint is
    /// `Running`; any other outcome makes it `Failed` and comes back as
    /// its typed error.
    pub fn finish_start(&mut self, name: &str, outcome: StartOutcome) -> (r: Result<
        (),
        ProxyError,
    >)
        requires
            old(self)@.coherent(),
        ensures
            final(self)@.coherent(),
            old(self)@.steps_to(final(self)@),
            match r {
                Ok(()) => {
                    &&& old(self)@.knows(name@)
                    &&& old(self)@.status(name@) is Starting
                    &&& outcome matches StartOutcome::Connected(session)
                    &&& final(self)@ == old(self)@.with_session(name@, Some(session)).with_status(
                        name@,
                        EndpointStatus::Running,
                    )
                },
                Err(e) => {
                    if !old(self)@.knows(name@) {
                        final(self)@ == old(self)@ && e.is_of(ErrorKind::ServerNotFound, name@)
                    } else if !(old(self)@.status(name@) is Starting) {
                        final(self)@ == old(self)@ && e.is_of(
                            ErrorKind::Internal,
                            no_pending_detail("start"@, name@),
                        )
                    } else {
                        &&& final(self)@ == old(self)@.with_status(name@, EndpointStatus::Failed)
                        &&& outcome.fails_with(e, name@, old(self)@.endpoints[name@].url())
                    }
                },
            },
    {
        let info = self.registry.get(name)?;
        match info.status {
            EndpointStatus::Starting => {},
            _ => {
                return Err(no_pending("start", name));
            },
        }
        let mut endpoint = match kind_map_get(&self.endpoints, name) {
            Some(endpoint) => endpoint,
            None => {
                return Err(ProxyError::server_not_found(name));
            },
        };
        match endpoint.finish_start(outcome) {
            Ok(()) => {
                kind_map_insert(&mut self.endpoints, name.to_owned(), endpoint);
                let marked = self.registry.set_status(name, EndpointStatus::Running);
                Ok(())
            },
            Err(e) => {
                let marked = self.registry.set_status(name, EndpointStatus::Failed);
                Err(e)
            },
        }
    }

    /// First half of a stop. Fails and changes nothing where the endpoint
    /// is unknown (`ServerNotFound`) or is not running
    /// (`ServerNotRunning`). Else the endpoint is `Stopping`, and its
    /// session is handed out to be closed.
    pub fn stop_endpoint(&mut self, name: &str) -> (r: Result<SessionId, ProxyError>)
        requires
            old(self)@.coherent(),
        ensures
            final(self)@.coherent(),
            old(self)@.steps_to(final(self)@),
            match r {
                Ok(session) => {
                    &&& old(self)@.knows(name@)
                    &&& old(self)@.status(name@) is Running
                    &&& old(self)@.session(name@) == Some(session)
                    &&& final(self)@ == old(self)@.with_session(name@, None).with_status(
                        name@,
                        EndpointStatus::Stopping,
                    )
                },
                Err(e) => {
                    &&& final(self)@ == old(self)@
                    &&& if !old(self)@.knows(name@) {
                        e.is_of(ErrorKind::ServerNotFound, name@)
                    } else {
                        &&& !(old(self)@.status(name@) is Running)
                        &&& e.is_of(ErrorKind::ServerNotRunning, name@)
                    }
                },
            },
    {
        let info = self.registry.get(name)?;
        match info.status {
            EndpointStatus::Running => {},
            _ => {
                return Err(ProxyError::server_not_running(name));
            },
        }
        let mut endpoint = match kind_map_get(&self.endpoints, name) {
            Some(endpoint) => endpoint,
            None => {
                return Err(ProxyError::server_not_found(name));
            },
        };
        match endpoint.stop() {
            Ok(session) => {
                kind_map_insert(&mut self.endpoints, name.to_owned(), endpoint);
                let marked = self.registry.set_status(name, EndpointStatus::Stopping);
                Ok(session)
            },
            Err(e) => Err(e),
        }
    }

    /// Second half of a stop. Fails and changes nothing where the
    /// endpoint is unknown (`ServerNotFound`) or is not `Stopping`
    /// (`Internal`). Else a clean close makes the endpoint `Stopped`; a
    /// close that failed makes it `Failed`, and its error comes back as it
    /// is.
    pub fn finish_stop(&mut self, name: &str, outcome: Result<(), ProxyError>) -> (r: Result<
        (),
        ProxyError,
    >)
        requires
            old(self)@.coherent(),
        ensures
            final(self)@.coherent(),
            old(self)@.steps_to(final(self)@),
            match r {
                Ok(()) => {
                    &&& old(self)@.knows(name@)
                    &&& old(self)@.status(name@) is Stopping
                    &&& outcome is Ok
                    &&& final(self)@ == old(self)@.with_status(name@, EndpointStatus::Stopped)
                },
                Err(e) => {
                    if !old(self)@.knows(name@) {
                        final(self)@ == old(self)@ && e.is_of(ErrorKind::ServerNotFound, name@)
                    } else if !(old(self)@.status(name@) is Stopping) {
                        final(self)@ == old(self)@ && e.is_of(
                            ErrorKind::Internal,
                            no_pending_detail("stop"@, name@),
                        )
                    } else {
                        &&& final(self)@ == old(self)@.with_status(name@, EndpointStatus::Failed)
                        &&& outcome == Err::<(), ProxyError>(e)
                    }
                },
            },
    {
        let info = self.registry.get(name)?;
        match info.status {
            EndpointStatus::Stopping => {},
            _ => {
                return Err(no_pending("stop", name));
            },
        }
        match outcome {
            Ok(()) => {
                let marked = self.registry.set_status(name, EndpointStatus::Stopped);
                Ok(())
            },
            Err(e) => {
                let marked = self.registry.set_status(name, EndpointStatus::Failed);
                Err(e)
            },
        }
    }

    /// Between the two steps of a restart: given how the stop ended, the
    /// pause to make before the start, in milliseconds; or, where the
    /// stop failed, its error, and no start.
    pub fn restart_endpoint(&self, stopped: Result<(), ProxyError>) -> (r: Result<u64, ProxyError>)
        ensures
            match stopped {
                Ok(()) => r == Ok::<u64, ProxyError>(self@.restart_delay_ms),
                Err(e) => r == Err::<u64, ProxyError>(e),
            },
    {
        match stopped {
            Ok(()) => Ok(self.restart_delay_ms),
            Err(e) => Err(e),
        }
    }

    /// The descriptor of the endpoint called `name`.
    pub fn get_endpoint_info(&self, name: &str) -> (r: Result<EndpointInfo, ProxyError>)
        ensures
            match r {
                Ok(info) => self@.knows(name@) && info@ == self@.registry.by_name[name@],
                Err(e) => !self@.knows(name@) && e.is_of(ErrorKind::ServerNotFound, name@),
            },
    {
        self.registry.get(name)
    }

    /// The descriptor of the endpoint that `path` routes to.
    pub fn get_endpoint_info_by_path(&self, path: &str) -> (r: Result<EndpointInfo, ProxyError>)
        requires
            self@.coherent(),
        ensures
            match r {
                Ok(info) => {
                    &&& self@.registry.by_path.contains_key(path@)
                    &&& info@ == self@.registry.by_name[self@.registry.by_path[path@]]
                },
                Err(e) => !self@.registry.by_path.contains_key(path@) && e.is_of(
                    ErrorKind::ServerNotFound,
                    no_route_detail(path@),
                ),
            },
    {
        self.registry.get_by_path(path)
    }

    /// A snapshot of every descriptor, each once, in no particular order.
    pub fn list_endpoints(&self) -> (items: Vec<EndpointInfo>)
        requires
            self@.coherent(),
        ensures
            listed_names(items@).no_duplicates(),
            listed_names(items@).to_set() == self@.registry.by_name.dom(),
            forall|i: int|
                0 <= i < items@.len() ==> (#[trigger] items@[i])@
                    == self@.registry.by_name[items@[i].name@],
    {
        self.registry.list()
    }

    /// A copy of the endpoint called `name`.
    pub fn get_endpoint(&self, name: &str) -> (r: Result<EndpointKind, ProxyError>)
        ensures
            match r {
                Ok(endpoint) => self@.endpoints.contains_key(name@) && endpoint@
                    == self@.endpoints[name@],
                Err(e) => !self@.endpoints.contains_key(name@) && e.is_of(
                    ErrorKind::ServerNotFound,
                    name@,
                ),
            },
    {
        match kind_map_get(&self.endpoints, name) {
            Some(endpoint) => Ok(endpoint),
            None => Err(ProxyError::server_not_found(name)),
        }
    }

    /// Where a caller gets the client of the endpoint called `name` from.
    /// Only a running endpoint has one: it serves from its own session.
    /// For any other, no backend is to be contacted.
    pub fn get_client(&self, name: &str) -> (r: Result<ClientPlan, ProxyError>)
        requires
            self@.coherent(),
        ensures
            match r {
                Ok(plan) => {
                    &&& self@.knows(name@)
                    &&& self@.status(name@) is Running
                    &&& plan matches ClientPlan::Cached(session)
                    &&& self@.session(name@) == Some(session)
                },
                Err(e) => if !self@.knows(name@) {
                    e.is_of(ErrorKind::ServerNotFound, name@)
                } else {
                    !(self@.status(name@) is Running) && e.is_of(
                        ErrorKind::ServerNotRunning,
                        name@,
                    )
                },
            },
    {
        let info = self.registry.get(name)?;
        match info.status {
            EndpointStatus::Running => {},
            _ => {
                return Err(ProxyError::server_not_running(name));
            },
        }
        let endpoint = self.get_endpoint(name)?;
        endpoint.get_or_create_client()
    }

    /// The endpoints to stop when the gateway shuts down: every local
    /// one, each once. A remote endpoint holds nothing of this process
    /// that would need tearing down.
    pub fn shutdown(&self) -> (names: Vec<String>)
        requires
            self@.coherent(),
        ensures
            names_of(names@).no_duplicates(),
            forall|name: Seq<char>|
                names_of(names@).contains(name) <==> self@.knows(name)
                    && self@.registry.by_name[name].endpoint_type is Local,
    {
        let items = self.registry.list();
        let ghost listed = listed_names(items@);
        let mut names: Vec<String> = Vec::new();
        let ghost mut origin: Seq<int> = Seq::empty();
        let mut i: usize = 0;
        while i < items.len()
            invariant
                i <= items.len(),
                listed == listed_names(items@),
                origin.len() == names@.len(),
                forall|k: int|
                    0 <= k < origin.len() ==> 0 <= #[trigger] origin[k] < i && names@[k]@
                        == listed[origin[k]] && items@[origin[k]].endpoint_type is Local,
                forall|k: int, l: int| 0 <= k < l < origin.len() ==> origin[k] < origin[l],
                forall|j: int|
                    0 <= j < i && (#[trigger] items@[j]).endpoint_type is Local ==> exists|k: int|
                        0 <= k < origin.len() && origin[k] == j,
            decreases items.len() - i,
        {
            match items[i].endpoint_type {
                EndpointType::Local => {
                    names.push(items[i].name.clone());
                    proof {
                        let ghost earlier = origin;
                        origin = origin.push(i as int);
                        assert forall|j: int|
                            0 <= j < i + 1 && (#[trigger] items@[j]).endpoint_type
                                is Local implies exists|k: int|
                            0 <= k < origin.len() && origin[k] == j by {
                            if j < i {
                                let k = choose|k: int| 0 <= k < earlier.len() && earlier[k] == j;
                                assert(origin[k] == j);
                            } else {
                                assert(origin[earlier.len() as int] == j);
                            }
                        }
                    }
                },
                EndpointType::Remote => {},
            }
            i += 1;
        }
        proof {
            let found = names_of(names@);
            assert forall|k: int, l: int| 0 <= k < found.len() && 0 <= l < found.len() && k
                != l implies #[trigger] found[k] != #[trigger] found[l] by {
                assert(origin[k] != origin[l]);
                assert(listed[origin[k]] != listed[origin[l]]);
            }
            assert forall|name: Seq<char>|
                found.contains(name) <==> self@.knows(name)
                    && self@.registry.by_name[name].endpoint_type is Local by {
                if found.contains(name) {
                    let k = choose|k: int| 0 <= k < found.len() && found[k] == name;
                    let j = origin[k];
                    assert(listed[j] == name);
                    assert(listed.to_set().contains(listed[j]));
                    assert(items@[j]@ == self@.registry.by_name[items@[j].name@]);
                }
                if self@.knows(name) && self@.registry.by_name[name].endpoint_type is Local {
                    assert(listed.to_set().contains(name));
                    let j = choose|j: int| 0 <= j < listed.len() && listed[j] == name;
                    assert(items@[j]@ == self@.registry.by_name[items@[j].name@]);
                    assert(items@[j].endpoint_type is Local);
                    let k = choose|k: int| 0 <= k < origin.len() && origin[k] == j;
                    assert(found[k] == name);
                }
            }
        }
        names
    }
}

} // verus!
