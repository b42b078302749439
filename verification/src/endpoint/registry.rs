//! The endpoint registry: every configured endpoint under its name, with
//! its routing path, its kind, its status and its tool filter.

use dashmap::DashMap;
use vstd::prelude::*;
use crate::config::{clone_filter, opt_filter, ToolFilter, ToolFilterView};
use crate::endpoint::store::{
    info_entries, info_map_contains, info_map_get, info_map_insert, info_map_items, info_map_new,
    listed_keys, no_endpoints, no_paths, path_entries, path_map_get, path_map_insert, path_map_new,
};
use crate::error::{ErrorKind, ProxyError};
use crate::text::join2;

verus! {

/// Lifecycle status of a registered endpoint.
#[derive(Clone, Copy, Debug, PartialEq, Eq, Structural)]
pub enum EndpointStatus {
    Starting,
    Running,
    Stopping,
    Stopped,
    Failed,
}

/// The two kinds of endpoint.
#[derive(Clone, Copy, Debug, PartialEq, Eq, Structural)]
pub enum EndpointType {
    Local,
    Remote,
}

/// The descriptor of a registered endpoint.
#[derive(Debug)]
pub struct EndpointInfo {
    pub name: String,
    pub path: String,
    pub endpoint_type: EndpointType,
    pub status: EndpointStatus,
    pub tools: Option<ToolFilter>,
}

/// A descriptor with its strings as sequences of characters.
pub struct EndpointInfoView {
    pub name: Seq<char>,
    pub path: Seq<char>,
    pub endpoint_type: EndpointType,
    pub status: EndpointStatus,
    pub tools: Option<ToolFilterView>,
}

impl View for EndpointInfo {
    type V = EndpointInfoView;

    open spec fn view(&self) -> EndpointInfoView {
        EndpointInfoView {
            name: self.name@,
            path: self.path@,
            endpoint_type: self.endpoint_type,
            status: self.status,
            tools: opt_filter(self.tools),
        }
    }
}

impl Clone for EndpointInfo {
    fn clone(&self) -> (copy: EndpointInfo)
        ensures
            copy@ == self@,
    {
        EndpointInfo {
            name: self.name.clone(),
            path: self.path.clone(),
            endpoint_type: self.endpoint_type,
            status: self.status,
            tools: clone_filter(&self.tools),
        }
    }
}

impl EndpointStatus {
    /// The lowercase token that stands for this status on the wire.
    pub open spec fn token(self) -> Seq<char> {
        match self {
            EndpointStatus::Starting => "starting"@,
            EndpointStatus::Running => "running"@,
            EndpointStatus::Stopping => "stopping"@,
            EndpointStatus::Stopped => "stopped"@,
            EndpointStatus::Failed => "failed"@,
        }
    }

    /// The lowercase token that stands for this status on the wire.
    pub fn as_str(&self) -> (token: &'static str)
        ensures
            token@ == self.token(),
    {
        match self {
            EndpointStatus::Starting => "starting",
            EndpointStatus::Running => "running",
            EndpointStatus::Stopping => "stopping",
            EndpointStatus::Stopped => "stopped",
            EndpointStatus::Failed => "failed",
        }
    }
}

impl EndpointType {
    /// The lowercase token that stands for this kind on the wire.
    pub open spec fn token(self) -> Seq<char> {
        match self {
            EndpointType::Local => "local"@,
            EndpointType::Remote => "remote"@,
        }
    }

    /// The lowercase token that stands for this kind on the wire.
    pub fn as_str(&self) -> (token: &'static str)
        ensures
            token@ == self.token(),
    {
        match self {
            EndpointType::Local => "local",
            EndpointType::Remote => "remote",
        }
    }
}

/// What a registry holds: the descriptors by name, and the names by path.
pub struct RegistryView {
    pub by_name: Map<Seq<char>, EndpointInfoView>,
    pub by_path: Map<Seq<char>, Seq<char>>,
}

impl RegistryView {
    /// Every descriptor stands under its own name and is indexed under its
    /// own path, and the index holds nothing else. So no two endpoints
    /// share a name or a path.
    pub open spec fn coherent(self) -> bool {
        &&& self.by_name.dom().finite()
        &&& forall|name: Seq<char>| #[trigger]
            self.by_name.contains_key(name) ==> {
                &&& self.by_name[name].name == name
                &&& self.by_path.contains_key(self.by_name[name].path)
                &&& self.by_path[self.by_name[name].path] == name
            }
        &&& forall|path: Seq<char>| #[trigger]
            self.by_path.contains_key(path) ==> {
                &&& self.by_name.contains_key(self.by_path[path])
                &&& self.by_name[self.by_path[path]].path == path
            }
    }

    /// The registry after `info` was added under its name and path.
    pub open spec fn with(self, info: EndpointInfoView) -> RegistryView {
        RegistryView {
            by_name: self.by_name.insert(info.name, info),
            by_path: self.by_path.insert(info.path, info.name),
        }
    }

    /// The registry after the status of `name` was set to `status`.
    pub open spec fn with_status(self, name: Seq<char>, status: EndpointStatus) -> RegistryView {
        RegistryView {
            by_name: self.by_name.insert(
                name,
                EndpointInfoView { status: status, ..self.by_name[name] },
            ),
            by_path: self.by_path,
        }
    }
}

/// The registry of endpoints.
pub struct EndpointRegistry {
    endpoints: DashMap<String, EndpointInfo>,
    paths: DashMap<String, String>,
}

impl View for EndpointRegistry {
    type V = RegistryView;

    closed spec fn view(&self) -> RegistryView {
        RegistryView { by_name: info_entries(self.endpoints), by_path: path_entries(self.paths) }
    }
}

impl EndpointRegistry {
    /// A registry with no endpoint.
    pub fn new() -> (registry: EndpointRegistry)
        ensures
            registry@.by_name == no_endpoints(),
            registry@.by_path == no_paths(),
            registry@.coherent(),
    {
        EndpointRegistry { endpoints: info_map_new(), paths: path_map_new() }
    }

    /// Registers an endpoint as `Stopped`. Fails, and changes nothing,
    /// where the name is taken, and then where the path is taken.
    pub fn register(
        &mut self,
        name: String,
        path: String,
        endpoint_type: EndpointType,
        tools: Option<ToolFilter>,
    ) -> (r: Result<(), ProxyError>)
        requires
            old(self)@.coherent(),
        ensures
            final(self)@.coherent(),
            match r {
                Ok(()) => {
                    &&& !old(self)@.by_name.contains_key(name@)
                    &&& !old(self)@.by_path.contains_key(path@)
                    &&& final(self)@ == old(self)@.with(
                        EndpointInfoView {
                            name: name@,
                            path: path@,
                            endpoint_type: endpoint_type,
                            status: EndpointStatus::Stopped,
                            tools: opt_filter(tools),
                        },
                    )
                },
                Err(e) => {
                    &&& final(self)@ == old(self)@
                    &&& if old(self)@.by_name.contains_key(name@) {
                        e.is_of(ErrorKind::ServerAlreadyExists, name@)
                    } else {
                        old(self)@.by_path.contains_key(path@) && e.is_of(
                            ErrorKind::ServerAlreadyExists,
                            path_taken_detail(path@),
                        )
                    }
                },
            },
    {
        if info_map_contains(&self.endpoints, name.as_str()) {
            return Err(ProxyError::ServerAlreadyExists(name));
        }
        if path_map_get(&self.paths, path.as_str()).is_some() {
            return Err(ProxyError::ServerAlreadyExists(join2("path ", path.as_str())));
        }
        let info = EndpointInfo {
            name: name.clone(),
            path: path.clone(),
            endpoint_type,
            status: EndpointStatus::Stopped,
            tools,
        };
        path_map_insert(&mut self.paths, path, name.clone());
        info_map_insert(&mut self.endpoints, name, info);
        proof {
            assert(self@.by_name.dom() =~= old(self)@.by_name.dom().insert(name@));
        }
        Ok(())
    }

    /// The descriptor of the endpoint called `name`.
    pub fn get(&self, name: &str) -> (r: Result<EndpointInfo, ProxyError>)
        ensures
            match r {
                Ok(info) => self@.by_name.contains_key(name@) && info@ == self@.by_name[name@],
                Err(e) => !self@.by_name.contains_key(name@) && e.is_of(
                    ErrorKind::ServerNotFound,
                    name@,
                ),
            },
    {
        match info_map_get(&self.endpoints, name) {
            Some(info) => Ok(info),
            None => Err(ProxyError::server_not_found(name)),
        }
    }

    /// The descriptor of the endpoint that `path` routes to.
    pub fn get_by_path(&self, path: &str) -> (r: Result<EndpointInfo, ProxyError>)
        requires
            self@.coherent(),
        ensures
            match r {
                Ok(info) => self@.by_path.contains_key(path@) && info@ == self@.by_name[self@.by_path[path@]],
                Err(e) => !self@.by_path.contains_key(path@) && e.is_of(
                    ErrorKind::ServerNotFound,
                    no_route_detail(path@),
                ),
            },
    {
        match path_map_get(&self.paths, path) {
            Some(name) => match info_map_get(&self.endpoints, name.as_str()) {
                Some(info) => Ok(info),
                None => {
                    proof {
                        assert(self@.by_name.contains_key(self@.by_path[path@]));
                    }
                    Err(ProxyError::server_not_found(name.as_str()))
                },
            },
            None => Err(ProxyError::ServerNotFound(join2("No endpoint at path: ", path))),
        }
    }

    /// Sets the status of the endpoint called `name`.
    pub fn set_status(&mut self, name: &str, status: EndpointStatus) -> (r: Result<
        (),
        ProxyError,
    >)
        requires
            old(self)@.coherent(),
        ensures
            final(self)@.coherent(),
            match r {
                Ok(()) => old(self)@.by_name.contains_key(name@) && final(self)@ == old(
                    self,
                )@.with_status(name@, status),
                Err(e) => {
                    &&& !old(self)@.by_name.contains_key(name@)
                    &&& final(self)@ == old(self)@
                    &&& e.is_of(ErrorKind::ServerNotFound, name@)
                },
            },
    {
        match info_map_get(&self.endpoints, name) {
            Some(info) => {
                let updated = EndpointInfo { status, ..info };
                info_map_insert(&mut self.endpoints, name.to_owned(), updated);
                proof {
                    assert(self@.by_name.dom() =~= old(self)@.by_name.dom());
                }
                Ok(())
            },
            None => Err(ProxyError::server_not_found(name)),
        }
    }

    /// A snapshot of every descriptor, each once, in no particular order.
    pub fn list(&self) -> (items: Vec<EndpointInfo>)
        requires
            self@.coherent(),
        ensures
            listed_names(items@).no_duplicates(),
            listed_names(items@).to_set() == self@.by_name.dom(),
            forall|i: int|
                0 <= i < items@.len() ==> (#[trigger] items@[i])@ == self@.by_name[items@[i].name@],
    {
        let pairs = info_map_items(&self.endpoints);
        let ghost keys = listed_keys(pairs@);
        let mut items: Vec<EndpointInfo> = Vec::new();
        for pair in iter: pairs.into_iter()
            invariant
                iter.seq() == pairs@,
                keys == listed_keys(pairs@),
                items@.len() == iter.index(),
                forall|k: int| 0 <= k < items@.len() ==> (#[trigger] items@[k]) == pairs@[k].1,
        {
            items.push(pair.1);
        }
        proof {
            assert forall|i: int| 0 <= i < items@.len() implies (#[trigger] items@[i]).name@
                == keys[i] && items@[i]@ == self@.by_name[keys[i]] by {
                assert(pairs@[i].1@ == self@.by_name[pairs@[i].0@]);
                assert(keys.to_set().contains(keys[i]));
            }
            assert(listed_names(items@) =~= keys);
        }
        items
    }
}

/// Detail of the error for a path that another endpoint already routes.
pub open spec fn path_taken_detail(path: Seq<char>) -> Seq<char> {
    "path "@ + path
}

/// Detail of the error for a path that no endpoint routes.
pub open spec fn no_route_detail(path: Seq<char>) -> Seq<char> {
    "No endpoint at path: "@ + path
}

/// The names of the descriptors of `items`, in order.
pub open spec fn listed_names(items: Seq<EndpointInfo>) -> Seq<Seq<char>> {
    Seq::new(items.len(), |i: int| items[i].name@)
}

} // verus!
