//! The path router: from a routing path to the endpoint it names, the
//! tool filter of that endpoint, and the client to reach it with.

use vstd::prelude::*;
use crate::config::{clone_filter, opt_filter, ToolFilter};
use crate::endpoint::lifecycle::ManagerView;
use crate::endpoint::manager::EndpointManager;
use crate::endpoint::plan::ClientPlan;
use crate::endpoint::registry::no_route_detail;
use crate::error::{ErrorKind, ProxyError};

verus! {

/// The router over the endpoints of one manager. It keeps no table of
/// its own: a path routes to the endpoint registered under it.
pub struct PathRouter<'a> {
    manager: &'a EndpointManager,
}

impl<'a> View for PathRouter<'a> {
    type V = ManagerView;

    closed spec fn view(&self) -> ManagerView {
        self.manager@
    }
}

impl ManagerView {
    /// Whether `path` routes to an endpoint.
    pub open spec fn routes(self, path: Seq<char>) -> bool {
        self.registry.by_path.contains_key(path)
    }

    /// The name of the endpoint that `path` routes to.
    pub open spec fn target(self, path: Seq<char>) -> Seq<char> {
        self.registry.by_path[path]
    }
}

impl<'a> PathRouter<'a> {
    pub fn new(manager: &'a EndpointManager) -> (router: PathRouter<'a>)
        ensures
            router@ == manager@,
    {
        PathRouter { manager }
    }

    /// The endpoint that `path` routes to, by name, and its tool filter.
    pub fn get_route(&self, path: &str) -> (r: Result<(String, Option<ToolFilter>), ProxyError>)
        requires
            self@.coherent(),
        ensures
            match r {
                Ok((name, filter)) => {
                    &&& self@.routes(path@)
                    &&& name@ == self@.target(path@)
                    &&& opt_filter(filter) == self@.registry.by_name[name@].tools
                },
                Err(e) => !self@.routes(path@) && e.is_of(
                    ErrorKind::ServerNotFound,
                    no_route_detail(path@),
                ),
            },
    {
        let info = self.manager.get_endpoint_info_by_path(path)?;
        Ok((info.name, info.tools))
    }

    /// The client for the endpoint that `path` routes to, and its tool
    /// filter. Only a running endpoint has a client; for any other, and
    /// for a path that routes nowhere, no backend is to be contacted.
    pub fn get_client(&self, path: &str) -> (r: Result<(ClientPlan, Option<ToolFilter>), ProxyError>)
        requires
            self@.coherent(),
        ensures
            match r {
                Ok((plan, filter)) => {
                    &&& self@.routes(path@)
                    &&& self@.status(self@.target(path@)) is Running
                    &&& plan matches ClientPlan::Cached(session)
                    &&& self@.session(self@.target(path@)) == Some(session)
                    &&& opt_filter(filter) == self@.registry.by_name[self@.target(path@)].tools
                },
                Err(e) => if !self@.routes(path@) {
                    e.is_of(ErrorKind::ServerNotFound, no_route_detail(path@))
                } else {
                    &&& !(self@.status(self@.target(path@)) is Running)
                    &&& e.is_of(ErrorKind::ServerNotRunning, self@.target(path@))
                },
            },
    {
        let (name, filter) = self.get_route(path)?;
        let plan = self.manager.get_client(name.as_str())?;
        Ok((plan, filter))
    }

    /// Every route, as a path and the name of the endpoint it routes to;
    /// each once, in no particular order.
    pub fn list_routes(&self) -> (routes: Vec<(String, String)>)
        requires
            self@.coherent(),
        ensures
            routes@.len() == self@.registry.by_name.dom().len(),
            forall|i: int|
                0 <= i < routes@.len() ==> {
                    &&& self@.routes((#[trigger] routes@[i]).0@)
                    &&& routes@[i].1@ == self@.target(routes@[i].0@)
                },
            forall|i: int, j: int|
                0 <= i < j < routes@.len() ==> (#[trigger] routes@[i]).0@ != (
                #[trigger] routes@[j]).0@,
    {
        let items = self.manager.list_endpoints();
        let ghost listed = crate::endpoint::registry::listed_names(items@);
        proof {
            listed.unique_seq_to_set();
        }
        let mut routes: Vec<(String, String)> = Vec::new();
        let mut i: usize = 0;
        while i < items.len()
            invariant
                i <= items.len(),
                self@.coherent(),
                listed == crate::endpoint::registry::listed_names(items@),
                listed.no_duplicates(),
                listed.to_set() == self@.registry.by_name.dom(),
                forall|k: int|
                    0 <= k < items@.len() ==> (#[trigger] items@[k])@
                        == self@.registry.by_name[items@[k].name@],
                routes@.len() == i,
                forall|k: int|
                    0 <= k < i ==> (#[trigger] routes@[k]).0@ == items@[k].path@ && routes@[k].1@
                        == items@[k].name@,
            decreases items.len() - i,
        {
            routes.push((items[i].path.clone(), items[i].name.clone()));
            i += 1;
        }
        proof {
            assert forall|k: int| 0 <= k < routes@.len() implies self@.routes(
                (#[trigger] routes@[k]).0@,
            ) && routes@[k].1@ == self@.target(routes@[k].0@) by {
                assert(listed.to_set().contains(listed[k]));
                assert(items@[k]@ == self@.registry.by_name[items@[k].name@]);
            }
            assert forall|k: int, l: int| 0 <= k < l < routes@.len() implies (
            #[trigger] routes@[k]).0@ != (#[trigger] routes@[l]).0@ by {
                assert(listed.to_set().contains(listed[k]));
                assert(listed.to_set().contains(listed[l]));
                assert(items@[k]@ == self@.registry.by_name[items@[k].name@]);
                assert(items@[l]@ == self@.registry.by_name[items@[l].name@]);
                assert(listed[k] != listed[l]);
            }
        }
        routes
    }
}

} // verus!
