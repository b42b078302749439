//! The lifecycle of an endpoint, in the abstract: what the manager
//! holds, which status changes there are, and what holds of every state
//! the manager can be in.

use vstd::prelude::*;
use crate::config::{
    endpoint_names, endpoint_paths, opt_filter, rejection, AppConfig, EndpointConfig,
    EndpointKindConfig,
};
use crate::endpoint::client_holder::SessionId;
use crate::endpoint::kind::EndpointKindView;
use crate::endpoint::local::LocalEndpointView;
use crate::endpoint::registry::{
    path_taken_detail, EndpointInfoView, EndpointStatus, EndpointType, RegistryView,
};
use crate::endpoint::remote::RemoteEndpointView;
use crate::endpoint::store::{no_endpoints, no_paths};
use crate::error::{ErrorKind, ProxyError};
use crate::text::names_of;

verus! {

/// The status changes that the lifecycle is made of: an endpoint goes
/// from `Stopped` to `Starting` to `Running` to `Stopping` and back to
/// `Stopped`, and from any of the three active states to `Failed`.
pub open spec fn documented_transition(from: EndpointStatus, to: EndpointStatus) -> bool {
    ||| from is Stopped && to is Starting
    ||| from is Starting && to is Running
    ||| from is Running && to is Stopping
    ||| from is Stopping && to is Stopped
    ||| (from is Starting || from is Running || from is Stopping) && to is Failed
}

/// The way out of `Failed`: an explicit start tries again.
pub open spec fn recovery_transition(from: EndpointStatus, to: EndpointStatus) -> bool {
    from is Failed && to is Starting
}

/// What the manager holds.
pub struct ManagerView {
    pub registry: RegistryView,
    pub endpoints: Map<Seq<char>, EndpointKindView>,
    pub restart_delay_ms: u64,
}

impl ManagerView {
    /// Whether an endpoint called `name` is registered.
    pub open spec fn knows(self, name: Seq<char>) -> bool {
        self.registry.by_name.contains_key(name)
    }

    /// The status of the endpoint called `name`.
    pub open spec fn status(self, name: Seq<char>) -> EndpointStatus {
        self.registry.by_name[name].status
    }

    /// The session that the endpoint called `name` runs on, if any.
    pub open spec fn session(self, name: Seq<char>) -> Option<SessionId> {
        self.endpoints[name].session()
    }

    /// Registry and variants agree: they know the same endpoints, under
    /// the same names, paths and kinds, and an endpoint has a session
    /// exactly while its status is `Running`.
    pub open spec fn coherent(self) -> bool {
        &&& self.registry.coherent()
        &&& forall|name: Seq<char>|
            self.endpoints.contains_key(name) <==> #[trigger] self.registry.by_name.contains_key(
                name,
            )
        &&& forall|name: Seq<char>| #[trigger]
            self.registry.by_name.contains_key(name) ==> {
                &&& self.endpoints[name].name() == name
                &&& self.endpoints[name].path() == self.registry.by_name[name].path
                &&& self.endpoints[name].endpoint_type()
                    == self.registry.by_name[name].endpoint_type
                &&& self.endpoints[name].session() is Some <==> self.registry.by_name[name].status
                    == EndpointStatus::Running
            }
    }

    /// The same, with the status of `name` set to `status`.
    pub open spec fn with_status(self, name: Seq<char>, status: EndpointStatus) -> ManagerView {
        ManagerView { registry: self.registry.with_status(name, status), ..self }
    }

    /// The same, with `session` in the slot of `name`.
    pub open spec fn with_session(self, name: Seq<char>, session: Option<SessionId>) -> ManagerView {
        ManagerView {
            endpoints: self.endpoints.insert(name, self.endpoints[name].with_session(session)),
            ..self
        }
    }

    /// Every endpoint known before is known after, and its status is as
    /// before or has moved one step along the lifecycle; every endpoint
    /// that is new starts out `Stopped`.
    pub open spec fn steps_to(self, after: ManagerView) -> bool {
        &&& forall|name: Seq<char>| #[trigger]
            self.knows(name) ==> {
                &&& after.knows(name)
                &&& {
                    ||| after.status(name) == self.status(name)
                    ||| documented_transition(self.status(name), after.status(name))
                    ||| recovery_transition(self.status(name), after.status(name))
                }
            }
        &&& forall|name: Seq<char>| #[trigger]
            after.knows(name) && !self.knows(name) ==> after.status(name) is Stopped
    }
}

/// The kind of endpoint that a configuration record describes.
pub open spec fn kind_of(config: EndpointKindConfig) -> EndpointType {
    match config {
        EndpointKindConfig::Local { command, args, env, auto_start } => EndpointType::Local,
        EndpointKindConfig::Remote { url } => EndpointType::Remote,
    }
}

/// The descriptor under which `config` is registered: stopped, routed
/// under the configured path or else the name.
pub open spec fn descriptor_of(config: EndpointConfig) -> EndpointInfoView {
    EndpointInfoView {
        name: config.name@,
        path: config.route(),
        endpoint_type: kind_of(config.endpoint_type),
        status: EndpointStatus::Stopped,
        tools: opt_filter(config.tools),
    }
}

/// The variant that `config` describes, without a session.
pub open spec fn variant_of(config: EndpointConfig) -> EndpointKindView {
    match config.endpoint_type {
        EndpointKindConfig::Local { command, args, env, auto_start } => EndpointKindView::Local(
            LocalEndpointView {
                name: config.name@,
                path: config.route(),
                command: command@,
                args: names_of(args@),
                env: env@,
                session: None,
            },
        ),
        EndpointKindConfig::Remote { url } => EndpointKindView::Remote(
            RemoteEndpointView {
                name: config.name@,
                path: config.route(),
                url: url@,
                session: None,
            },
        ),
    }
}

/// Whether `config` asks for its endpoint to be started at load time:
/// only a local endpoint can.
pub open spec fn wants_auto_start(config: EndpointConfig) -> bool {
    config.endpoint_type matches EndpointKindConfig::Local { command, args, env, auto_start }
        && auto_start
}

/// The names of the endpoints of `configs` that are started at load
/// time, in the order of `configs`.
pub open spec fn auto_start_names(configs: Seq<EndpointConfig>) -> Seq<Seq<char>>
    decreases configs.len(),
{
    if configs.len() == 0 {
        Seq::empty()
    } else if wants_auto_start(configs.last()) {
        auto_start_names(configs.drop_last()).push(configs.last().name@)
    } else {
        auto_start_names(configs.drop_last())
    }
}

impl ManagerView {
    /// Whether the name or the path of `config` is taken.
    pub open spec fn collides(self, config: EndpointConfig) -> bool {
        self.knows(config.name@) || self.registry.by_path.contains_key(config.route())
    }

    /// Whether `e` is the error for registering `config` here: its name is
    /// taken, or else its path is.
    pub open spec fn collision(self, config: EndpointConfig, e: ProxyError) -> bool {
        if self.knows(config.name@) {
            e.is_of(ErrorKind::ServerAlreadyExists, config.name@)
        } else {
            self.registry.by_path.contains_key(config.route()) && e.is_of(
                ErrorKind::ServerAlreadyExists,
                path_taken_detail(config.route()),
            )
        }
    }

    /// The same, with the endpoint of `config` added.
    pub open spec fn with_endpoint(self, config: EndpointConfig) -> ManagerView {
        ManagerView {
            registry: self.registry.with(descriptor_of(config)),
            endpoints: self.endpoints.insert(config.name@, variant_of(config)),
            ..self
        }
    }

    /// The same, with the endpoints of `configs` added one after the other.
    pub open spec fn after(self, configs: Seq<EndpointConfig>) -> ManagerView
        decreases configs.len(),
    {
        if configs.len() == 0 {
            self
        } else {
            self.after(configs.drop_last()).with_endpoint(configs.last())
        }
    }

    /// Whether the endpoints of `configs` can be added one after the
    /// other without any name or path being taken.
    pub open spec fn admits(self, configs: Seq<EndpointConfig>) -> bool {
        forall|k: int|
            0 <= k < configs.len() ==> !(#[trigger] self.after(configs.take(k))).collides(
                configs[k],
            )
    }
}

/// A status that changes between two states of the manager, and was not
/// `Failed` before, changes along the documented lifecycle.
pub proof fn lemma_step_follows_lifecycle(before: ManagerView, after: ManagerView, name: Seq<char>)
    requires
        before.steps_to(after),
        before.knows(name),
        !(before.status(name) is Failed),
        after.status(name) != before.status(name),
    ensures
        documented_transition(before.status(name), after.status(name)),
{
}

/// No single step takes an endpoint from `Stopped` to `Running`: it has
/// to be `Starting` in between.
pub proof fn lemma_stopped_never_runs_directly(
    before: ManagerView,
    after: ManagerView,
    name: Seq<char>,
)
    requires
        before.steps_to(after),
        before.knows(name),
        before.status(name) is Stopped,
    ensures
        !(after.status(name) is Running),
        after.status(name) is Stopped || after.status(name) is Starting,
{
}

/// In a coherent manager, an endpoint has a session exactly while its
/// status is `Running`.
pub proof fn lemma_running_iff_session(manager: ManagerView, name: Seq<char>)
    requires
        manager.coherent(),
        manager.knows(name),
    ensures
        manager.session(name) is Some <==> manager.status(name) is Running,
{
}

/// In a coherent registry, two endpoints with the same path are the same
/// endpoint.
pub proof fn lemma_paths_are_unique(registry: RegistryView, first: Seq<char>, second: Seq<char>)
    requires
        registry.coherent(),
        registry.by_name.contains_key(first),
        registry.by_name.contains_key(second),
        registry.by_name[first].path == registry.by_name[second].path,
    ensures
        first == second,
{
}

/// A sequence holds an item where its front does or its last item is it.
proof fn lemma_contains_last(s: Seq<Seq<char>>, x: Seq<char>)
    requires
        s.len() > 0,
    ensures
        s.contains(x) <==> s.drop_last().contains(x) || s.last() == x,
{
    if s.contains(x) {
        let i = choose|i: int| 0 <= i < s.len() && s[i] == x;
        if i < s.len() - 1 {
            assert(s.drop_last()[i] == x);
        }
    }
    if s.drop_last().contains(x) {
        let i = choose|i: int| 0 <= i < s.drop_last().len() && s.drop_last()[i] == x;
        assert(s[i] == x);
    }
    if s.last() == x {
        assert(s[s.len() - 1] == x);
    }
}

/// A name is taken after the endpoints of `configs` were added where it
/// was taken before or is the name of one of them.
pub proof fn lemma_after_takes_names(
    manager: ManagerView,
    configs: Seq<EndpointConfig>,
    name: Seq<char>,
)
    ensures
        manager.after(configs).knows(name) <==> manager.knows(name) || endpoint_names(
            configs,
        ).contains(name),
    decreases configs.len(),
{
    let names = endpoint_names(configs);
    if configs.len() == 0 {
        assert(!names.contains(name));
    } else {
        let earlier = configs.drop_last();
        lemma_after_takes_names(manager, earlier, name);
        assert(endpoint_names(earlier) =~= names.drop_last());
        assert(names.last() == configs.last().name@);
        lemma_contains_last(names, name);
    }
}

/// A path is taken after the endpoints of `configs` were added where it
/// was taken before or is the path of one of them.
pub proof fn lemma_after_takes_paths(
    manager: ManagerView,
    configs: Seq<EndpointConfig>,
    path: Seq<char>,
)
    ensures
        manager.after(configs).registry.by_path.contains_key(path)
            <==> manager.registry.by_path.contains_key(path) || endpoint_paths(configs).contains(
            path,
        ),
    decreases configs.len(),
{
    let paths = endpoint_paths(configs);
    if configs.len() == 0 {
        assert(!paths.contains(path));
    } else {
        let earlier = configs.drop_last();
        lemma_after_takes_paths(manager, earlier, path);
        assert(endpoint_paths(earlier) =~= paths.drop_last());
        assert(paths.last() == configs.last().route());
        lemma_contains_last(paths, path);
    }
}

/// A configuration that passes validation registers whole: a manager
/// without endpoints admits every one of its endpoints. So a name or a
/// path that is taken shows at load time, never later.
pub proof fn lemma_valid_config_is_admitted(manager: ManagerView, config: AppConfig)
    requires
        manager.registry.by_name == no_endpoints(),
        manager.registry.by_path == no_paths(),
        rejection(config) is None,
    ensures
        manager.admits(config.endpoints@),
{
    let configs = config.endpoints@;
    let names = endpoint_names(configs);
    let paths = endpoint_paths(configs);
    assert(names.no_duplicates());
    assert(paths.no_duplicates());
    assert forall|k: int| 0 <= k < configs.len() implies !(#[trigger] manager.after(
        configs.take(k),
    )).collides(configs[k]) by {
        let front = configs.take(k);
        lemma_after_takes_names(manager, front, names[k]);
        lemma_after_takes_paths(manager, front, paths[k]);
        assert(endpoint_names(front) =~= names.take(k));
        assert(endpoint_paths(front) =~= paths.take(k));
        assert(names[k] == configs[k].name@);
        assert(paths[k] == configs[k].route());
        if names.take(k).contains(names[k]) {
            let i = choose|i: int| 0 <= i < names.take(k).len() && names.take(k)[i] == names[k];
            assert(names[i] == names[k]);
        }
        if paths.take(k).contains(paths[k]) {
            let i = choose|i: int| 0 <= i < paths.take(k).len() && paths.take(k)[i] == paths[k];
            assert(paths[i] == paths[k]);
        }
        assert(!manager.knows(names[k]));
        assert(!manager.registry.by_path.contains_key(paths[k]));
    }
}

/// Detail of the error for an outcome that no operation is waiting for.
pub open spec fn no_pending_detail(step: Seq<char>, name: Seq<char>) -> Seq<char> {
    "no "@ + step + " in progress for "@ + name
}

} // verus!
