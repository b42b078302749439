//! Endpoints: the registry that describes them, the two variants that
//! bring their sessions up and down, and the manager that owns the
//! lifecycle rules.

pub mod client_holder;
pub mod kind;
pub mod lifecycle;
pub mod local;
pub mod manager;
pub mod plan;
pub mod registry;
pub mod remote;
pub mod store;

pub use self::kind::EndpointKind;
pub use self::local::LocalEndpoint;
pub use self::manager::EndpointManager;
pub use self::registry::{
    EndpointInfo, EndpointInfoView, EndpointRegistry, EndpointStatus, EndpointType,
};
pub use self::remote::{RemoteEndpoint, RemoteMcpServer};
