//! Remote addressing, envelope dispatch, address resolution and cluster
//! membership for actors that talk to each other across nodes.

pub mod addr;
pub mod cluster;
pub mod config;
pub mod dispatch;
pub mod handler;
pub mod network;
pub mod resolver;

pub use addr::{AnyAddr, LocalHandle, PeerAddr, RemoteAddr, Route};
pub use cluster::{broadcast, ClusterLog, Membership};
pub use config::{Config, DEFAULT_SERIALIZER};
pub use dispatch::{Diagnostic, DispatchEntry, DispatchTable, Inbound, RegisterError, RemoteWrapper};
pub use handler::{Delivery, MessageWithResponse, ResponseEnvelope};
pub use network::NetworkInterface;
pub use resolver::{
    AddrRepresentation, AddrRequest, AddrResolver, AddrResponse, FailureReason, Resolution,
    ResolverEvent,
};
