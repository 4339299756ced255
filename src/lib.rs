//! A transport-agnostic facade over one pluggable peer-to-peer backend.
//!
//! A connection is configured with a backend-kind tag and an opaque backend
//! configuration string. The facade selects a backend constructor from the
//! kind, hosts the constructed backend worker in a bridge that forwards
//! outbound messages in order and hands inbound messages to a handler, and
//! tears the backend down on `stop`.

mod config;
mod connection;
mod error;
mod mock;
mod network;
mod worker;

pub use config::{P2pBackendKind, P2pConfig};
pub use connection::NetConnection;
pub use error::NetError;
pub use mock::MockWorker;
pub use network::P2pNetwork;
pub use worker::{NetHandler, NetWorker, RecordingHandler};
