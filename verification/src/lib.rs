//! Verified core of a high-level MAVLink communication library.

pub mod broadcast;
pub mod callback;
pub mod closable;
pub mod consts;
pub mod error;
pub mod errors;
pub mod flipper;
pub mod marker;
pub mod mpmc;
pub mod mpsc_rw;
pub mod network;
pub mod node;
pub mod node_builder;
pub mod node_conf;
pub mod protocol;
pub mod retry;
pub mod ring;
pub mod routing;
pub mod sealed;
pub mod transport;
pub mod unique_id;
