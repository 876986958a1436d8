//! A tactical datalink prototype: clients exchange messages through a relay
//! server over mutually authenticated TLS. This library holds the link's
//! logic: the text protocol, the server's per-connection decisions, the
//! statements against its user table, its activity log and operator
//! console, the configuration, and the reading of TLS credentials.
pub mod client;
pub mod config;
pub mod console;
pub mod journal;
pub mod protocol;
pub mod registry;
pub mod session;
pub mod sql;
pub mod text;
pub mod tls;
