//! Decision logic for the test support of a service-mesh proxy: a service that
//! fails over while its primary is not ready, the client that tests drive the
//! proxy with, and the identity controller that answers its certificate
//! requests.
//!
//! Nothing here performs I/O. Polling, sockets, timers and tasks belong to the
//! caller, which hands in what happened and is told what to do next.
pub mod certificates;
pub mod client;
pub mod client_laws;
pub mod connect;
pub mod controller;
pub mod identity;
pub mod identity_laws;
pub mod policy;
pub mod switch_laws;
pub mod switch_ready;
pub mod tls;
pub mod uri;
