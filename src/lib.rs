//! Transport composition for a network relay: from the two half
//! configurations of a relay path (listen side, remote side) and their
//! resolved addresses, decide which acceptor and connector to build, with
//! which crypto settings and which transport wrapper.
//!
//! The values built here are descriptions of sockets and sessions; binding,
//! dialing and resolving are left to the caller.

pub mod addr;
pub mod config;
pub mod net;
pub mod tls;
pub mod transport;
