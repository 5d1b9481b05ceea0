//! Periodic network-presence registration for a caching service.
//!
//! The library holds the verified core of a small announce daemon: address
//! modelling and broadcast computation, the textual registration messages,
//! the fully-qualified-hostname selection heuristic, and the registrar's
//! lifecycle decisions.  The surrounding process (sockets, DNS, signals,
//! the command line) feeds these functions plain values and carries out the
//! actions they decide on.

pub mod addr;
pub mod fqdn;
pub mod msg;
pub mod paths;
pub mod registrar;
