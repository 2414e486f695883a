//! Building blocks of a TCP proxy that relays bytes between a client and an
//! upstream server through pluggable adapters: the relay state machine of one
//! direction of a connection, the adapters that decide when an exchange ends,
//! the proxy's configuration, and a tracer that times named steps and renders
//! a report of them.

pub mod text;
pub mod clock;
pub mod order;
pub mod tracer;
pub mod elapsed;
pub mod adapter;
pub mod pipe;
pub mod http;
pub mod proxy;
