//! A single-socket UDP session driver: one datagram buffer, one binding of a
//! source port, periodic sends to a fixed destination, and reports of what
//! arrives.

pub mod buffer;
pub mod endpoint;
pub mod port_table;
pub mod session;
