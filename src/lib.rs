//! Decision logic of a TCP to local-IPC byte forwarder: who may connect,
//! what a relay direction does after each I/O completion, and when the
//! accept loop stops.

pub mod admission;
pub mod relay;
pub mod dispatch;
