//! A user-space TCP endpoint core: the handshake state machine, ring-ordered
//! acknowledgment validation, flow demultiplexing and segment construction.
pub mod seq;
pub mod wire;
pub mod connection;
pub mod table;
