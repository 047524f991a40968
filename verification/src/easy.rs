//! Types used together with an easy handle.
pub mod websockets;
