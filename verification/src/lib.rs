//! WebSocket frame metadata and option handling for the libcurl bindings.
pub mod easy;
