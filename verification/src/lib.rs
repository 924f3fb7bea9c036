//! A minimal HTTP/1.1 GET file server, split into verified logic and a thin
//! I/O shell. This crate holds the verified part: request parsing, path
//! resolution, response construction, and the state machines that coordinate
//! the worker pool and the server lifecycle.

pub mod errors;
pub mod http;
pub mod lifecycle;
pub mod pool;
