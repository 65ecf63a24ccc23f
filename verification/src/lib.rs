//! A reverse TCP tunnel, written as I/O-free decision logic.
//!
//! A broker exposes a public listener and a tunnel listener. It holds at most
//! one tunnel connection at a time and pairs it with the next external
//! connection; a tunnel client keeps one outbound connection to the broker and
//! bridges it to a local service. Nothing in this crate touches a socket: each
//! module takes what a driver observed (a read finished, a probe failed, a
//! connect succeeded) and answers with the next state and the operation the
//! driver performs next.

pub mod client;
pub mod relay;
pub mod server;
pub mod session;
