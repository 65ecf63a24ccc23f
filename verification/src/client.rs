//! The tunnel client side: the loop that keeps one connection to the broker
//! and one to the local service bridged.

pub mod config;
pub mod tunnel;
