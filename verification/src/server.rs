//! The broker side: the capacity-one holder of the assignable tunnel
//! connection and the decisions that pair it with an external connection.

pub mod broker;
pub mod config;
pub mod pairer;
pub mod slot;
