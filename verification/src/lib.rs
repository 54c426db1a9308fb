//! The logic of a bridge between a host application and message-oriented connections:
//! how a connection is prepared, which route its byte stream takes, what is done about
//! each thing read off it, and where a message to send goes.
//!
//! Nothing here touches a socket. The caller does the reading and writing and asks this
//! library what to do next.

pub mod builder;
pub mod config;
pub mod connect;
pub mod error;
pub mod lifecycle;
pub mod message;
pub mod proxy;
pub mod pump;
pub mod registry;
pub mod request;
pub mod text;
pub mod tunnel;
