//! Marshalling core of a bridge between a host runtime and a native
//! key-value-store client.

pub mod connection;
pub mod error;
pub mod response;
pub mod value;
pub mod decoder;
pub mod lifecycle;
pub mod command;
pub mod serialized;
