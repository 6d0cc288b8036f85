//! The protocols that a host type can implement.

pub mod proto_methods;
pub mod sequence;
