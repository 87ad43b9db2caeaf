//! The connection state machine of a user-space TCP: wrap-aware arithmetic on
//! 32-bit sequence numbers, the acceptance tests applied to every inbound
//! segment, and the transitions that a passively opened connection makes.

pub mod segment;
pub mod seq;
pub mod tcp;
pub mod wire;
