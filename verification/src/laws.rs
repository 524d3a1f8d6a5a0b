//! The laws that relate the operations of the syntax nodes to each other.

pub mod agreement;
pub mod containment;
pub mod faithful;
pub mod lexing;
pub mod round_trip;
