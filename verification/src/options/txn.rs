//! The conditions and operations a transaction is made of.

pub mod compare;
pub mod op;
