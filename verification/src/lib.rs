//! A last-in-first-out stack kept as a singly linked chain of boxed nodes.

pub mod laws;
pub mod stack;
