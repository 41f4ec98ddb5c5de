//! The embedding boundary of a managed virtual machine.
//!
//! A host program creates executors, loads functions, invokes them and extends the
//! machine's object model with objects of its own. This crate holds the rules of that
//! boundary: how values cross it, how a function body is admitted, how a foreign-backed
//! object answers the machine, and how every failure inside the machine becomes a status
//! code and a diagnostic. The machine itself, and every call through a foreign address,
//! stay with the embedding program: it hands this crate plain values and acts on what it
//! gets back.

pub mod fault;
pub mod foreign;
pub mod hybrid;
pub mod ort;
pub mod text;
pub mod width;
