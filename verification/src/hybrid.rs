//! The hybrid execution mode: programs compiled ahead of time, with global slots and one
//! hook through which the running program calls foreign logic.

pub mod api;
pub mod provider;
