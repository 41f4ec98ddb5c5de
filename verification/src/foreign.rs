//! What this crate knows of the host's side: addresses it keeps and hands back.

use vstd::prelude::*;

verus! {

/// The address of a routine of the host. This crate stores such addresses and names them
/// in the requests it hands out; it never calls through one.
#[derive(Clone, Copy, Debug, PartialEq, Eq, Structural)]
pub struct ForeignFn {
    pub addr: usize,
}

/// A destructor that is due: the routine to call, and the datum to call it with.
#[derive(Clone, Copy, Debug, PartialEq, Eq, Structural)]
pub struct DestructorCall {
    pub routine: ForeignFn,
    pub data: usize,
}

/// The call that releasing an owner of `data` owes, given the destructor it holds.
pub open spec fn destructor_due(destructor: Option<ForeignFn>, data: usize) -> Option<
    DestructorCall,
> {
    match destructor {
        Some(routine) => Some(DestructorCall { routine, data }),
        None => None,
    }
}

} // verus!
