//! Loading a hybrid program and reaching its global slots.
//!
//! The slots belong to the executor that runs the program: each holds a 64-bit word,
//! and a slot that was never written holds the zero word. The host writes and reads 32
//! bits: a write stores the value as a word, a read yields the low 32 bits of the word,
//! so an unwritten slot reads as 0 whatever the program keeps in it.

use crate::foreign::ForeignFn;
use crate::hybrid::provider::GenericJitProvider;
use crate::width::{low_32, low_u32};
use vstd::prelude::*;

verus! {

/// The routine that a program's provider calls: the host's own, or the default where the
/// host supplied none.
pub open spec fn invoke_routine(on_fn_invoke: Option<ForeignFn>, default_invoke: ForeignFn) -> ForeignFn {
    match on_fn_invoke {
        Some(routine) => routine,
        None => default_invoke,
    }
}

/// The last step of loading a program: pairs what the machine loaded with the provider
/// through which the program will call the host.
///
/// `program` is the program as deserialized and loaded, or nothing where either failed;
/// then the result is empty too. `default_invoke` is the routine for a host that
/// supplies none.
pub fn hexagon_hybrid_executor_load_program<P>(
    program: Option<P>,
    on_fn_invoke: Option<ForeignFn>,
    default_invoke: ForeignFn,
    user_data: usize,
) -> (context: Option<(P, GenericJitProvider)>)
    ensures
        match program {
            None => context is None,
            Some(loaded) => context == Some(
                (
                    loaded,
                    GenericJitProvider {
                        on_fn_invoke: invoke_routine(on_fn_invoke, default_invoke),
                        user_data,
                    },
                ),
            ),
        },
{
    let on_fn_invoke = match on_fn_invoke {
        Some(routine) => routine,
        None => default_invoke,
    };
    match program {
        Some(loaded) => Some((loaded, GenericJitProvider { on_fn_invoke, user_data })),
        None => None,
    }
}

/// A write to a global slot: which slot, and the word to store.
#[derive(Clone, Copy, Debug, PartialEq, Eq, Structural)]
pub struct GlobalWrite {
    pub slot: usize,
    pub word: u64,
}

/// The slot that holds the global numbered `id`.
pub fn global_slot(id: u32) -> (slot: usize)
    ensures
        slot == id,
{
    id as usize
}

/// The write that sets the global numbered `id` to `value`.
pub fn hexagon_hybrid_context_set_global(id: u32, value: u32) -> (write: GlobalWrite)
    ensures
        write.slot == id,
        write.word == value,
{
    GlobalWrite { slot: global_slot(id), word: value as u64 }
}

/// The value that the host reads from a global slot that holds `word`.
pub fn hexagon_hybrid_context_get_global(word: u64) -> (value: u32)
    ensures
        value == low_32(word as int),
{
    low_u32(word)
}

/// The host reads back what it wrote, and reads 0 from a slot that holds the zero word.
pub proof fn lemma_global_round_trip(value: u32)
    ensures
        low_32(value as u64 as int) == value,
        low_32(0u64 as int) == 0,
{
}

} // verus!
