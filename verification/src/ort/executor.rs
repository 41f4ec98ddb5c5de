//! What the host sees of the executor's work: results in slots, status codes, and a line
//! for the diagnostic channel where the machine failed.

use crate::fault::Fault;
use crate::ort::value::{or_null, Value};
use crate::text::join;
use crate::width::{count_low_u32, low_32};
use vstd::prelude::*;
use vstd::string::StringExecFns;

verus! {

/// Writes the static object that a lookup found, or `Null` where it found none.
pub fn hexagon_ort_executor_impl_get_static_object(ret_place: &mut Value, found: Option<Value>)
    ensures
        *final(ret_place) == or_null(found),
{
    *ret_place = Value::from_optional(found);
}

/// The line that the diagnostic channel gets for an invocation that failed.
pub open spec fn invoke_diagnostic(fault: Fault) -> Seq<char> {
    match fault {
        Fault::Vm(text) => "Invoke failed: "@ + text@,
        Fault::Unknown => crate::fault::unknown_error_text(),
    }
}

/// The end of an invocation. The value that the call left in its frame goes into the
/// slot; a failure inside the machine puts `Null` there and yields a line for the
/// diagnostic channel.
pub fn hexagon_ort_executor_impl_invoke(ret_place: &mut Value, outcome: Result<Value, Fault>) -> (diagnostic: Option<String>)
    ensures
        match outcome {
            Ok(value) => *final(ret_place) == value && diagnostic is None,
            Err(fault) => diagnostic matches Some(line) && line@ == invoke_diagnostic(fault)
                && *final(ret_place) == Value::Null,
        },
{
    match outcome {
        Ok(value) => {
            *ret_place = value;
            None
        },
        Err(fault) => {
            *ret_place = Value::Null;
            match fault {
                Fault::Vm(text) => Some(join("Invoke failed: ", text.as_str())),
                Fault::Unknown => Some(String::from_str("Unknown error")),
            }
        },
    }
}

/// Status 0 and the argument in the slot where the frame has it; status 1 and the slot
/// untouched where the index is out of range.
pub fn hexagon_ort_executor_impl_get_argument(ret_place: &mut Value, argument: Option<Value>) -> (status: i32)
    ensures
        match argument {
            Some(value) => status == 0 && *final(ret_place) == value,
            None => status == 1 && *final(ret_place) == *old(ret_place),
        },
{
    match argument {
        Some(value) => {
            *ret_place = value;
            0
        },
        None => 1,
    }
}

/// The number of arguments of the current frame, in the 32 bits that the host reads.
pub fn hexagon_ort_executor_impl_get_n_arguments(n_arguments: usize) -> (count: u32)
    ensures
        count == low_32(n_arguments as int),
{
    count_low_u32(n_arguments)
}

} // verus!
