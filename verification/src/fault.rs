//! Containment of failures inside the machine.
//!
//! Work that runs inside the machine may fail with an error of the machine or in a way
//! nobody foresaw. The embedding program runs such work under supervision and reports
//! how it ended as a `Fault`; nothing of it crosses the boundary but a status code and a
//! line for the diagnostic channel.

use vstd::prelude::*;
use vstd::string::StringExecFns;

verus! {

/// How supervised work failed.
#[derive(Clone, Debug, PartialEq, Eq)]
pub enum Fault {
    /// An error of the machine, with its description.
    Vm(String),
    /// A failure that carried no error of the machine.
    Unknown,
}

pub open spec fn unknown_error_text() -> Seq<char> {
    "Unknown error"@
}

impl Fault {
    pub open spec fn description_spec(self) -> Seq<char> {
        match self {
            Fault::Vm(text) => text@,
            Fault::Unknown => unknown_error_text(),
        }
    }

    /// The machine's description of its error, or `Unknown error`.
    pub fn description(&self) -> (text: String)
        ensures
            text@ == self.description_spec(),
    {
        match self {
            Fault::Vm(text) => text.clone(),
            Fault::Unknown => String::from_str("Unknown error"),
        }
    }
}

/// The status of supervised work: 0 where it succeeded, 1 where it failed.
pub open spec fn status_of<T>(outcome: Result<T, Fault>) -> u32 {
    if outcome is Ok { 0u32 } else { 1u32 }
}

/// The status code that the host sees for supervised work: registering a static object,
/// running a callable, binding `this`.
pub fn status_code<T>(outcome: &Result<T, Fault>) -> (status: u32)
    ensures
        status == status_of(*outcome),
{
    match outcome {
        Ok(_) => 0,
        Err(_) => 1,
    }
}

} // verus!
