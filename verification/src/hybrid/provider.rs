//! The provider through which a running hybrid program calls out to the host.

use crate::foreign::ForeignFn;
use crate::width::{count_low_u32, low_32};
use vstd::prelude::*;

verus! {

/// The one behaviour that a hybrid program asks of the host: to run the function with a
/// given number. The routine is called with a handle to the program's context, the
/// number and `user_data`, and answers with a status.
#[derive(Clone, Copy, Debug, PartialEq, Eq, Structural)]
pub struct GenericJitProvider {
    pub on_fn_invoke: ForeignFn,
    pub user_data: usize,
}

/// A call that the provider's routine is owed.
#[derive(Clone, Copy, Debug, PartialEq, Eq, Structural)]
pub struct InvokeRequest {
    pub callback: ForeignFn,
    /// The function's number, in the 32 bits that the routine reads.
    pub fn_id: u32,
    pub user_data: usize,
}

impl GenericJitProvider {
    /// The call to make when the program invokes the function numbered `id`.
    pub fn invoke_request(&self, id: usize) -> (request: InvokeRequest)
        ensures
            request.callback == self.on_fn_invoke,
            request.fn_id == low_32(id as int),
            request.user_data == self.user_data,
    {
        InvokeRequest {
            callback: self.on_fn_invoke,
            fn_id: count_low_u32(id),
            user_data: self.user_data,
        }
    }

    /// What the routine's status tells the program: status 0 says that the host handled
    /// the call, any other status that it did not.
    pub fn invoke_function(status: i32) -> (handled: bool)
        ensures
            handled == (status == 0),
    {
        status == 0
    }
}

} // verus!
