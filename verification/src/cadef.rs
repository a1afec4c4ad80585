//! What the library has to know of the native client interface: the numbers
//! by which it signals connection events, reports success, and is told how
//! to deliver its callbacks.

use vstd::prelude::*;

verus! {

/// The signal of a connection event that says that the link has come up.
pub const CA_OP_CONN_UP: i64 = 6;

/// The signal of a connection event that says that the link has gone down.
pub const CA_OP_CONN_DOWN: i64 = 7;

/// The status with which every call of the native interface reports success.
pub const ECA_NORMAL: i32 = 1;

/// Whether the native interface may run callbacks on threads of its own.
#[allow(non_camel_case_types)]
#[derive(Clone, Copy, Debug, PartialEq, Eq, Structural)]
pub enum ca_preemptive_callback_select {
    /// Callbacks run only while the client calls into the interface.
    ca_disable_preemptive_callback,
    /// Callbacks run on a thread of the interface, at any time.
    ca_enable_preemptive_callback,
}

impl ca_preemptive_callback_select {
    /// The number by which the native interface knows this selection.
    pub open spec fn code_of(self) -> i32 {
        match self {
            ca_preemptive_callback_select::ca_disable_preemptive_callback => 0,
            ca_preemptive_callback_select::ca_enable_preemptive_callback => 1,
        }
    }

    /// The number to hand to the native interface for this selection.
    pub fn code(self) -> (code: i32)
        ensures
            code == self.code_of(),
    {
        match self {
            ca_preemptive_callback_select::ca_disable_preemptive_callback => 0,
            ca_preemptive_callback_select::ca_enable_preemptive_callback => 1,
        }
    }
}

} // verus!
