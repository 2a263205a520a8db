//! The main loop that runs the C library's events in a thread of its own.

use vstd::prelude::*;

verus! {

/// A main loop with a thread of its own, by the address of the C library's
/// main loop object, which is never null.
pub struct Threaded {
    handle: usize,
}

impl Threaded {
    #[verifier::type_invariant]
    spec fn handle_is_not_null(self) -> bool {
        self.handle != 0
    }
}

impl View for Threaded {
    type V = usize;

    /// The address of the C main loop object.
    closed spec fn view(&self) -> usize {
        self.handle
    }
}

impl Threaded {
    /// The main loop at `handle`, as the C library answered a request for a
    /// new one; `None` when that answer was null, which is how the library
    /// reports a failure.
    pub fn from_raw(handle: usize) -> (t: Option<Self>)
        ensures
            t is Some <==> handle != 0,
            t matches Some(t) ==> t@ == handle,
    {
        if handle == 0 {
            None
        } else {
            Some(Threaded { handle })
        }
    }

    /// The address of the C main loop object.
    pub fn handle(&self) -> (handle: usize)
        ensures
            handle == self@,
            handle != 0,
    {
        proof {
            use_type_invariant(self);
        }
        self.handle
    }

    /// The C argument of a signal to the threads that wait on the loop: one
    /// when the signalling thread waits for a waiter to accept the signal,
    /// zero otherwise.
    pub fn signal_argument(wait_for_accept: bool) -> (arg: i32)
        ensures
            arg == (if wait_for_accept { 1i32 } else { 0i32 }),
    {
        if wait_for_accept {
            1
        } else {
            0
        }
    }
}

} // verus!
