//! Event sources of a main loop, and the threaded main loop itself.
#![allow(non_camel_case_types)]

use vstd::prelude::*;

verus! {

/// The flags of an I/O event.
pub type pa_io_event_flags_t = u8;

/// An I/O event source, only ever handled by pointer.
pub struct pa_io_event {
    _opaque: [u8; 0],
}

/// A timer event source, only ever handled by pointer.
pub struct pa_time_event {
    _opaque: [u8; 0],
}

/// A deferred event source, only ever handled by pointer.
pub struct pa_defer_event {
    _opaque: [u8; 0],
}

/// A main loop that runs in a thread of its own, only ever handled by pointer.
pub struct pa_threaded_mainloop {
    _opaque: [u8; 0],
}

} // verus!
