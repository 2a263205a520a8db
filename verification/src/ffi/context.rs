//! Connection contexts.
#![allow(non_camel_case_types)]

use vstd::prelude::*;

verus! {

/// The C library's connection object, only ever handled by pointer.
pub struct pa_context {
    _opaque: [u8; 0],
}

/// The state of a connection, as the C library numbers it.
pub type pa_context_state_t = i32;

pub const PA_CONTEXT_UNCONNECTED: pa_context_state_t = 0;
pub const PA_CONTEXT_CONNECTING: pa_context_state_t = 1;
pub const PA_CONTEXT_AUTHORIZING: pa_context_state_t = 2;
pub const PA_CONTEXT_SETTING_NAME: pa_context_state_t = 3;
pub const PA_CONTEXT_READY: pa_context_state_t = 4;
pub const PA_CONTEXT_FAILED: pa_context_state_t = 5;
pub const PA_CONTEXT_TERMINATED: pa_context_state_t = 6;

/// Flags that adjust how a context connects.
pub type pa_context_flags_t = u16;

pub const PA_CONTEXT_NOFLAGS: pa_context_flags_t = 0;
pub const PA_CONTEXT_NOAUTOSPAWN: pa_context_flags_t = 0x01;
pub const PA_CONTEXT_NOFAIL: pa_context_flags_t = 0x02;

} // verus!
