//! The data layout of the PulseAudio C client library: the records that
//! cross the C boundary, the opaque objects that the library hands out by
//! pointer, and the numeric codes of its enumerations and flag sets.
//!
//! The C functions themselves, and the C-layout copies of these records,
//! belong to the program that links against `libpulse`; this module holds
//! the values and their meaning.
#![allow(non_camel_case_types)]

pub mod channelmap;
pub mod context;
pub mod event;
pub mod sample;
pub mod stream;


use vstd::prelude::*;

verus! {

/// How the write index of a stream moves before new data is placed.
pub type pa_seek_mode_t = i32;

/// Seek relative to the current write index.
pub const PA_SEEK_RELATIVE: pa_seek_mode_t = 0;

/// Seek relative to the start of the buffer queue.
pub const PA_SEEK_ABSOLUTE: pa_seek_mode_t = 1;

/// Seek relative to the current read index.
pub const PA_SEEK_RELATIVE_ON_READ: pa_seek_mode_t = 2;

/// Seek relative to the current end of the buffer queue.
pub const PA_SEEK_RELATIVE_END: pa_seek_mode_t = 3;

} // verus!
