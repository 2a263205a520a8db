//! Streams, their buffers, flags and volumes.
#![allow(non_camel_case_types)]

use super::channelmap::PA_CHANNELS_MAX;
use vstd::prelude::*;

verus! {

/// The C library's stream object, only ever handled by pointer.
pub struct pa_stream {
    _opaque: [u8; 0],
}

/// The state of a stream, as the C library numbers it.
pub type pa_stream_state_t = i32;

pub const PA_STREAM_UNCONNECTED: pa_stream_state_t = 0;
pub const PA_STREAM_CREATING: pa_stream_state_t = 1;
pub const PA_STREAM_READY: pa_stream_state_t = 2;
pub const PA_STREAM_FAILED: pa_stream_state_t = 3;
pub const PA_STREAM_TERMINATED: pa_stream_state_t = 4;

/// The sizes that steer the buffering of a stream.
pub struct pa_buffer_attr {
    pub tlength: u32,
    pub prebuf: u32,
    pub minreq: u32,
    pub fragsize: u32,
}

/// Flags that adjust how a stream is connected.
pub type pa_stream_flags_t = i32;

pub const PA_STREAM_NOFLAGS: pa_stream_flags_t = 0;
pub const PA_STREAM_START_CORKED: pa_stream_flags_t = 0x01;
pub const PA_STREAM_INTERPOLATE_TIMING: pa_stream_flags_t = 0x02;
pub const PA_STREAM_NOT_MONOTONIC: pa_stream_flags_t = 0x04;
pub const PA_STREAM_AUTO_TIMING_UPDATE: pa_stream_flags_t = 0x08;
pub const PA_STREAM_NO_REMAP_CHANNELS: pa_stream_flags_t = 0x10;
pub const PA_STREAM_NO_REMIX_CHANNELS: pa_stream_flags_t = 0x20;
pub const PA_STREAM_FIX_FORMAT: pa_stream_flags_t = 0x40;
pub const PA_STREAM_FIX_RATE: pa_stream_flags_t = 0x80;
pub const PA_STREAM_FIX_CHANNELS: pa_stream_flags_t = 0x100;
pub const PA_STREAM_DONT_MOVE: pa_stream_flags_t = 0x200;
pub const PA_STREAM_VARIABLE_RATE: pa_stream_flags_t = 0x400;
pub const PA_STREAM_PEAK_DETECT: pa_stream_flags_t = 0x800;
pub const PA_STREAM_START_MUTED: pa_stream_flags_t = 0x1000;
pub const PA_STREAM_ADJUST_LATENCY: pa_stream_flags_t = 0x2000;
pub const PA_STREAM_EARLY_REQUESTS: pa_stream_flags_t = 0x4000;
pub const PA_STREAM_DONT_INHIBIT_AUTO_SUSPEND: pa_stream_flags_t = 0x8000;
pub const PA_STREAM_START_UNMUTED: pa_stream_flags_t = 0x10000;
pub const PA_STREAM_FAIL_ON_SUSPEND: pa_stream_flags_t = 0x20000;
pub const PA_STREAM_RELATIVE_VOLUME: pa_stream_flags_t = 0x40000;
pub const PA_STREAM_PASSTHROUGH: pa_stream_flags_t = 0x80000;

/// A volume level of one channel.
pub type pa_volume_t = u32;

pub const PA_VOLUME_NORM: pa_volume_t = 0x10000;
pub const PA_VOLUME_MUTED: pa_volume_t = 0;
pub const PA_VOLUME_MAX: pa_volume_t = 0x7fff_ffff;

/// The volume of each of `channels` channels.
pub struct pa_cvolume {
    pub channels: u8,
    pub values: [pa_volume_t; PA_CHANNELS_MAX],
}

} // verus!
