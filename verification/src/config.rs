//! Channels and Samples

use crate::ffi::channelmap::{
    pa_channel_map, pa_channel_position_t, PA_CHANNELS_MAX, PA_CHANNEL_POSITION_INVALID,
    PA_CHANNEL_POSITION_LEFT, PA_CHANNEL_POSITION_MONO, PA_CHANNEL_POSITION_RIGHT,
};
use crate::ffi::sample::{
    pa_sample_format_t, pa_sample_spec, PA_SAMPLE_ALAW, PA_SAMPLE_FLOAT32BE, PA_SAMPLE_FLOAT32LE,
    PA_SAMPLE_S16BE, PA_SAMPLE_S16LE, PA_SAMPLE_S24BE, PA_SAMPLE_S24LE, PA_SAMPLE_S24_32BE,
    PA_SAMPLE_S24_32LE, PA_SAMPLE_S32BE, PA_SAMPLE_S32LE, PA_SAMPLE_U8, PA_SAMPLE_ULAW,
};
use vstd::prelude::*;

verus! {

/// The format of a single sample. Each variant stands for the C code that
/// `SampleFormat::code` gives it.
#[derive(Clone, Copy, PartialEq, Eq, Structural, Debug)]
pub enum SampleFormat {
    U8,
    ALAW,
    ULAW,
    S16LE,
    S16BE,
    FLOAT32LE,
    FLOAT32BE,
    S32LE,
    S32BE,
    S24LE,
    S23BE,
    S24_32LE,
    S24_32BE,
}

impl SampleFormat {
    /// The C code of the format.
    pub open spec fn code(self) -> pa_sample_format_t {
        match self {
            SampleFormat::U8 => PA_SAMPLE_U8,
            SampleFormat::ALAW => PA_SAMPLE_ALAW,
            SampleFormat::ULAW => PA_SAMPLE_ULAW,
            SampleFormat::S16LE => PA_SAMPLE_S16LE,
            SampleFormat::S16BE => PA_SAMPLE_S16BE,
            SampleFormat::FLOAT32LE => PA_SAMPLE_FLOAT32LE,
            SampleFormat::FLOAT32BE => PA_SAMPLE_FLOAT32BE,
            SampleFormat::S32LE => PA_SAMPLE_S32LE,
            SampleFormat::S32BE => PA_SAMPLE_S32BE,
            SampleFormat::S24LE => PA_SAMPLE_S24LE,
            SampleFormat::S23BE => PA_SAMPLE_S24BE,
            SampleFormat::S24_32LE => PA_SAMPLE_S24_32LE,
            SampleFormat::S24_32BE => PA_SAMPLE_S24_32BE,
        }
    }

    /// The format whose C code is `raw`, if there is one.
    pub open spec fn from_code(raw: pa_sample_format_t) -> Option<SampleFormat> {
        if raw == PA_SAMPLE_U8 {
            Some(SampleFormat::U8)
        } else if raw == PA_SAMPLE_ALAW {
            Some(SampleFormat::ALAW)
        } else if raw == PA_SAMPLE_ULAW {
            Some(SampleFormat::ULAW)
        } else if raw == PA_SAMPLE_S16LE {
            Some(SampleFormat::S16LE)
        } else if raw == PA_SAMPLE_S16BE {
            Some(SampleFormat::S16BE)
        } else if raw == PA_SAMPLE_FLOAT32LE {
            Some(SampleFormat::FLOAT32LE)
        } else if raw == PA_SAMPLE_FLOAT32BE {
            Some(SampleFormat::FLOAT32BE)
        } else if raw == PA_SAMPLE_S32LE {
            Some(SampleFormat::S32LE)
        } else if raw == PA_SAMPLE_S32BE {
            Some(SampleFormat::S32BE)
        } else if raw == PA_SAMPLE_S24LE {
            Some(SampleFormat::S24LE)
        } else if raw == PA_SAMPLE_S24BE {
            Some(SampleFormat::S23BE)
        } else if raw == PA_SAMPLE_S24_32LE {
            Some(SampleFormat::S24_32LE)
        } else if raw == PA_SAMPLE_S24_32BE {
            Some(SampleFormat::S24_32BE)
        } else {
            None
        }
    }

    /// The C code of the format, as the C library expects it in a sample
    /// specification.
    pub fn to_raw(self) -> (raw: pa_sample_format_t)
        ensures
            raw == self.code(),
    {
        match self {
            SampleFormat::U8 => PA_SAMPLE_U8,
            SampleFormat::ALAW => PA_SAMPLE_ALAW,
            SampleFormat::ULAW => PA_SAMPLE_ULAW,
            SampleFormat::S16LE => PA_SAMPLE_S16LE,
            SampleFormat::S16BE => PA_SAMPLE_S16BE,
            SampleFormat::FLOAT32LE => PA_SAMPLE_FLOAT32LE,
            SampleFormat::FLOAT32BE => PA_SAMPLE_FLOAT32BE,
            SampleFormat::S32LE => PA_SAMPLE_S32LE,
            SampleFormat::S32BE => PA_SAMPLE_S32BE,
            SampleFormat::S24LE => PA_SAMPLE_S24LE,
            SampleFormat::S23BE => PA_SAMPLE_S24BE,
            SampleFormat::S24_32LE => PA_SAMPLE_S24_32LE,
            SampleFormat::S24_32BE => PA_SAMPLE_S24_32BE,
        }
    }

    /// The format that a C code stands for; `None` for a code that names
    /// no format.
    pub fn from_raw(raw: pa_sample_format_t) -> (format: Option<SampleFormat>)
        ensures
            format == SampleFormat::from_code(raw),
    {
        if raw == PA_SAMPLE_U8 {
            Some(SampleFormat::U8)
        } else if raw == PA_SAMPLE_ALAW {
            Some(SampleFormat::ALAW)
        } else if raw == PA_SAMPLE_ULAW {
            Some(SampleFormat::ULAW)
        } else if raw == PA_SAMPLE_S16LE {
            Some(SampleFormat::S16LE)
        } else if raw == PA_SAMPLE_S16BE {
            Some(SampleFormat::S16BE)
        } else if raw == PA_SAMPLE_FLOAT32LE {
            Some(SampleFormat::FLOAT32LE)
        } else if raw == PA_SAMPLE_FLOAT32BE {
            Some(SampleFormat::FLOAT32BE)
        } else if raw == PA_SAMPLE_S32LE {
            Some(SampleFormat::S32LE)
        } else if raw == PA_SAMPLE_S32BE {
            Some(SampleFormat::S32BE)
        } else if raw == PA_SAMPLE_S24LE {
            Some(SampleFormat::S24LE)
        } else if raw == PA_SAMPLE_S24BE {
            Some(SampleFormat::S23BE)
        } else if raw == PA_SAMPLE_S24_32LE {
            Some(SampleFormat::S24_32LE)
        } else if raw == PA_SAMPLE_S24_32BE {
            Some(SampleFormat::S24_32BE)
        } else {
            None
        }
    }
}

/// Each format is read back from its own C code, and a C code that is read
/// as a format is that format's code: formats and the codes `0..=12` are in
/// one-to-one correspondence.
pub proof fn lemma_sample_format_code_round_trip(format: SampleFormat, raw: pa_sample_format_t)
    ensures
        SampleFormat::from_code(format.code()) == Some(format),
        SampleFormat::from_code(raw) == Some(format) <==> format.code() == raw,
        SampleFormat::from_code(raw) is Some <==> 0 <= raw <= 12,
{
}

/// The format, rate and channel count of a stream of samples.
pub type SampleSpec = pa_sample_spec;

/// The channel map that lists `positions` in order and marks every slot
/// after them invalid.
pub open spec fn lists_positions(m: pa_channel_map, positions: Seq<pa_channel_position_t>) -> bool {
    &&& m.channels as int == positions.len()
    &&& forall|i: int| 0 <= i < positions.len() ==> m.map@[i] == positions[i]
    &&& forall|i: int| positions.len() <= i < PA_CHANNELS_MAX ==> m.map@[i] == PA_CHANNEL_POSITION_INVALID
}

/// A channel map: which speaker each channel of a stream feeds.
pub struct ChannelMap(pa_channel_map);

impl View for ChannelMap {
    type V = pa_channel_map;

    closed spec fn view(&self) -> pa_channel_map {
        self.0
    }
}

impl ChannelMap {
    /// The channel map with one channel, at the mono position.
    pub fn new_mono() -> (ch: Self)
        ensures
            lists_positions(ch@, seq![PA_CHANNEL_POSITION_MONO]),
    {
        let mut map = [PA_CHANNEL_POSITION_INVALID; 32];
        map[0] = PA_CHANNEL_POSITION_MONO;
        ChannelMap(pa_channel_map { channels: 1, map })
    }

    /// The channel map with two channels, left then right.
    pub fn new_stereo() -> (ch: Self)
        ensures
            lists_positions(ch@, seq![PA_CHANNEL_POSITION_LEFT, PA_CHANNEL_POSITION_RIGHT]),
    {
        let mut map = [PA_CHANNEL_POSITION_INVALID; 32];
        map[0] = PA_CHANNEL_POSITION_LEFT;
        map[1] = PA_CHANNEL_POSITION_RIGHT;
        ChannelMap(pa_channel_map { channels: 2, map })
    }

    /// The C record of the channel map, to hand to the C library.
    pub fn as_ptr(&self) -> (m: &pa_channel_map)
        ensures
            *m == self@,
    {
        &self.0
    }
}

} // verus!
