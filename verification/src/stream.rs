//! Playback streams, and the waiting for their state changes.

use crate::context::{poll_step_for, PollStep, UntilStep};
use crate::ffi::stream::{
    pa_buffer_attr, pa_cvolume, pa_stream_flags_t, pa_stream_state_t, PA_STREAM_ADJUST_LATENCY,
    PA_STREAM_AUTO_TIMING_UPDATE, PA_STREAM_CREATING, PA_STREAM_DONT_INHIBIT_AUTO_SUSPEND,
    PA_STREAM_DONT_MOVE, PA_STREAM_EARLY_REQUESTS, PA_STREAM_FAILED, PA_STREAM_FAIL_ON_SUSPEND,
    PA_STREAM_FIX_CHANNELS, PA_STREAM_FIX_FORMAT, PA_STREAM_FIX_RATE,
    PA_STREAM_INTERPOLATE_TIMING, PA_STREAM_NOFLAGS, PA_STREAM_NOT_MONOTONIC,
    PA_STREAM_NO_REMAP_CHANNELS, PA_STREAM_NO_REMIX_CHANNELS, PA_STREAM_PASSTHROUGH,
    PA_STREAM_PEAK_DETECT, PA_STREAM_READY, PA_STREAM_RELATIVE_VOLUME, PA_STREAM_START_CORKED,
    PA_STREAM_START_MUTED, PA_STREAM_START_UNMUTED, PA_STREAM_TERMINATED, PA_STREAM_UNCONNECTED,
    PA_STREAM_VARIABLE_RATE,
};
use crate::ffi::{
    pa_seek_mode_t, PA_SEEK_ABSOLUTE, PA_SEEK_RELATIVE, PA_SEEK_RELATIVE_END,
    PA_SEEK_RELATIVE_ON_READ,
};
use vstd::layout::size_of;
use vstd::prelude::*;

verus! {

/// The state of a stream. Each variant stands for the C code that
/// `State::code` gives it.
#[derive(Clone, Copy, PartialEq, Eq, Structural, Debug)]
pub enum State {
    Unconnected,
    Creating,
    Ready,
    Failed,
    Terminated,
}

impl State {
    /// The C code of the state.
    pub open spec fn code(self) -> pa_stream_state_t {
        match self {
            State::Unconnected => PA_STREAM_UNCONNECTED,
            State::Creating => PA_STREAM_CREATING,
            State::Ready => PA_STREAM_READY,
            State::Failed => PA_STREAM_FAILED,
            State::Terminated => PA_STREAM_TERMINATED,
        }
    }

    /// The state whose C code is `raw`, if there is one.
    pub open spec fn from_code(raw: pa_stream_state_t) -> Option<State> {
        if raw == PA_STREAM_UNCONNECTED {
            Some(State::Unconnected)
        } else if raw == PA_STREAM_CREATING {
            Some(State::Creating)
        } else if raw == PA_STREAM_READY {
            Some(State::Ready)
        } else if raw == PA_STREAM_FAILED {
            Some(State::Failed)
        } else if raw == PA_STREAM_TERMINATED {
            Some(State::Terminated)
        } else {
            None
        }
    }

    /// The C code of the state.
    pub fn to_raw(self) -> (raw: pa_stream_state_t)
        ensures
            raw == self.code(),
    {
        match self {
            State::Unconnected => PA_STREAM_UNCONNECTED,
            State::Creating => PA_STREAM_CREATING,
            State::Ready => PA_STREAM_READY,
            State::Failed => PA_STREAM_FAILED,
            State::Terminated => PA_STREAM_TERMINATED,
        }
    }

    /// The state that the C library reports with `raw`; `None` for a code
    /// that names no state.
    pub fn from_raw(raw: pa_stream_state_t) -> (state: Option<State>)
        ensures
            state == State::from_code(raw),
    {
        if raw == PA_STREAM_UNCONNECTED {
            Some(State::Unconnected)
        } else if raw == PA_STREAM_CREATING {
            Some(State::Creating)
        } else if raw == PA_STREAM_READY {
            Some(State::Ready)
        } else if raw == PA_STREAM_FAILED {
            Some(State::Failed)
        } else if raw == PA_STREAM_TERMINATED {
            Some(State::Terminated)
        } else {
            None
        }
    }
}

/// Each stream state is read back from its own C code, a C code that is read
/// as a state is that state's code, and exactly the codes `0..=4` name a
/// state.
pub proof fn lemma_state_code_round_trip(state: State, raw: pa_stream_state_t)
    ensures
        State::from_code(state.code()) == Some(state),
        State::from_code(raw) == Some(state) <==> state.code() == raw,
        State::from_code(raw) is Some <==> 0 <= raw <= 4,
{
}

/// Flags that adjust how a stream is connected.
pub type Flags = pa_stream_flags_t;

pub const NOFLAGS: Flags = PA_STREAM_NOFLAGS;
pub const START_CORKED: Flags = PA_STREAM_START_CORKED;
pub const INTERPOLATE_TIMING: Flags = PA_STREAM_INTERPOLATE_TIMING;
pub const NOT_MONOTONIC: Flags = PA_STREAM_NOT_MONOTONIC;
pub const AUTO_TIMING_UPDATE: Flags = PA_STREAM_AUTO_TIMING_UPDATE;
pub const NO_REMAP_CHANNELS: Flags = PA_STREAM_NO_REMAP_CHANNELS;
pub const NO_REMIX_CHANNELS: Flags = PA_STREAM_NO_REMIX_CHANNELS;
pub const FIX_FORMAT: Flags = PA_STREAM_FIX_FORMAT;
pub const FIX_RATE: Flags = PA_STREAM_FIX_RATE;
pub const FIX_CHANNELS: Flags = PA_STREAM_FIX_CHANNELS;
pub const DONT_MOVE: Flags = PA_STREAM_DONT_MOVE;
pub const VARIABLE_RATE: Flags = PA_STREAM_VARIABLE_RATE;
pub const PEAK_DETECT: Flags = PA_STREAM_PEAK_DETECT;
pub const START_MUTED: Flags = PA_STREAM_START_MUTED;
pub const ADJUST_LATENCY: Flags = PA_STREAM_ADJUST_LATENCY;
pub const EARLY_REQUESTS: Flags = PA_STREAM_EARLY_REQUESTS;
pub const DONT_INHIBIT_AUTO_SUSPEND: Flags = PA_STREAM_DONT_INHIBIT_AUTO_SUSPEND;
pub const START_UNMUTED: Flags = PA_STREAM_START_UNMUTED;
pub const FAIL_ON_SUSPEND: Flags = PA_STREAM_FAIL_ON_SUSPEND;
pub const RELATIVE_VOLUME: Flags = PA_STREAM_RELATIVE_VOLUME;
pub const PASSTHROUGH: Flags = PA_STREAM_PASSTHROUGH;

/// The sizes that steer the buffering of a stream.
pub type BufferAttr = pa_buffer_attr;

/// The volume of each channel of a stream.
pub type CVolume = pa_cvolume;

/// How the write index moves before new data is placed.
pub type SeekMode = pa_seek_mode_t;

pub const SEEK_RELATIVE: SeekMode = PA_SEEK_RELATIVE;
pub const SEEK_ABSOLUTE: SeekMode = PA_SEEK_ABSOLUTE;
pub const SEEK_RELATIVE_ON_READ: SeekMode = PA_SEEK_RELATIVE_ON_READ;
pub const SEEK_RELATIVE_END: SeekMode = PA_SEEK_RELATIVE_END;

/// What a write of a slice hands to the C library besides the data itself:
/// the length of the data in bytes, and where the write index goes.
#[derive(Clone, Copy, PartialEq, Eq, Structural, Debug)]
pub struct WriteRequest {
    pub nbytes: usize,
    pub offset: i64,
    pub seek: SeekMode,
}

/// A stream, by the address of the C library's stream object.
pub struct StreamRef {
    handle: usize,
}

impl View for StreamRef {
    type V = usize;

    /// The address of the C stream object.
    closed spec fn view(&self) -> usize {
        self.handle
    }
}

/// A stream that holds a reference to the C library's stream object, whose
/// address is never null.
pub struct Stream(StreamRef);

impl Stream {
    #[verifier::type_invariant]
    spec fn handle_is_not_null(self) -> bool {
        self.0.handle != 0
    }
}

impl View for Stream {
    type V = usize;

    /// The address of the C stream object.
    closed spec fn view(&self) -> usize {
        self.0.handle
    }
}

impl Stream {
    /// The stream for the object at `handle`, as the C library answered a
    /// request for a new stream; `None` when that answer was null, which is
    /// how the library reports a failure.
    pub fn from_raw(handle: usize) -> (s: Option<Self>)
        ensures
            s is Some <==> handle != 0,
            s matches Some(s) ==> s@ == handle,
    {
        if handle == 0 {
            None
        } else {
            Some(Stream(StreamRef { handle }))
        }
    }

    /// An awaiter for the next change of the stream's state, as that of
    /// the plain reference to the stream would give it.
    pub fn await_new_state(&mut self) -> (awaiter: StreamStateChangeAwaiter<'_>)
        ensures
            awaiter.stream()@ == old(self)@,
            !awaiter.callback_registered(),
            *final(self) == *old(self),
    {
        StreamStateChangeAwaiter { s: &self.0, callback_registered: false }
    }
}

impl std::ops::Deref for Stream {
    type Target = StreamRef;

    /// The stream seen through a plain reference.
    fn deref(&self) -> (s: &StreamRef)
        ensures
            s@ == self@,
            s@ != 0,
    {
        proof {
            use_type_invariant(self);
        }
        &self.0
    }
}

impl std::borrow::Borrow<StreamRef> for Stream {
    /// The stream seen through a plain reference.
    fn borrow(&self) -> (s: &StreamRef)
        ensures
            StreamRef::view(s) == Stream::view(self),
            StreamRef::view(s) != 0,
    {
        proof {
            use_type_invariant(self);
        }
        &self.0
    }
}

impl StreamRef {
    /// The reference to the stream object at `handle`.
    pub fn from_raw(handle: usize) -> (s: Self)
        ensures
            s@ == handle,
    {
        StreamRef { handle }
    }

    /// The address of the C stream object.
    pub fn handle(&self) -> (handle: usize)
        ensures
            handle == self@,
    {
        self.handle
    }

    /// An awaiter for the next change of the stream's state. It has not
    /// installed any callback yet.
    pub fn await_new_state(&mut self) -> (awaiter: StreamStateChangeAwaiter<'_>)
        ensures
            awaiter.stream()@ == old(self)@,
            !awaiter.callback_registered(),
            *final(self) == *old(self),
    {
        StreamStateChangeAwaiter { s: &*self, callback_registered: false }
    }

    /// The decision of the waiting loop of `await_state_until`: the wait is
    /// over exactly when the state just seen is the one asked for.
    pub fn await_state_until_step(current: State, state: State) -> (step: UntilStep)
        ensures
            step == (if current == state { UntilStep::Reached } else { UntilStep::AwaitNewState }),
    {
        if current == state {
            UntilStep::Reached
        } else {
            UntilStep::AwaitNewState
        }
    }

    /// The answer of a request for a write buffer: the C code when the
    /// request failed (any value but zero), otherwise the number of bytes
    /// that the library made room for.
    pub fn begin_write_result(rval: i32, nbytes: usize) -> (res: Result<usize, isize>)
        ensures
            res == (if rval != 0 { Err::<usize, isize>(rval as isize) } else { Ok::<usize, isize>(nbytes) }),
    {
        if rval != 0 {
            Err(rval as isize)
        } else {
            Ok(nbytes)
        }
    }

    /// What a write of `data` tells the C library: the size of the data in
    /// bytes, and the seek mode and offset given, or a relative seek by zero
    /// when none is given.
    pub fn write_slice_request<D>(data: &[D], seek_offset: Option<(SeekMode, i64)>) -> (req: WriteRequest)
        ensures
            req.nbytes == data@.len() * size_of::<D>(),
            req.seek == (match seek_offset {
                Some((seek, _)) => seek,
                None => SEEK_RELATIVE,
            }),
            req.offset == (match seek_offset {
                Some((_, offset)) => offset,
                None => 0i64,
            }),
    {
        broadcast use vstd::layout::layout_of_slices;

        let nbytes = core::mem::size_of_val(data);
        match seek_offset {
            Some((seek, offset)) => WriteRequest { nbytes, offset, seek },
            None => WriteRequest { nbytes, offset: 0, seek: SEEK_RELATIVE },
        }
    }
}

/// What is told of each request of the C library for more data to play.
pub trait WriteRequestHandler {
    /// The library asks for `nbytes` more bytes on `stream`.
    fn callback(&mut self, stream: &mut StreamRef, nbytes: usize);
}

/// Waits for the next change of a stream's state. The change itself is
/// reported by a callback of the C library, outside of this type; each poll
/// is told whether that report has come.
pub struct StreamStateChangeAwaiter<'a> {
    s: &'a StreamRef,
    callback_registered: bool,
}

impl<'a> StreamStateChangeAwaiter<'a> {
    /// The stream whose state is awaited.
    pub closed spec fn stream(&self) -> StreamRef {
        *self.s
    }

    /// Whether the awaiter's state callback is installed in the C library.
    pub closed spec fn callback_registered(&self) -> bool {
        self.callback_registered
    }

    /// The stream whose state is awaited.
    pub fn get_stream(&self) -> (s: &StreamRef)
        ensures
            *s == self.stream(),
    {
        self.s
    }

    /// Whether the awaiter's state callback is installed in the C library.
    pub fn is_callback_registered(&self) -> (registered: bool)
        ensures
            registered == self.callback_registered(),
    {
        self.callback_registered
    }

    /// One poll of the awaiter, given whether the state callback has
    /// reported a change. Without a change the callback is (re)installed and
    /// the wait goes on; after one it is removed and the wait is over.
    pub fn poll(&mut self, changed: bool) -> (step: PollStep)
        ensures
            step == poll_step_for(changed),
            final(self).callback_registered() == !changed,
            final(self).stream() == old(self).stream(),
    {
        if !changed {
            self.callback_registered = true;
            PollStep::RegisterAndWait
        } else {
            self.callback_registered = false;
            PollStep::UnregisterAndFinish
        }
    }
}

} // verus!
