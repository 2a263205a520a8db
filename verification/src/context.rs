//! Connections to a sound server, and the waiting for their state changes.

use crate::ffi::context::{
    pa_context_flags_t, pa_context_state_t, PA_CONTEXT_AUTHORIZING, PA_CONTEXT_CONNECTING,
    PA_CONTEXT_FAILED, PA_CONTEXT_NOAUTOSPAWN, PA_CONTEXT_NOFAIL, PA_CONTEXT_NOFLAGS,
    PA_CONTEXT_READY, PA_CONTEXT_SETTING_NAME, PA_CONTEXT_TERMINATED, PA_CONTEXT_UNCONNECTED,
};
use vstd::prelude::*;

verus! {

/// The state of a connection. Each variant stands for the C code that
/// `State::code` gives it.
#[derive(Clone, Copy, PartialEq, Eq, Structural, Debug)]
pub enum State {
    Unconnected,
    Connecting,
    Authorizing,
    SettingName,
    Ready,
    Failed,
    Terminated,
}

impl State {
    /// The C code of the state.
    pub open spec fn code(self) -> pa_context_state_t {
        match self {
            State::Unconnected => PA_CONTEXT_UNCONNECTED,
            State::Connecting => PA_CONTEXT_CONNECTING,
            State::Authorizing => PA_CONTEXT_AUTHORIZING,
            State::SettingName => PA_CONTEXT_SETTING_NAME,
            State::Ready => PA_CONTEXT_READY,
            State::Failed => PA_CONTEXT_FAILED,
            State::Terminated => PA_CONTEXT_TERMINATED,
        }
    }

    /// The state whose C code is `raw`, if there is one.
    pub open spec fn from_code(raw: pa_context_state_t) -> Option<State> {
        if raw == PA_CONTEXT_UNCONNECTED {
            Some(State::Unconnected)
        } else if raw == PA_CONTEXT_CONNECTING {
            Some(State::Connecting)
        } else if raw == PA_CONTEXT_AUTHORIZING {
            Some(State::Authorizing)
        } else if raw == PA_CONTEXT_SETTING_NAME {
            Some(State::SettingName)
        } else if raw == PA_CONTEXT_READY {
            Some(State::Ready)
        } else if raw == PA_CONTEXT_FAILED {
            Some(State::Failed)
        } else if raw == PA_CONTEXT_TERMINATED {
            Some(State::Terminated)
        } else {
            None
        }
    }

    /// The C code of the state.
    pub fn to_raw(self) -> (raw: pa_context_state_t)
        ensures
            raw == self.code(),
    {
        match self {
            State::Unconnected => PA_CONTEXT_UNCONNECTED,
            State::Connecting => PA_CONTEXT_CONNECTING,
            State::Authorizing => PA_CONTEXT_AUTHORIZING,
            State::SettingName => PA_CONTEXT_SETTING_NAME,
            State::Ready => PA_CONTEXT_READY,
            State::Failed => PA_CONTEXT_FAILED,
            State::Terminated => PA_CONTEXT_TERMINATED,
        }
    }

    /// The state that the C library reports with `raw`; `None` for a code
    /// that names no state.
    pub fn from_raw(raw: pa_context_state_t) -> (state: Option<State>)
        ensures
            state == State::from_code(raw),
    {
        if raw == PA_CONTEXT_UNCONNECTED {
            Some(State::Unconnected)
        } else if raw == PA_CONTEXT_CONNECTING {
            Some(State::Connecting)
        } else if raw == PA_CONTEXT_AUTHORIZING {
            Some(State::Authorizing)
        } else if raw == PA_CONTEXT_SETTING_NAME {
            Some(State::SettingName)
        } else if raw == PA_CONTEXT_READY {
            Some(State::Ready)
        } else if raw == PA_CONTEXT_FAILED {
            Some(State::Failed)
        } else if raw == PA_CONTEXT_TERMINATED {
            Some(State::Terminated)
        } else {
            None
        }
    }
}

/// Each state is read back from its own C code, a C code that is read as a
/// state is that state's code, and exactly the codes `0..=6` name a state.
pub proof fn lemma_state_code_round_trip(state: State, raw: pa_context_state_t)
    ensures
        State::from_code(state.code()) == Some(state),
        State::from_code(raw) == Some(state) <==> state.code() == raw,
        State::from_code(raw) is Some <==> 0 <= raw <= 6,
{
}

/// Flags that adjust how a context connects.
pub type Flags = pa_context_flags_t;

/// Connect with the default behaviour.
pub const NOFLAGS: Flags = PA_CONTEXT_NOFLAGS;

/// Do not start a sound server when none is running.
pub const FLAG_NOAUTOSPAWN: Flags = PA_CONTEXT_NOAUTOSPAWN;

/// Do not fail when no server is running; wait for one to appear.
pub const FLAG_NOFAIL: Flags = PA_CONTEXT_NOFAIL;

/// What the waiting loop of `await_state_until` does after it has seen the
/// current state.
#[derive(Clone, Copy, PartialEq, Eq, Structural, Debug)]
pub enum UntilStep {
    /// The context is in the requested state: the wait is over.
    Reached,
    /// Wait for the next state change, then look again.
    AwaitNewState,
}

/// What polling a state-change awaiter does, given whether the state of its
/// object has changed since the awaiter was made.
#[derive(Clone, Copy, PartialEq, Eq, Structural, Debug)]
pub enum PollStep {
    /// No change yet: install the state callback, which records the change
    /// and wakes the polling task, and answer that the wait goes on.
    RegisterAndWait,
    /// The state has changed: remove the state callback and answer with the
    /// object's current state.
    UnregisterAndFinish,
}

/// What polling does for a given change flag: it finishes exactly when the
/// state callback has reported a change.
pub open spec fn poll_step_for(changed: bool) -> PollStep {
    if changed {
        PollStep::UnregisterAndFinish
    } else {
        PollStep::RegisterAndWait
    }
}

/// A connection to a sound server, by the address of the C library's
/// connection object, which is never null.
pub struct Context {
    handle: usize,
}

impl Context {
    #[verifier::type_invariant]
    spec fn handle_is_not_null(self) -> bool {
        self.handle != 0
    }
}

impl View for Context {
    type V = usize;

    /// The address of the C connection object.
    closed spec fn view(&self) -> usize {
        self.handle
    }
}

impl Context {
    /// The context for the connection object at `handle`, as the C library
    /// answered a request for a new one; `None` when that answer was null,
    /// which is how the library reports a failure.
    pub fn from_raw(handle: usize) -> (c: Option<Self>)
        ensures
            c is Some <==> handle != 0,
            c matches Some(c) ==> c@ == handle,
    {
        if handle == 0 {
            None
        } else {
            Some(Context { handle })
        }
    }

    /// The address of the C connection object.
    pub fn handle(&self) -> (handle: usize)
        ensures
            handle == self@,
            handle != 0,
    {
        proof {
            use_type_invariant(self);
        }
        self.handle
    }

    /// An awaiter for the next change of the context's state. It has not
    /// installed any callback yet.
    pub fn await_new_state(&mut self) -> (awaiter: ContextStateChangeAwaiter<'_>)
        ensures
            awaiter.context()@ == old(self)@,
            !awaiter.callback_registered(),
            *final(self) == *old(self),
    {
        ContextStateChangeAwaiter { c: &*self, callback_registered: false }
    }

    /// The decision of the waiting loop of `await_state_until`: the wait is
    /// over exactly when the state just seen is the one asked for.
    pub fn await_state_until_step(current: State, state: State) -> (step: UntilStep)
        ensures
            step == (if current == state { UntilStep::Reached } else { UntilStep::AwaitNewState }),
    {
        if current == state {
            UntilStep::Reached
        } else {
            UntilStep::AwaitNewState
        }
    }
}

/// Waits for the next change of a context's state. The change itself is
/// reported by a callback of the C library, outside of this type; each poll
/// is told whether that report has come.
pub struct ContextStateChangeAwaiter<'a> {
    c: &'a Context,
    callback_registered: bool,
}

impl<'a> ContextStateChangeAwaiter<'a> {
    /// The context whose state is awaited.
    pub closed spec fn context(&self) -> Context {
        *self.c
    }

    /// Whether the awaiter's state callback is installed in the C library.
    pub closed spec fn callback_registered(&self) -> bool {
        self.callback_registered
    }

    /// The context whose state is awaited.
    pub fn get_context(&self) -> (c: &Context)
        ensures
            *c == self.context(),
    {
        self.c
    }

    /// Whether the awaiter's state callback is installed in the C library.
    pub fn is_callback_registered(&self) -> (registered: bool)
        ensures
            registered == self.callback_registered(),
    {
        self.callback_registered
    }

    /// One poll of the awaiter, given whether the state callback has
    /// reported a change. Without a change the callback is (re)installed and
    /// the wait goes on; after one it is removed and the wait is over.
    pub fn poll(&mut self, changed: bool) -> (step: PollStep)
        ensures
            step == poll_step_for(changed),
            final(self).callback_registered() == !changed,
            final(self).context() == old(self).context(),
    {
        if !changed {
            self.callback_registered = true;
            PollStep::RegisterAndWait
        } else {
            self.callback_registered = false;
            PollStep::UnregisterAndFinish
        }
    }
}

} // verus!
