use pulseaudio::context::{
    Context, PollStep, State, UntilStep, FLAG_NOAUTOSPAWN, FLAG_NOFAIL, NOFLAGS,
};

const ALL_STATES: [State; 7] = [
    State::Unconnected,
    State::Connecting,
    State::Authorizing,
    State::SettingName,
    State::Ready,
    State::Failed,
    State::Terminated,
];

#[test]
fn context_state_codes() {
    for (i, s) in ALL_STATES.iter().enumerate() {
        assert_eq!(s.to_raw(), i as i32);
        assert_eq!(State::from_raw(i as i32), Some(*s));
    }
    assert_eq!(State::Ready.to_raw(), 4);
    assert_eq!(State::from_raw(7), None);
    assert_eq!(State::from_raw(-1), None);
}

#[test]
fn context_flags() {
    assert_eq!(NOFLAGS, 0);
    assert_eq!(FLAG_NOAUTOSPAWN, 1);
    assert_eq!(FLAG_NOFAIL, 2);
}

#[test]
fn context_from_null_is_none() {
    assert!(Context::from_raw(0).is_none());
    let c = Context::from_raw(0x5000).unwrap();
    assert_eq!(c.handle(), 0x5000);
}

#[test]
fn context_await_until_step() {
    assert_eq!(Context::await_state_until_step(State::Ready, State::Ready), UntilStep::Reached);
    assert_eq!(
        Context::await_state_until_step(State::Connecting, State::Ready),
        UntilStep::AwaitNewState
    );
    assert_eq!(
        Context::await_state_until_step(State::Failed, State::Ready),
        UntilStep::AwaitNewState
    );
}

#[test]
fn context_wait_loop_stops_at_first_match() {
    let observed = [State::Unconnected, State::Connecting, State::Authorizing, State::Ready, State::Failed];
    let mut waits = 0;
    for s in observed.iter() {
        match Context::await_state_until_step(*s, State::Ready) {
            UntilStep::Reached => break,
            UntilStep::AwaitNewState => waits += 1,
        }
    }
    assert_eq!(waits, 3);
}

#[test]
fn context_awaiter_polls() {
    let mut c = Context::from_raw(0x1234).unwrap();
    let mut a = c.await_new_state();
    assert!(!a.is_callback_registered());
    assert_eq!(a.get_context().handle(), 0x1234);
    assert_eq!(a.poll(false), PollStep::RegisterAndWait);
    assert!(a.is_callback_registered());
    assert_eq!(a.poll(false), PollStep::RegisterAndWait);
    assert!(a.is_callback_registered());
    assert_eq!(a.poll(true), PollStep::UnregisterAndFinish);
    assert!(!a.is_callback_registered());
    assert_eq!(a.get_context().handle(), 0x1234);
}
