use pulseaudio::context::{PollStep, UntilStep};
use pulseaudio::stream::{
    State, Stream, StreamRef, WriteRequest, ADJUST_LATENCY, NOFLAGS, PASSTHROUGH,
    SEEK_ABSOLUTE, SEEK_RELATIVE, SEEK_RELATIVE_END, START_CORKED,
};
use std::borrow::Borrow;

#[test]
fn stream_state_codes() {
    let all = [State::Unconnected, State::Creating, State::Ready, State::Failed, State::Terminated];
    for (i, s) in all.iter().enumerate() {
        assert_eq!(s.to_raw(), i as i32);
        assert_eq!(State::from_raw(i as i32), Some(*s));
    }
    assert_eq!(State::from_raw(5), None);
    assert_eq!(State::from_raw(-3), None);
}

#[test]
fn stream_flags_and_seek_modes() {
    assert_eq!(NOFLAGS, 0);
    assert_eq!(START_CORKED, 0x01);
    assert_eq!(ADJUST_LATENCY, 0x2000);
    assert_eq!(PASSTHROUGH, 0x80000);
    assert_eq!(SEEK_RELATIVE, 0);
    assert_eq!(SEEK_ABSOLUTE, 1);
    assert_eq!(SEEK_RELATIVE_END, 3);
}

#[test]
fn stream_from_null_is_none() {
    assert!(Stream::from_raw(0).is_none());
    let s = Stream::from_raw(0xbeef).unwrap();
    assert_eq!(s.handle(), 0xbeef);
    let r: &StreamRef = s.borrow();
    assert_eq!(r.handle(), 0xbeef);
    assert_eq!(StreamRef::from_raw(7).handle(), 7);
}

#[test]
fn stream_await_until_step() {
    assert_eq!(StreamRef::await_state_until_step(State::Ready, State::Ready), UntilStep::Reached);
    assert_eq!(
        StreamRef::await_state_until_step(State::Creating, State::Ready),
        UntilStep::AwaitNewState
    );
}

#[test]
fn stream_awaiter_polls() {
    let mut s = Stream::from_raw(0x40).unwrap();
    let mut a = s.await_new_state();
    assert!(!a.is_callback_registered());
    assert_eq!(a.poll(false), PollStep::RegisterAndWait);
    assert!(a.is_callback_registered());
    assert_eq!(a.poll(true), PollStep::UnregisterAndFinish);
    assert!(!a.is_callback_registered());
    assert_eq!(a.get_stream().handle(), 0x40);
}

#[test]
fn stream_ref_awaiter_starts_unregistered() {
    let mut r = StreamRef::from_raw(0x80);
    let a = r.await_new_state();
    assert!(!a.is_callback_registered());
    assert_eq!(a.get_stream().handle(), 0x80);
}

#[test]
fn begin_write_answers() {
    assert_eq!(StreamRef::begin_write_result(0, 4096), Ok(4096));
    assert_eq!(StreamRef::begin_write_result(-2, 4096), Err(-2));
    assert_eq!(StreamRef::begin_write_result(5, 0), Err(5));
}

#[test]
fn write_slice_request_sizes() {
    let samples: [i16; 3] = [1, -1, 7];
    let req = StreamRef::write_slice_request(&samples, None);
    assert_eq!(req, WriteRequest { nbytes: 6, offset: 0, seek: SEEK_RELATIVE });

    let frames: [u32; 5] = [0; 5];
    let req = StreamRef::write_slice_request(&frames, Some((SEEK_ABSOLUTE, 128)));
    assert_eq!(req, WriteRequest { nbytes: 20, offset: 128, seek: SEEK_ABSOLUTE });

    let empty: [u8; 0] = [];
    let req = StreamRef::write_slice_request(&empty, Some((SEEK_RELATIVE_END, -4)));
    assert_eq!(req.nbytes, 0);
    assert_eq!(req.offset, -4);
    assert_eq!(req.seek, SEEK_RELATIVE_END);
}
