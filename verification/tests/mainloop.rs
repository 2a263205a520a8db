use pulseaudio::mainloop::Threaded;

#[test]
fn threaded_from_null_is_none() {
    assert!(Threaded::from_raw(0).is_none());
    assert_eq!(Threaded::from_raw(0x99).unwrap().handle(), 0x99);
}

#[test]
fn signal_argument_values() {
    assert_eq!(Threaded::signal_argument(true), 1);
    assert_eq!(Threaded::signal_argument(false), 0);
}
