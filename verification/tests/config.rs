use pulseaudio::config::{ChannelMap, SampleFormat, SampleSpec};
use pulseaudio::ffi::channelmap::{
    PA_CHANNELS_MAX, PA_CHANNEL_POSITION_INVALID, PA_CHANNEL_POSITION_LEFT,
    PA_CHANNEL_POSITION_MONO, PA_CHANNEL_POSITION_RIGHT,
};
use pulseaudio::ffi::sample::{PA_SAMPLE_FLOAT32LE, PA_SAMPLE_S16LE, PA_SAMPLE_S24BE};

const ALL_FORMATS: [SampleFormat; 13] = [
    SampleFormat::U8,
    SampleFormat::ALAW,
    SampleFormat::ULAW,
    SampleFormat::S16LE,
    SampleFormat::S16BE,
    SampleFormat::FLOAT32LE,
    SampleFormat::FLOAT32BE,
    SampleFormat::S32LE,
    SampleFormat::S32BE,
    SampleFormat::S24LE,
    SampleFormat::S23BE,
    SampleFormat::S24_32LE,
    SampleFormat::S24_32BE,
];

#[test]
fn mono_map_has_one_mono_channel() {
    let ch = ChannelMap::new_mono();
    let m = ch.as_ptr();
    assert_eq!(m.channels, 1);
    assert_eq!(m.map[0], PA_CHANNEL_POSITION_MONO);
    for i in 1..PA_CHANNELS_MAX {
        assert_eq!(m.map[i], PA_CHANNEL_POSITION_INVALID);
    }
}

#[test]
fn stereo_map_is_left_then_right() {
    let ch = ChannelMap::new_stereo();
    let m = ch.as_ptr();
    assert_eq!(m.channels, 2);
    assert_eq!(m.map[0], PA_CHANNEL_POSITION_LEFT);
    assert_eq!(m.map[1], PA_CHANNEL_POSITION_RIGHT);
    assert_eq!(m.map[0], 1);
    assert_eq!(m.map[1], 2);
    for i in 2..PA_CHANNELS_MAX {
        assert_eq!(m.map[i], -1);
    }
}

#[test]
fn sample_format_codes() {
    assert_eq!(SampleFormat::U8.to_raw(), 0);
    assert_eq!(SampleFormat::S16LE.to_raw(), PA_SAMPLE_S16LE);
    assert_eq!(SampleFormat::S16LE.to_raw(), 3);
    assert_eq!(SampleFormat::FLOAT32LE.to_raw(), PA_SAMPLE_FLOAT32LE);
    assert_eq!(SampleFormat::S23BE.to_raw(), PA_SAMPLE_S24BE);
    assert_eq!(SampleFormat::S24_32BE.to_raw(), 12);
}

#[test]
fn sample_format_round_trip() {
    for (i, f) in ALL_FORMATS.iter().enumerate() {
        assert_eq!(f.to_raw(), i as i32);
        assert_eq!(SampleFormat::from_raw(f.to_raw()), Some(*f));
    }
}

#[test]
fn sample_format_unknown_codes() {
    assert_eq!(SampleFormat::from_raw(-1), None);
    assert_eq!(SampleFormat::from_raw(13), None);
    assert_eq!(SampleFormat::from_raw(i32::MAX), None);
    assert_eq!(SampleFormat::from_raw(10), Some(SampleFormat::S23BE));
}

#[test]
fn sample_spec_holds_a_format_code() {
    let spec = SampleSpec { format: SampleFormat::S16LE.to_raw(), rate: 44100, channels: 2 };
    assert_eq!(SampleFormat::from_raw(spec.format), Some(SampleFormat::S16LE));
    assert_eq!(spec.rate, 44100);
    assert_eq!(spec.channels, 2);
}
