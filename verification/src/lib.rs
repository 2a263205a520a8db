//! Asynchronous bindings to the PulseAudio client library.

pub mod config;
pub mod context;
pub mod ffi;
pub mod mainloop;
pub mod status;
pub mod stream;

pub use self::config::{ChannelMap, SampleFormat, SampleSpec};
pub use self::context::Context;
pub use self::stream::Stream;
