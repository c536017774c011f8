//! A small sound-playback library: load an audio clip, adjust its volume and
//! loop flag, and describe playback instances that an audio backend carries out.
//!
//! The decisions of the library — when loading succeeds, what a playback
//! instance consists of, how the browser-style readiness poll resolves — are
//! verified; the audio backend itself (decoding, mixing, output devices) is an
//! outside capability that consumes the values produced here.

pub mod error;
pub mod media;
pub mod sound;

pub use error::SoundError;
pub use media::LoadFault;
pub use media::LoadPoll;
pub use sound::Playback;
pub use sound::Sound;
