//! The `Sound` value type: a loaded audio clip with per-value volume and
//! loop settings, and the playback instances it produces.
//!
//! A `Sound` owns the clip's bytes behind a shared, reference-counted,
//! read-only buffer, so clones and concurrent playback instances never copy
//! it. The audio backend (decoder, output device, mixer) is an outside
//! capability: it decides up front whether a payload is decodable and
//! whether an output device exists, and those verdicts are handed to `load`
//! and `play` as plain values; in return, `play` hands the backend a
//! `Playback` describing exactly what to start.

use std::sync::Arc;
use vstd::prelude::*;

use crate::error::SoundError;

verus! {

/// The IEEE 754 single-precision bit pattern of the identity gain, the
/// default volume of a freshly loaded clip.
pub const DEFAULT_VOLUME: u32 = 0x3F80_0000;

/// The mathematical value of a `Sound`: the clip's bytes together with the
/// two playback parameters.
pub ghost struct SoundView {
    pub clip: Seq<u8>,
    pub volume: u32,
    pub loop_sound: bool,
}

/// The state of a clip as `load` first hands it out: the given bytes,
/// identity gain, no looping.
pub open spec fn freshly_loaded(s: SoundView, clip: Seq<u8>) -> bool {
    s.clip == clip && s.volume == DEFAULT_VOLUME && !s.loop_sound
}

/// The sound state `s` with its volume replaced and everything else kept.
pub open spec fn with_volume(s: SoundView, volume: u32) -> SoundView {
    SoundView { volume, ..s }
}

/// The sound state `s` with its loop flag replaced and everything else kept.
pub open spec fn with_loop(s: SoundView, loop_sound: bool) -> SoundView {
    SoundView { loop_sound, ..s }
}

/// A clip of sound stored in memory
///
/// It can be played an arbitrary number of times and concurrently with
/// itself, so one value per clip suffices. Clones share the clip's bytes;
/// their volume and loop settings are copied at clone time and mutated
/// independently afterward.
///
/// The volume is carried as the raw bit pattern of the caller's
/// single-precision gain value — the gain is multiplicative, and the bits
/// travel through unchanged, so setting and reading the volume round-trips
/// exactly; the audio backend reassembles the gain from the bits when it
/// builds its output pipeline.
#[derive(Debug)]
pub struct Sound {
    val: Arc<Vec<u8>>,
    volume: u32,
    loop_sound: bool,
}

impl View for Sound {
    type V = SoundView;

    closed spec fn view(&self) -> SoundView {
        SoundView { clip: self.val@, volume: self.volume, loop_sound: self.loop_sound }
    }
}

/// Relies on `std::sync::Arc::clone`: the clone is a new handle to the same
/// allocation, hence carries the same value.
#[verifier::external_body]
fn share_clip(clip: &Arc<Vec<u8>>) -> (r: Arc<Vec<u8>>)
    ensures
        r == *clip,
{
    Arc::clone(clip)
}

/// One requested playback instance: everything the audio backend needs to
/// start it — the shared clip bytes, and the gain and loop flag frozen at
/// the moment `play` was called. Later changes to the `Sound` do not reach
/// an instance already produced, and instances never affect one another.
#[derive(Debug)]
pub struct Playback {
    /// The clip's bytes, shared with the `Sound` that produced the instance
    pub clip: Arc<Vec<u8>>,
    /// The gain to apply, as its single-precision bit pattern
    pub volume: u32,
    /// Whether the backend should repeat the clip indefinitely
    pub loop_sound: bool,
}

/// The playback instance `p` realizes the sound state `s`: the same clip,
/// played at the gain and loop setting that `s` held when `p` was made.
pub open spec fn instance_of(p: Playback, s: SoundView) -> bool {
    p.clip@ == s.clip && p.volume == s.volume && p.loop_sound == s.loop_sound
}

impl Sound {
    /// Build a `Sound` from the raw bytes of an audio payload.
    ///
    /// Whether the payload is in a recognized audio format is decided by the
    /// caller's decode capability, which is asked to construct a decoder
    /// over the bytes before anything else; its verdict arrives here as
    /// `decodable`. A recognized payload yields a clip with the default
    /// volume and looping disabled; an unrecognized one fails fast with
    /// `UnrecognizedFormat` at load time rather than at play time.
    pub fn load(clip: Vec<u8>, decodable: bool) -> (r: Result<Sound, SoundError>)
        ensures
            decodable ==> (r matches Ok(s) && freshly_loaded(s@, clip@)),
            !decodable ==> (r matches Err(e) && e is UnrecognizedFormat),
    {
        if decodable {
            Ok(Sound { val: Arc::new(clip), volume: DEFAULT_VOLUME, loop_sound: false })
        } else {
            Err(SoundError::UnrecognizedFormat)
        }
    }

    /// Get the volume of the sound clip instance, as the bit pattern of the
    /// gain
    ///
    /// The gain is multiplicative: the identity leaves the clip as recorded,
    /// zero is silence, larger values amplify. Note that sound is not
    /// perceived linearly, so results may not correspond as expected.
    pub fn volume(&self) -> (r: u32)
        ensures
            r == self@.volume,
    {
        self.volume
    }

    /// Set the volume of the sound clip instance, as the bit pattern of the
    /// gain
    ///
    /// Only instances started by later `play` calls are affected; the value
    /// is not clamped or otherwise adjusted, so reading it back yields
    /// exactly the bits that were set.
    pub fn set_volume(&mut self, volume: u32)
        ensures
            final(self)@ == with_volume(old(self)@, volume),
    {
        self.volume = volume;
    }

    /// Set looping sound
    ///
    /// If set, instances started by later `play` calls replay the clip
    /// indefinitely after it finishes.
    pub fn set_loop_sound(&mut self, loop_sound: bool)
        ensures
            final(self)@ == with_loop(old(self)@, loop_sound),
    {
        self.loop_sound = loop_sound;
    }

    /// The clip's bytes, shared read-only with every clone of this `Sound`
    /// and with every instance produced from them.
    pub fn clip(&self) -> (r: &Arc<Vec<u8>>)
        ensures
            r@ == self@.clip,
    {
        &self.val
    }

    /// Start a new, independent playback instance of the clip at its current
    /// volume
    ///
    /// The audio backend is first asked whether a default output device
    /// exists; its answer arrives here as `output_available`. Without a
    /// device the call fails with `NoOutputAvailable`; otherwise a fresh
    /// instance is produced, frozen at the current volume and loop settings.
    /// The sound clip can be played over itself: each call yields its own
    /// instance, and future changes in volume will not change the sound
    /// emitted for an instance already returned.
    pub fn play(&self, output_available: bool) -> (r: Result<Playback, SoundError>)
        ensures
            output_available ==> (r matches Ok(p) && instance_of(p, self@)),
            !output_available ==> (r matches Err(e) && e is NoOutputAvailable),
    {
        if output_available {
            Ok(Playback {
                clip: share_clip(&self.val),
                volume: self.volume,
                loop_sound: self.loop_sound,
            })
        } else {
            Err(SoundError::NoOutputAvailable)
        }
    }
}

impl Clone for Sound {
    /// The clone shares the clip's bytes and starts with copies of the
    /// volume and loop settings; afterward the two values are mutated
    /// independently.
    fn clone(&self) -> (r: Sound)
        ensures
            r@ == self@,
    {
        Sound {
            val: share_clip(&self.val),
            volume: self.volume,
            loop_sound: self.loop_sound,
        }
    }
}

/// For every sound state and every volume value, setting the volume and then
/// reading it back yields exactly the bits that were set, and nothing else
/// of the sound changes.
pub proof fn volume_round_trip(s: SoundView, volume: u32)
    ensures
        with_volume(s, volume).volume == volume,
        with_volume(s, volume).clip == s.clip,
        with_volume(s, volume).loop_sound == s.loop_sound,
{
}

/// Any two playback instances produced from the same sound state agree on
/// the clip, the gain and the loop flag; each is nonetheless a separately
/// owned value, so stopping or dropping one cannot reach the other.
pub proof fn instances_agree(p1: Playback, p2: Playback, s: SoundView)
    requires
        instance_of(p1, s),
        instance_of(p2, s),
    ensures
        p1.clip@ == p2.clip@,
        p1.volume == p2.volume,
        p1.loop_sound == p2.loop_sound,
{
}

} // verus!
