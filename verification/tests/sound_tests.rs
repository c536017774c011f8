use soundclip::sound::DEFAULT_VOLUME;
use soundclip::{Sound, SoundError};

#[test]
fn default_volume_is_identity_gain() {
    assert_eq!(DEFAULT_VOLUME, 1.0f32.to_bits());
}

#[test]
fn loaded_clip_has_default_settings() {
    let bytes = vec![1u8, 2, 3, 4];
    let sound = Sound::load(bytes.clone(), true).unwrap();
    assert_eq!(sound.volume(), 1.0f32.to_bits());
    assert_eq!(sound.clip().as_slice(), bytes.as_slice());
    let playback = sound.play(true).unwrap();
    assert!(!playback.loop_sound);
    assert_eq!(playback.volume, 1.0f32.to_bits());
}

#[test]
fn unrecognized_payload_is_rejected() {
    let result = Sound::load(vec![0u8; 16], false);
    assert!(matches!(result, Err(SoundError::UnrecognizedFormat)));
}

#[test]
fn volume_round_trips_exactly() {
    let mut sound = Sound::load(vec![9u8], true).unwrap();
    for v in [0.0f32, 1.0, 0.37, -2.5, 1.0e30, f32::MIN_POSITIVE] {
        sound.set_volume(v.to_bits());
        assert_eq!(sound.volume(), v.to_bits());
        assert_eq!(f32::from_bits(sound.volume()), v);
    }
    let nan_bits = f32::NAN.to_bits();
    sound.set_volume(nan_bits);
    assert_eq!(sound.volume(), nan_bits);
}

#[test]
fn plays_are_independent_and_frozen() {
    let mut sound = Sound::load(vec![7u8, 8], true).unwrap();
    sound.set_volume(2.0f32.to_bits());
    let first = sound.play(true).unwrap();
    let second = sound.play(true).unwrap();
    assert_eq!(first.volume, second.volume);
    assert_eq!(first.clip.as_slice(), second.clip.as_slice());
    drop(first);
    assert_eq!(second.volume, 2.0f32.to_bits());
    assert_eq!(second.clip.as_slice(), &[7u8, 8]);
    sound.set_volume(0.5f32.to_bits());
    assert_eq!(second.volume, 2.0f32.to_bits());
}

#[test]
fn clone_mutations_do_not_affect_original() {
    let mut original = Sound::load(vec![5u8, 6], true).unwrap();
    original.set_volume(0.75f32.to_bits());
    let mut copy = original.clone();
    assert_eq!(copy.volume(), 0.75f32.to_bits());
    assert!(std::sync::Arc::ptr_eq(original.clip(), copy.clip()));
    copy.set_volume(3.5f32.to_bits());
    copy.set_loop_sound(true);
    assert_eq!(original.volume(), 0.75f32.to_bits());
    let playback = original.play(true).unwrap();
    assert!(!playback.loop_sound);
    let copied_playback = copy.play(true).unwrap();
    assert!(copied_playback.loop_sound);
    assert_eq!(copied_playback.volume, 3.5f32.to_bits());
}

#[test]
fn loop_request_is_recorded() {
    let mut sound = Sound::load(vec![1u8], true).unwrap();
    sound.set_loop_sound(true);
    let looping = sound.play(true).unwrap();
    assert!(looping.loop_sound);
    sound.set_loop_sound(false);
    let single_pass = sound.play(true).unwrap();
    assert!(!single_pass.loop_sound);
}

#[test]
fn play_without_output_fails() {
    let sound = Sound::load(vec![1u8, 2], true).unwrap();
    let result = sound.play(false);
    assert!(matches!(result, Err(SoundError::NoOutputAvailable)));
}

#[test]
fn io_failure_maps_to_io_error_kind() {
    let missing = std::io::Error::new(std::io::ErrorKind::NotFound, "no such file");
    let error = SoundError::from(missing);
    assert!(matches!(error, SoundError::IOError(_)));
    assert_eq!(error.description(), "no such file");
}

#[test]
fn error_descriptions_are_fixed() {
    assert_eq!(
        SoundError::UnrecognizedFormat.description(),
        "The sound file format was not recognized"
    );
    assert_eq!(
        SoundError::NoOutputAvailable.description(),
        "There was no output device available for playing"
    );
}
