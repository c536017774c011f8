//! The error taxonomy for loading and playing sound clips.

use vstd::prelude::*;

verus! {

/// Declares `std::io::Error` to the verifier. Values of it are produced by
/// the caller's I/O layer and carried through opaquely inside
/// `SoundError::IOError`.
#[verifier::external_type_specification]
#[verifier::external_body]
pub struct ExIoError(std::io::Error);

/// An error generated when loading or playing a sound
#[derive(Debug)]
pub enum SoundError {
    /// The sound payload is not in a format that can be played
    UnrecognizedFormat,
    /// No output device was found to play the sound
    NoOutputAvailable,
    /// The sound was not found or could not be loaded
    IOError(std::io::Error),
}

broadcast use vstd::string::group_string_axioms;

/// Relies on the `std::fmt::Display` impl of `std::io::Error` (via
/// `format!`) to render the underlying I/O failure as text. Nothing is
/// stated of the result: the rendering follows the payload's own `Display`
/// and, for platform errors, the process locale, so it is not a function of
/// the error value alone.
#[verifier::external_body]
fn io_message(err: &std::io::Error) -> String {
    format!("{}", err)
}

impl SoundError {
    /// A human-readable description of the error, one fixed sentence per
    /// kind; for an I/O failure, the underlying error's text as it renders
    /// at the time of the call.
    pub fn description(&self) -> (r: String)
        ensures
            self is UnrecognizedFormat ==> r@ == "The sound file format was not recognized"@,
            self is NoOutputAvailable ==> r@ == "There was no output device available for playing"@,
    {
        match self {
            SoundError::UnrecognizedFormat => "The sound file format was not recognized".to_string(),
            SoundError::NoOutputAvailable => "There was no output device available for playing".to_string(),
            SoundError::IOError(err) => io_message(err),
        }
    }
}

impl core::convert::From<std::io::Error> for SoundError {
    fn from(err: std::io::Error) -> SoundError {
        SoundError::IOError(err)
    }
}

impl vstd::std_specs::convert::FromSpecImpl<std::io::Error> for SoundError {
    open spec fn obeys_from_spec() -> bool {
        true
    }

    open spec fn from_spec(v: std::io::Error) -> SoundError {
        SoundError::IOError(v)
    }
}

} // verus!
