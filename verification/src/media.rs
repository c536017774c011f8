//! The readiness poll for an asynchronously loading media resource.
//!
//! On a platform whose media loading is asynchronous, the platform resource
//! is created first and then polled cooperatively: each poll inspects the
//! resource's error flag and its numeric ready state and decides whether the
//! load has succeeded, must be retried later, or has failed. The two
//! inspections are platform queries that may themselves fail; a failed
//! query arrives here as `None`.

use vstd::prelude::*;

use crate::error::SoundError;

verus! {

/// The platform's "can play through without further buffering" ready state.
pub const CAN_PLAY_THROUGH: u32 = 4;

/// Why a media load was given up.
#[derive(Clone, Copy, Debug, PartialEq, Eq, Structural)]
pub enum LoadFault {
    /// The resource reported an error state
    NotFound,
    /// Querying the resource's error flag failed
    ErrorQueryFailed,
    /// Querying the resource's ready state failed
    ReadyQueryFailed,
}

/// The verdict of one poll of a loading media resource.
#[derive(Clone, Copy, Debug, PartialEq, Eq, Structural)]
pub enum LoadPoll {
    /// The resource can play through: the load has succeeded
    Ready,
    /// Neither ready nor failed: yield control and poll again later
    Pending,
    /// The load has failed
    Failed(LoadFault),
}

/// The string payload that an I/O error was constructed over, for an error
/// built from one. The payload is stored in the error at construction and
/// never changes, so the messages of the load faults travel through it.
pub uninterp spec fn io_payload_text(e: std::io::Error) -> Seq<char>;

/// Relies on `std::io::Error::new`: the not-found I/O error it builds
/// stores the given message as its payload.
#[verifier::external_body]
fn io_not_found(msg: &'static str) -> (r: std::io::Error)
    ensures
        io_payload_text(r) == msg@,
{
    std::io::Error::new(std::io::ErrorKind::NotFound, msg)
}

/// The message that the IO-flavored load error carries for each fault.
pub open spec fn fault_text(f: LoadFault) -> Seq<char> {
    match f {
        LoadFault::NotFound => "Sound file not found or could not load"@,
        LoadFault::ErrorQueryFailed => "Checking sound network state failed"@,
        LoadFault::ReadyQueryFailed => "Checking sound ready state failed"@,
    }
}

impl LoadFault {
    /// The text that the IO-flavored load error carries for this fault.
    pub fn message(&self) -> (r: &'static str)
        ensures
            r@ == fault_text(*self),
    {
        match self {
            LoadFault::NotFound => "Sound file not found or could not load",
            LoadFault::ErrorQueryFailed => "Checking sound network state failed",
            LoadFault::ReadyQueryFailed => "Checking sound ready state failed",
        }
    }

    /// The fault as a `SoundError`: always the IO-flavored kind — a missing
    /// or unloadable resource is never reported as a format error — and the
    /// wrapped error is built over this fault's own message.
    pub fn to_error(&self) -> (r: SoundError)
        ensures
            r matches SoundError::IOError(e) && io_payload_text(e) == fault_text(*self),
    {
        SoundError::IOError(io_not_found(self.message()))
    }
}

/// Decide one poll step of an asynchronous media load from the platform's
/// two query results: the resource's error flag and its numeric ready
/// state, each `None` where the query itself failed.
///
/// The load succeeds exactly when the error flag reads clear and the ready
/// state reads "can play through"; a set error flag fails the load outright,
/// a failed query fails it with the matching fault, and any other readable
/// state leaves it pending.
pub fn poll_media(error_flag: Option<bool>, ready_state: Option<u32>) -> (r: LoadPoll)
    ensures
        r == LoadPoll::Ready <==> (error_flag == Some(false) && ready_state == Some(
            CAN_PLAY_THROUGH,
        )),
        r == LoadPoll::Pending <==> (error_flag == Some(false) && (ready_state matches Some(k)
            && k != CAN_PLAY_THROUGH)),
        r == LoadPoll::Failed(LoadFault::NotFound) <==> error_flag == Some(true),
        r == LoadPoll::Failed(LoadFault::ErrorQueryFailed) <==> error_flag is None,
        r == LoadPoll::Failed(LoadFault::ReadyQueryFailed) <==> (error_flag == Some(false)
            && ready_state is None),
{
    match error_flag {
        Some(true) => LoadPoll::Failed(LoadFault::NotFound),
        Some(false) => match ready_state {
            Some(k) => if k == CAN_PLAY_THROUGH {
                LoadPoll::Ready
            } else {
                LoadPoll::Pending
            },
            None => LoadPoll::Failed(LoadFault::ReadyQueryFailed),
        },
        None => LoadPoll::Failed(LoadFault::ErrorQueryFailed),
    }
}

} // verus!
