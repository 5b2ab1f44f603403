//! Audio capture boundary. `audio_data` is pure; recorders implement
//! [`AudioRecorder`].

pub mod audio_data;

use crate::text::{chars_contain, chars_of, contains, lower_chars, lower_seq, owned, push_str};
use audio_data::AudioData;
use vstd::prelude::*;

verus! {

/// Errors from the microphone boundary.
#[derive(Debug, PartialEq, Eq)]
pub enum AudioError {
    NoDevice,
    PermissionDenied,
    NotRecording,
    Device(String),
}

impl Clone for AudioError {
    fn clone(&self) -> (r: Self)
        ensures
            r == *self,
    {
        match self {
            AudioError::NoDevice => AudioError::NoDevice,
            AudioError::PermissionDenied => AudioError::PermissionDenied,
            AudioError::NotRecording => AudioError::NotRecording,
            AudioError::Device(s) => AudioError::Device(s.clone()),
        }
    }
}

/// The text shown for an [`AudioError`].
pub open spec fn audio_error_text(e: AudioError) -> Seq<char> {
    match e {
        AudioError::NoDevice => "no input device available"@,
        AudioError::PermissionDenied => "microphone permission denied"@,
        AudioError::NotRecording => "recorder is not recording"@,
        AudioError::Device(s) => "audio device error: "@ + s@,
    }
}

impl AudioError {
    /// The human-readable message of this error.
    pub fn message(&self) -> (r: String)
        ensures
            r@ == audio_error_text(*self),
    {
        match self {
            AudioError::NoDevice => owned("no input device available"),
            AudioError::PermissionDenied => owned("microphone permission denied"),
            AudioError::NotRecording => owned("recorder is not recording"),
            AudioError::Device(s) => {
                let mut r = owned("audio device error: ");
                push_str(&mut r, s.as_str());
                r
            },
        }
    }
}

/// The variant of its own that a device error message gets, matched
/// case-insensitively: a permission problem or a missing device. `None`
/// where the message names neither and is kept as it is.
pub open spec fn dedicated_device_error(message: Seq<char>) -> Option<AudioError> {
    let lower = lower_seq(message);
    if contains(lower, "permission"@) || contains(lower, "denied"@) || contains(lower, "access"@) {
        Some(AudioError::PermissionDenied)
    } else if contains(lower, "no such device"@) || contains(lower, "not found"@) {
        Some(AudioError::NoDevice)
    } else {
        None
    }
}

/// Maps a device error message to an [`AudioError`]: permission problems and
/// missing devices get their own variants, any other message is kept as it
/// is.
pub fn map_device_error(message: &str) -> (r: AudioError)
    ensures
        match dedicated_device_error(message@) {
            Some(e) => r == e,
            None => r matches AudioError::Device(s) && s@ == message@,
        },
{
    let lower = lower_chars(&chars_of(message));
    if chars_contain(&lower, &chars_of("permission")) || chars_contain(&lower, &chars_of("denied"))
        || chars_contain(&lower, &chars_of("access")) {
        AudioError::PermissionDenied
    } else if chars_contain(&lower, &chars_of("no such device")) || chars_contain(
        &lower,
        &chars_of("not found"),
    ) {
        AudioError::NoDevice
    } else {
        AudioError::Device(owned(message))
    }
}

/// A microphone. Only active between `start` and `stop`; Idle means the
/// device is fully released.
pub trait AudioRecorder {
    /// What a call of `start` may do: turn the recorder `self` into `after`
    /// and answer `answer`.
    spec fn starts(&self, after: &Self, answer: Result<(), AudioError>) -> bool;

    /// What a call of `stop` may do: turn the recorder `self` into `after`
    /// and answer `answer`.
    spec fn stops(&self, after: &Self, answer: Result<AudioData, AudioError>) -> bool;

    fn start(&mut self) -> (r: Result<(), AudioError>)
        ensures
            old(self).starts(final(self), r),
    ;

    fn stop(&mut self) -> (r: Result<AudioData, AudioError>)
        ensures
            old(self).stops(final(self), r),
    ;
}

} // verus!
