//! The interface to the audio hardware.

use crate::seek::duration_nanos;
use crate::track::TrackPath;
use crate::volume::Volume;
use std::time::Duration;
use vstd::prelude::*;
use vstd::string::StringExecFns;

verus! {

/// Why the backend could not open or decode something.
#[derive(Debug)]
pub enum AudioError {
    /// The audio output could not be opened.
    Device(String),
    /// A file could not be decoded: its name, and what went wrong.
    Decode(String, String),
}

impl AudioError {
    /// The words that describe the error to the user.
    pub open spec fn message_view(self) -> Seq<char> {
        match self {
            AudioError::Device(cause) => "failed to open audio output: "@ + cause@,
            AudioError::Decode(file, cause) => "failed to decode "@ + file@ + ": "@ + cause@,
        }
    }

    /// Describes the error to the user.
    pub fn message(&self) -> (r: String)
        ensures
            r@ == self.message_view(),
            r@ == match *self {
                AudioError::Device(cause) => "failed to open audio output: "@ + cause@,
                AudioError::Decode(file, cause) => "failed to decode "@ + file@ + ": "@ + cause@,
            },
    {
        match self {
            AudioError::Device(cause) => "failed to open audio output: ".to_owned().concat(
                cause.as_str(),
            ),
            AudioError::Decode(file, cause) => "failed to decode ".to_owned().concat(
                file.as_str(),
            ).concat(": ").concat(cause.as_str()),
        }
    }
}

/// What the audio hardware is doing right now.
#[derive(Debug, Clone, Copy, PartialEq, Eq, Structural)]
pub enum BackendState {
    Playing,
    Paused,
    /// No source loaded, or the loaded source finished on its own. Also the
    /// state of a backend on which `resume()` was called with nothing to
    /// resume — checked before reporting `Playing`, so a resume after a
    /// decode failure never claims audio that isn't there.
    Idle,
}

/// A call of the backend, with what is handed to it. Positions are in nanoseconds.
#[verifier::ext_equal]
pub enum BackendCall {
    Play(Seq<char>),
    PlayPaused(Seq<char>, nat),
    Seek(nat),
    Pause,
    Resume,
    Stop,
    SetVolume(Volume),
    State,
    Position,
}

/// What the backend hands back from a call.
pub enum BackendAnswer {
    Done,
    Loaded(Result<(), AudioError>),
    State(BackendState),
    Position(Duration),
}

/// Drives the underlying audio hardware.
///
/// Intentionally not `Send` — implementations may hold OS audio handles tied
/// to the thread that created them. The player thread creates its own instance.
///
/// Nothing is assumed of an implementation: `responds` stands for whatever its methods do,
/// admits everything unless an implementation says more, and serves to say which calls are
/// made.
pub trait AudioBackend: Sized {
    /// A backend in state `before` that gets `call` may hand back `answer` and be in
    /// state `after`.
    open spec fn responds(
        before: Self,
        call: BackendCall,
        answer: BackendAnswer,
        after: Self,
    ) -> bool {
        true
    }

    fn play(&mut self, path: &TrackPath) -> (r: Result<(), AudioError>)
        ensures
            Self::responds(
                *old(self),
                BackendCall::Play(path@),
                BackendAnswer::Loaded(r),
                *final(self),
            ),
    ;

    /// Loads `path` and holds it paused at `position`, with no audible playback,
    /// so a restored session reopens where it left off without resuming.
    fn play_paused(&mut self, path: &TrackPath, position: Duration) -> (r: Result<(), AudioError>)
        ensures
            Self::responds(
                *old(self),
                BackendCall::PlayPaused(path@, duration_nanos(position) as nat),
                BackendAnswer::Loaded(r),
                *final(self),
            ),
    ;

    /// Moves the play head of the current track to `position`.
    fn seek(&mut self, position: Duration)
        ensures
            Self::responds(
                *old(self),
                BackendCall::Seek(duration_nanos(position) as nat),
                BackendAnswer::Done,
                *final(self),
            ),
    ;

    fn pause(&mut self)
        ensures
            Self::responds(*old(self), BackendCall::Pause, BackendAnswer::Done, *final(self)),
    ;

    fn resume(&mut self)
        ensures
            Self::responds(*old(self), BackendCall::Resume, BackendAnswer::Done, *final(self)),
    ;

    fn stop(&mut self)
        ensures
            Self::responds(*old(self), BackendCall::Stop, BackendAnswer::Done, *final(self)),
    ;

    fn set_volume(&mut self, volume: Volume)
        ensures
            Self::responds(
                *old(self),
                BackendCall::SetVolume(volume),
                BackendAnswer::Done,
                *final(self),
            ),
    ;

    fn state(&self) -> (r: BackendState)
        ensures
            Self::responds(*self, BackendCall::State, BackendAnswer::State(r), *self),
    ;

    fn position(&self) -> (r: Duration)
        ensures
            Self::responds(*self, BackendCall::Position, BackendAnswer::Position(r), *self),
    ;
}

} // verus!
