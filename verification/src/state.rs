//! What the player reports about playback.

use crate::seek::SeekPosition;
use crate::track::TrackId;
use vstd::prelude::*;

verus! {

/// Current state of the audio engine.
#[derive(Debug, PartialEq)]
pub enum PlaybackState {
    Stopped,
    Playing { track: TrackId, position: SeekPosition },
    Paused { track: TrackId, position: SeekPosition },
    /// The backend failed to open or decode the track (e.g. missing file, corrupt data).
    Failed { track: TrackId, error: String },
}

/// A playback state with positions in nanoseconds and messages as characters.
#[verifier::ext_equal]
pub enum StateView {
    Stopped,
    Playing { track: TrackId, position: nat },
    Paused { track: TrackId, position: nat },
    Failed { track: TrackId, error: Seq<char> },
}

impl View for PlaybackState {
    type V = StateView;

    open spec fn view(&self) -> StateView {
        match *self {
            PlaybackState::Stopped => StateView::Stopped,
            PlaybackState::Playing { track, position } => StateView::Playing {
                track,
                position: position@,
            },
            PlaybackState::Paused { track, position } => StateView::Paused {
                track,
                position: position@,
            },
            PlaybackState::Failed { track, error } => StateView::Failed { track, error: error@ },
        }
    }
}

impl StateView {
    /// The track that a state is about.
    pub open spec fn current_track(self) -> Option<TrackId> {
        match self {
            StateView::Stopped => None,
            StateView::Playing { track, .. } => Some(track),
            StateView::Paused { track, .. } => Some(track),
            StateView::Failed { track, .. } => Some(track),
        }
    }
}

impl Clone for PlaybackState {
    fn clone(&self) -> (state: Self)
        ensures
            state == *self,
    {
        match self {
            Self::Stopped => Self::Stopped,
            Self::Playing { track, position } => Self::Playing {
                track: *track,
                position: *position,
            },
            Self::Paused { track, position } => Self::Paused { track: *track, position: *position },
            Self::Failed { track, error } => Self::Failed { track: *track, error: error.clone() },
        }
    }
}

impl PlaybackState {
    pub fn is_stopped(&self) -> (r: bool)
        ensures
            r == (self is Stopped),
    {
        matches!(self, Self::Stopped)
    }

    pub fn is_playing(&self) -> (r: bool)
        ensures
            r == (self is Playing),
    {
        matches!(self, Self::Playing { .. })
    }

    /// The track that the state is about, or `None` when stopped.
    pub fn current_track(&self) -> (r: Option<TrackId>)
        ensures
            r == self@.current_track(),
            r == match *self {
                PlaybackState::Stopped => None,
                PlaybackState::Playing { track, .. } => Some(track),
                PlaybackState::Paused { track, .. } => Some(track),
                PlaybackState::Failed { track, .. } => Some(track),
            },
    {
        match self {
            Self::Stopped => None,
            Self::Playing { track, .. } => Some(*track),
            Self::Paused { track, .. } => Some(*track),
            Self::Failed { track, .. } => Some(*track),
        }
    }

    /// The playback position, or `None` when stopped or failed.
    pub fn position(&self) -> (r: Option<SeekPosition>)
        ensures
            r == match *self {
                PlaybackState::Playing { position, .. } => Some(position),
                PlaybackState::Paused { position, .. } => Some(position),
                _ => None,
            },
    {
        match self {
            Self::Stopped => None,
            Self::Playing { position, .. } => Some(*position),
            Self::Paused { position, .. } => Some(*position),
            Self::Failed { .. } => None,
        }
    }
}

} // verus!
