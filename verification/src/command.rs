//! What the player can be told to do.

use crate::seek::SeekPosition;
use crate::track::Track;
use crate::volume::Volume;
use vstd::prelude::*;

verus! {

/// Commands sent to the audio engine thread.
#[derive(Debug, Clone, PartialEq)]
pub enum PlayerCommand {
    // Boxed: `Track` is large, and an unboxed variant would bloat every command.
    Play(Box<Track>),
    /// Replaces the queue with `tracks` positioned at `start` and plays it. This
    /// is what `Next`/`Previous` and auto-advance then navigate through.
    PlayQueue { tracks: Vec<Track>, start: usize },
    /// Appends `tracks` to the end of the current queue without disturbing
    /// what's already playing. If the queue was empty, playback starts from
    /// the first appended track.
    Enqueue(Vec<Track>),
    /// Restores `tracks` at `start`, loaded paused at `position` — used on
    /// startup to reopen where the previous session left off, without resuming.
    RestorePaused { tracks: Vec<Track>, start: usize, position: SeekPosition },
    /// Replaces the queue's track list without disturbing playback: if the
    /// current track is present in `tracks`, its position resumes unchanged;
    /// otherwise playback stops. Used to reconcile the queue after a library
    /// change removes some of its tracks — the player is the sole owner of
    /// the queue, so the UI cannot just drop entries from its own copy.
    SetQueue(Vec<Track>),
    Pause,
    Resume,
    Stop,
    Seek(SeekPosition),
    SetVolume(Volume),
    Next,
    Previous,
}

} // verus!
