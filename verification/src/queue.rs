//! The play queue: a list of tracks and a cursor on the current one.

use crate::track::{copy_tracks, Track};
use vstd::prelude::*;

verus! {

/// A queue as a mathematical value: its tracks and the index of the current one.
#[verifier::ext_equal]
pub struct QueueView {
    pub tracks: Seq<Track>,
    pub cursor: int,
}

impl QueueView {
    /// The cursor is on a track, or at the start of an empty list.
    pub open spec fn wf(self) -> bool {
        0 <= self.cursor && (self.cursor < self.tracks.len() || (self.tracks.len() == 0
            && self.cursor == 0))
    }

    pub open spec fn empty() -> Self {
        QueueView { tracks: Seq::empty(), cursor: 0 }
    }

    /// `tracks` with the cursor at `start`, or on the last track if `start` is past the end.
    pub open spec fn positioned(tracks: Seq<Track>, start: int) -> Self {
        QueueView {
            tracks,
            cursor: if start < tracks.len() {
                start
            } else if tracks.len() > 0 {
                tracks.len() - 1
            } else {
                0
            },
        }
    }

    /// The track under the cursor.
    pub open spec fn current(self) -> Option<Track> {
        if 0 <= self.cursor < self.tracks.len() {
            Some(self.tracks[self.cursor])
        } else {
            None
        }
    }

    /// There is a track after the current one.
    pub open spec fn has_next(self) -> bool {
        self.cursor + 1 < self.tracks.len()
    }

    /// There is a track before the current one.
    pub open spec fn has_previous(self) -> bool {
        self.cursor > 0
    }

    /// The cursor one track on, or where it was on the last track.
    pub open spec fn advanced(self) -> Self {
        QueueView { cursor: if self.has_next() { self.cursor + 1 } else { self.cursor }, ..self }
    }

    /// The cursor one track back, or where it was on the first track.
    pub open spec fn rewound(self) -> Self {
        QueueView {
            cursor: if self.has_previous() { self.cursor - 1 } else { self.cursor },
            ..self
        }
    }

    /// More tracks at the end, the cursor where it was.
    pub open spec fn appended(self, tracks: Seq<Track>) -> Self {
        QueueView { tracks: self.tracks + tracks, ..self }
    }
}

/// Ordered tracks and a cursor on the current one.
#[derive(Debug)]
pub struct Queue {
    tracks: Vec<Track>,
    cursor: usize,
}

impl View for Queue {
    type V = QueueView;

    closed spec fn view(&self) -> QueueView {
        QueueView { tracks: self.tracks@, cursor: self.cursor as int }
    }
}

impl Queue {
    pub fn empty() -> (queue: Self)
        ensures
            queue@ == QueueView::empty(),
            queue@.wf(),
            queue@.tracks.len() == 0,
            queue@.cursor == 0,
    {
        Queue { tracks: Vec::new(), cursor: 0 }
    }

    /// A queue of one track, which is the current one.
    pub fn single(track: Track) -> (queue: Self)
        ensures
            queue@ == QueueView::positioned(seq![track], 0),
            queue@.wf(),
            queue@.tracks == seq![track],
            queue@.cursor == 0,
    {
        let mut tracks: Vec<Track> = Vec::new();
        tracks.push(track);
        Self::new(tracks, 0)
    }

    /// A queue of `tracks` positioned at `start`; a `start` past the end is taken as the
    /// last track.
    pub fn new(tracks: Vec<Track>, start: usize) -> (queue: Self)
        ensures
            queue@ == QueueView::positioned(tracks@, start as int),
            queue@.wf(),
            queue@.tracks == tracks@,
            start < tracks@.len() ==> queue@.cursor == start,
            0 < tracks@.len() <= start ==> queue@.cursor == tracks@.len() - 1,
            tracks@.len() == 0 ==> queue@.cursor == 0,
    {
        let cursor: usize = if start < tracks.len() {
            start
        } else if tracks.len() > 0 {
            tracks.len() - 1
        } else {
            0
        };
        Queue { tracks, cursor }
    }

    /// The track under the cursor, or `None` in an empty queue.
    pub fn current(&self) -> (r: Option<&Track>)
        ensures
            r matches Some(track) ==> self@.current() == Some(*track),
            r is None ==> self@.current() is None,
            r is Some <==> 0 <= self@.cursor < self@.tracks.len(),
            r matches Some(track) ==> *track == self@.tracks[self@.cursor],
    {
        if self.cursor < self.tracks.len() {
            Some(&self.tracks[self.cursor])
        } else {
            None
        }
    }

    pub fn is_empty(&self) -> (r: bool)
        ensures
            r == (self@.tracks.len() == 0),
    {
        self.tracks.is_empty()
    }

    pub fn tracks(&self) -> (r: &[Track])
        ensures
            r@ == self@.tracks,
    {
        self.tracks.as_slice()
    }

    /// A copy of the track list.
    pub fn snapshot(&self) -> (r: Vec<Track>)
        ensures
            r@ == self@.tracks,
    {
        copy_tracks(&self.tracks)
    }

    /// Appends `tracks` behind the last track.
    pub fn append(&mut self, tracks: Vec<Track>)
        requires
            old(self)@.wf(),
        ensures
            final(self)@ == old(self)@.appended(tracks@),
            final(self)@.wf(),
            final(self)@.tracks == old(self)@.tracks + tracks@,
            final(self)@.cursor == old(self)@.cursor,
    {
        let mut tracks = tracks;
        self.tracks.append(&mut tracks);
    }

    /// Moves the cursor to the next track and returns it. On the last track, and in an
    /// empty queue, nothing moves and `None` is returned.
    pub fn advance(&mut self) -> (r: Option<&Track>)
        requires
            old(self)@.wf(),
        ensures
            final(self)@ == old(self)@.advanced(),
            final(self)@.wf(),
            old(self)@.has_next() ==> (r matches Some(track) && Some(*track)
                == old(self)@.advanced().current()),
            !old(self)@.has_next() ==> r is None,
            final(self)@.tracks == old(self)@.tracks,
            old(self)@.cursor + 1 < old(self)@.tracks.len() ==> final(self)@.cursor
                == old(self)@.cursor + 1 && (r matches Some(track) && *track
                == old(self)@.tracks[old(self)@.cursor + 1]),
            old(self)@.cursor + 1 >= old(self)@.tracks.len() ==> final(self)@.cursor
                == old(self)@.cursor && r is None,
    {
        if self.tracks.len() > 0 && self.cursor < self.tracks.len() - 1 {
            self.cursor = self.cursor + 1;
            Some(&self.tracks[self.cursor])
        } else {
            None
        }
    }

    /// Moves the cursor to the previous track and returns it. On the first track, and in
    /// an empty queue, nothing moves and `None` is returned.
    pub fn rewind(&mut self) -> (r: Option<&Track>)
        requires
            old(self)@.wf(),
        ensures
            final(self)@ == old(self)@.rewound(),
            final(self)@.wf(),
            old(self)@.has_previous() ==> (r matches Some(track) && Some(*track)
                == old(self)@.rewound().current()),
            !old(self)@.has_previous() ==> r is None,
            final(self)@.tracks == old(self)@.tracks,
            old(self)@.cursor > 0 ==> final(self)@.cursor == old(self)@.cursor - 1 && (
            r matches Some(track) && *track == old(self)@.tracks[old(self)@.cursor - 1]),
            old(self)@.cursor == 0 ==> final(self)@.cursor == 0 && r is None,
    {
        if self.cursor > 0 {
            self.cursor = self.cursor - 1;
            Some(&self.tracks[self.cursor])
        } else {
            None
        }
    }
}

} // verus!
