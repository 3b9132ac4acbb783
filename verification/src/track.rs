//! Tracks as the player sees them.

use vstd::prelude::*;

verus! {

/// Identifies a track in the music library.
#[derive(Debug, Clone, Copy, PartialEq, Eq, Structural)]
pub struct TrackId {
    pub number: i64,
}

impl TrackId {
    pub fn new(number: i64) -> (id: Self)
        ensures
            id.number == number,
    {
        TrackId { number }
    }
}

/// Where the audio of a track is stored. The player hands it to the backend unread.
#[derive(Debug, PartialEq, Eq)]
pub struct TrackPath {
    pub text: String,
}

impl View for TrackPath {
    type V = Seq<char>;

    open spec fn view(&self) -> Seq<char> {
        self.text@
    }
}

impl TrackPath {
    pub fn new(text: String) -> (path: Self)
        ensures
            path.text == text,
    {
        TrackPath { text }
    }
}

impl Clone for TrackPath {
    fn clone(&self) -> (path: Self)
        ensures
            path == *self,
    {
        TrackPath { text: self.text.clone() }
    }
}

/// A track of the music library. The player reads `id` and `path` and passes the rest on.
#[derive(Debug, PartialEq, Eq)]
pub struct Track {
    pub id: TrackId,
    pub path: TrackPath,
    pub title: String,
    pub artist: String,
    pub album_artist: String,
    pub album: String,
    pub genre: String,
    pub composer: String,
    /// Playing time in seconds.
    pub duration: u64,
    pub track_number: u32,
    pub disc_number: u32,
    pub year: u32,
}

impl Clone for Track {
    fn clone(&self) -> (track: Self)
        ensures
            track == *self,
    {
        Track {
            id: self.id,
            path: self.path.clone(),
            title: self.title.clone(),
            artist: self.artist.clone(),
            album_artist: self.album_artist.clone(),
            album: self.album.clone(),
            genre: self.genre.clone(),
            composer: self.composer.clone(),
            duration: self.duration,
            track_number: self.track_number,
            disc_number: self.disc_number,
            year: self.year,
        }
    }
}

/// Position `i` holds the first track of `tracks` with this id.
pub open spec fn is_first_with_id(tracks: Seq<Track>, id: TrackId, i: int) -> bool {
    &&& 0 <= i < tracks.len()
    &&& tracks[i].id == id
    &&& forall|j: int| 0 <= j < i ==> (#[trigger] tracks[j]).id != id
}

/// The position of the first track of `tracks` with this id, if there is one.
pub open spec fn first_with_id(tracks: Seq<Track>, id: TrackId) -> Option<int> {
    if exists|i: int| is_first_with_id(tracks, id, i) {
        Some(choose|i: int| is_first_with_id(tracks, id, i))
    } else {
        None
    }
}

/// A track with this id is among `tracks`.
pub open spec fn has_id(tracks: Seq<Track>, id: TrackId) -> bool {
    exists|i: int| 0 <= i < tracks.len() && (#[trigger] tracks[i]).id == id
}

/// A position is found exactly when the id is there.
pub proof fn lemma_first_with_id(tracks: Seq<Track>, id: TrackId)
    ensures
        first_with_id(tracks, id) is Some <==> has_id(tracks, id),
        first_with_id(tracks, id) matches Some(i) ==> is_first_with_id(tracks, id, i),
    decreases tracks.len(),
{
    if has_id(tracks, id) && !exists|i: int| is_first_with_id(tracks, id, i) {
        let last = tracks.len() - 1;
        let shorter = tracks.drop_last();
        lemma_first_with_id(shorter, id);
        if has_id(shorter, id) {
            let i = first_with_id(shorter, id).unwrap();
            assert(is_first_with_id(tracks, id, i)) by {
                assert forall|j: int| 0 <= j < i implies (#[trigger] tracks[j]).id != id by {
                    assert(shorter[j] == tracks[j]);
                }
            }
        } else {
            assert(is_first_with_id(tracks, id, last)) by {
                let k = choose|k: int| 0 <= k < tracks.len() && (#[trigger] tracks[k]).id == id;
                assert(k < last ==> shorter[k].id == id);
                assert forall|j: int| 0 <= j < last implies (#[trigger] tracks[j]).id != id by {
                    assert(shorter[j] == tracks[j]);
                }
            }
        }
    }
    if exists|i: int| is_first_with_id(tracks, id, i) {
        let i = choose|i: int| is_first_with_id(tracks, id, i);
        assert(tracks[i].id == id);
    }
}

/// Finds the first track with this id.
pub fn position_of(tracks: &Vec<Track>, id: TrackId) -> (r: Option<usize>)
    ensures
        r matches Some(i) ==> first_with_id(tracks@, id) == Some(i as int),
        r is None ==> first_with_id(tracks@, id) is None,
        r matches Some(i) ==> i < tracks@.len() && tracks@[i as int].id == id && forall|j: int|
            0 <= j < i ==> (#[trigger] tracks@[j]).id != id,
        r is None ==> forall|j: int| 0 <= j < tracks@.len() ==> (#[trigger] tracks@[j]).id != id,
{
    let mut i: usize = 0;
    while i < tracks.len()
        invariant
            0 <= i <= tracks.len(),
            forall|j: int| 0 <= j < i ==> (#[trigger] tracks@[j]).id != id,
        decreases tracks.len() - i,
    {
        if tracks[i].id == id {
            proof {
                lemma_first_with_id(tracks@, id);
                assert(is_first_with_id(tracks@, id, i as int));
            }
            return Some(i);
        }
        i += 1;
    }
    proof {
        lemma_first_with_id(tracks@, id);
    }
    None
}

/// Copies a list of tracks.
pub fn copy_tracks(tracks: &Vec<Track>) -> (copy: Vec<Track>)
    ensures
        copy@ == tracks@,
{
    let mut copy: Vec<Track> = Vec::new();
    let mut i: usize = 0;
    while i < tracks.len()
        invariant
            0 <= i <= tracks.len(),
            copy@ == tracks@.take(i as int),
        decreases tracks.len() - i,
    {
        copy.push(tracks[i].clone());
        i += 1;
        assert(tracks@.take(i as int) == tracks@.take(i - 1).push(tracks@[i - 1]));
    }
    assert(tracks@.take(i as int) == tracks@);
    copy
}

} // verus!
