use std::cell::RefCell;
use std::sync::atomic::{AtomicBool, Ordering};
use std::sync::Arc;
use std::time::Duration;

use player::{
    AudioBackend, AudioError, BackendState, Callbacks, Listener, LoopState, PlaybackState, Player,
    PlayerCommand, SeekPosition, Step, Track, TrackId, TrackPath, Volume,
};

struct MockAudioBackend {
    state: BackendState,
    volume: f32,
    position: Duration,
    calls: Vec<String>,
}

impl MockAudioBackend {
    fn new() -> Self {
        Self {
            state: BackendState::Idle,
            volume: 1.0,
            position: Duration::ZERO,
            calls: Vec::new(),
        }
    }
}

impl AudioBackend for MockAudioBackend {
    fn play(&mut self, path: &TrackPath) -> Result<(), AudioError> {
        self.calls.push(format!("play {}", path.text));
        self.state = BackendState::Playing;
        self.position = Duration::ZERO;
        Ok(())
    }
    fn play_paused(&mut self, path: &TrackPath, position: Duration) -> Result<(), AudioError> {
        self.calls.push(format!("play_paused {} {position:?}", path.text));
        self.state = BackendState::Paused;
        Ok(())
    }
    fn pause(&mut self) {
        self.calls.push("pause".into());
        self.state = BackendState::Paused;
    }
    fn resume(&mut self) {
        self.calls.push("resume".into());
        self.state = BackendState::Playing;
    }
    fn stop(&mut self) {
        self.calls.push("stop".into());
        self.state = BackendState::Idle;
    }
    fn set_volume(&mut self, v: Volume) {
        self.calls.push("set_volume".into());
        self.volume = f32::from_bits(v.value());
    }
    fn state(&self) -> BackendState {
        self.state
    }
    fn seek(&mut self, position: Duration) {
        self.calls.push(format!("seek {position:?}"));
        self.position = position;
    }
    fn position(&self) -> Duration {
        self.position
    }
}

/// Keeps what is reported.
#[derive(Default)]
struct Record {
    states: Vec<PlaybackState>,
    queues: Vec<Vec<Track>>,
}

impl Listener for Record {
    fn on_state(&mut self, state: PlaybackState) {
        self.states.push(state);
    }
    fn on_queue_changed(&mut self, tracks: Vec<Track>) {
        self.queues.push(tracks);
    }
}

/// A player and its backend, and what was reported and not yet looked at.
struct Rig<B: AudioBackend> {
    player: Player,
    backend: B,
    states: Vec<PlaybackState>,
    queues: Vec<Vec<Track>>,
}

impl<B: AudioBackend> Rig<B> {
    fn launch(backend: B) -> Self {
        Rig {
            player: Player::new(),
            backend,
            states: Vec::new(),
            queues: Vec::new(),
        }
    }

    fn settle(&mut self) {
        let mut record = Record::default();
        self.player.settle(&mut self.backend, &mut record);
        assert!(self.player.is_idle());
        self.states.extend(record.states);
        self.queues.extend(record.queues);
    }

    fn send(&mut self, command: PlayerCommand) {
        assert!(self.player.is_idle());
        self.player.command(command);
        self.settle();
    }

    /// Lets 250 ms go by.
    fn wait(&mut self) {
        if let Some(millis) = self.player.tick_millis() {
            assert_eq!(millis, 250);
            self.player.tick();
            self.settle();
        }
    }

    /// Lets up to 3 s go by until a state that matches `pred` is reported.
    fn recv_matching(&mut self, pred: impl Fn(&PlaybackState) -> bool) -> PlaybackState {
        for _ in 0..12 {
            while !self.states.is_empty() {
                let state = self.states.remove(0);
                if pred(&state) {
                    return state;
                }
            }
            self.wait();
        }
        panic!("deadline exceeded waiting for expected playback state");
    }

    /// Lets up to 3 s go by until a track list that matches `pred` is reported.
    fn recv_queue_matching(&mut self, pred: impl Fn(&[Track]) -> bool) -> Vec<Track> {
        for _ in 0..12 {
            while !self.queues.is_empty() {
                let tracks = self.queues.remove(0);
                if pred(&tracks) {
                    return tracks;
                }
            }
            self.wait();
        }
        panic!("deadline exceeded waiting for expected queue snapshot");
    }

    /// Everything that is reported of playback within 500 ms.
    fn drain_states(&mut self) -> Vec<PlaybackState> {
        self.wait();
        self.wait();
        std::mem::take(&mut self.states)
    }
}

fn launch() -> Rig<MockAudioBackend> {
    Rig::launch(MockAudioBackend::new())
}

fn julie_and_candy() -> Track {
    Track {
        id: TrackId::new(1),
        path: TrackPath::new("/music/geogaddi/julie_and_candy.flac".into()),
        title: "Julie and Candy".into(),
        artist: "Boards of Canada".into(),
        album_artist: "Boards of Canada".into(),
        album: "Geogaddi".into(),
        genre: "Electronic".into(),
        composer: "".into(),
        duration: 232,
        track_number: 2,
        disc_number: 1,
        year: 2002,
    }
}

fn play_julie_and_candy() -> PlayerCommand {
    PlayerCommand::Play(Box::new(julie_and_candy()))
}

fn geogaddi(id: i64, title: &str) -> Track {
    Track {
        id: TrackId::new(id),
        path: TrackPath::new(format!("/music/geogaddi/{id:02}.flac")),
        title: title.into(),
        artist: "Boards of Canada".into(),
        album_artist: "Boards of Canada".into(),
        album: "Geogaddi".into(),
        genre: "Electronic".into(),
        composer: "".into(),
        duration: 200,
        track_number: id as u32,
        disc_number: 1,
        year: 2002,
    }
}

fn geogaddi_pair() -> Vec<Track> {
    vec![geogaddi(10, "Dawn Chorus"), geogaddi(20, "1969")]
}

fn is_playing(s: &PlaybackState) -> bool {
    matches!(s, PlaybackState::Playing { .. })
}

fn is_paused(s: &PlaybackState) -> bool {
    matches!(s, PlaybackState::Paused { .. })
}

fn is_failed(s: &PlaybackState) -> bool {
    matches!(s, PlaybackState::Failed { .. })
}

#[test]
fn player_play_command_transitions_to_playing_state() {
    let mut rig = launch();
    rig.send(play_julie_and_candy());
    let s = rig.recv_matching(is_playing);
    assert!(matches!(s, PlaybackState::Playing { .. }));
}

#[test]
fn player_play_command_reports_correct_track_id() {
    let track = julie_and_candy();
    let expected = track.id;
    let mut rig = launch();
    rig.send(PlayerCommand::Play(Box::new(track)));
    let s = rig.recv_matching(is_playing);
    assert_eq!(s.current_track(), Some(expected));
}

#[test]
fn player_pause_after_play_transitions_to_paused_state() {
    let mut rig = launch();
    rig.send(play_julie_and_candy());
    rig.recv_matching(is_playing);
    rig.send(PlayerCommand::Pause);
    let s = rig.recv_matching(is_paused);
    assert!(matches!(s, PlaybackState::Paused { .. }));
}

#[test]
fn player_resume_after_pause_transitions_to_playing_state() {
    let mut rig = launch();
    rig.send(play_julie_and_candy());
    rig.recv_matching(is_playing);
    rig.send(PlayerCommand::Pause);
    rig.recv_matching(is_paused);
    rig.send(PlayerCommand::Resume);
    let s = rig.recv_matching(is_playing);
    assert!(matches!(s, PlaybackState::Playing { .. }));
}

#[test]
fn player_stop_after_play_transitions_to_stopped_state() {
    let mut rig = launch();
    rig.send(play_julie_and_candy());
    rig.recv_matching(is_playing);
    rig.send(PlayerCommand::Stop);
    let s = rig.recv_matching(|s| s == &PlaybackState::Stopped);
    assert_eq!(s, PlaybackState::Stopped);
}

#[test]
fn player_stop_clears_current_track() {
    let mut rig = launch();
    rig.send(play_julie_and_candy());
    rig.recv_matching(is_playing);
    rig.send(PlayerCommand::Stop);
    let s = rig.recv_matching(|s| s == &PlaybackState::Stopped);
    assert_eq!(s.current_track(), None);
}

#[test]
fn player_play_queue_plays_the_starting_track() {
    let mut rig = launch();
    rig.send(PlayerCommand::PlayQueue {
        tracks: geogaddi_pair(),
        start: 1,
    });
    let s = rig.recv_matching(|s| s.current_track() == Some(TrackId::new(20)));
    assert_eq!(s.current_track(), Some(TrackId::new(20)));
}

#[test]
fn player_next_plays_the_following_track() {
    let mut rig = launch();
    rig.send(PlayerCommand::PlayQueue {
        tracks: geogaddi_pair(),
        start: 0,
    });
    rig.recv_matching(|s| s.current_track() == Some(TrackId::new(10)));
    rig.send(PlayerCommand::Next);
    let s = rig.recv_matching(|s| s.current_track() == Some(TrackId::new(20)));
    assert_eq!(s.current_track(), Some(TrackId::new(20)));
}

#[test]
fn player_previous_plays_the_prior_track() {
    let mut rig = launch();
    rig.send(PlayerCommand::PlayQueue {
        tracks: geogaddi_pair(),
        start: 1,
    });
    rig.recv_matching(|s| s.current_track() == Some(TrackId::new(20)));
    rig.send(PlayerCommand::Previous);
    let s = rig.recv_matching(|s| s.current_track() == Some(TrackId::new(10)));
    assert_eq!(s.current_track(), Some(TrackId::new(10)));
}

#[test]
fn player_enqueue_on_empty_queue_starts_playing_the_first_track() {
    let mut rig = launch();
    rig.send(PlayerCommand::Enqueue(geogaddi_pair()));
    let s = rig.recv_matching(|s| s.current_track() == Some(TrackId::new(10)));
    assert_eq!(s.current_track(), Some(TrackId::new(10)));
}

#[test]
fn player_enqueue_while_playing_does_not_disturb_the_current_track() {
    let mut rig = launch();
    rig.send(play_julie_and_candy());
    rig.recv_matching(is_playing);
    rig.send(PlayerCommand::Enqueue(geogaddi_pair()));
    let s = rig.recv_matching(is_playing);
    assert_eq!(s.current_track(), Some(julie_and_candy().id));
}

#[test]
fn player_next_reaches_a_track_appended_via_enqueue() {
    let mut rig = launch();
    rig.send(play_julie_and_candy());
    rig.recv_matching(is_playing);
    rig.send(PlayerCommand::Enqueue(geogaddi_pair()));
    rig.send(PlayerCommand::Next);
    let s = rig.recv_matching(|s| s.current_track() == Some(TrackId::new(10)));
    assert_eq!(s.current_track(), Some(TrackId::new(10)));
}

/// A backend whose playing state a test can flip to simulate a track ending.
struct FlaggedBackend {
    playing: Arc<AtomicBool>,
}

impl AudioBackend for FlaggedBackend {
    fn play(&mut self, _path: &TrackPath) -> Result<(), AudioError> {
        self.playing.store(true, Ordering::SeqCst);
        Ok(())
    }
    fn play_paused(&mut self, _path: &TrackPath, _position: Duration) -> Result<(), AudioError> {
        self.playing.store(false, Ordering::SeqCst);
        Ok(())
    }
    fn pause(&mut self) {
        self.playing.store(false, Ordering::SeqCst);
    }
    fn resume(&mut self) {
        self.playing.store(true, Ordering::SeqCst);
    }
    fn stop(&mut self) {
        self.playing.store(false, Ordering::SeqCst);
    }
    fn set_volume(&mut self, _v: Volume) {}
    fn seek(&mut self, _position: Duration) {}
    fn state(&self) -> BackendState {
        if self.playing.load(Ordering::SeqCst) {
            BackendState::Playing
        } else {
            BackendState::Idle
        }
    }
    fn position(&self) -> Duration {
        Duration::ZERO
    }
}

/// Launches a player over a `FlaggedBackend`; the returned flag lets the test
/// simulate the current track finishing by storing `false`.
fn launch_flagged() -> (Rig<FlaggedBackend>, Arc<AtomicBool>) {
    let flag = Arc::new(AtomicBool::new(false));
    let rig = Rig::launch(FlaggedBackend {
        playing: Arc::clone(&flag),
    });
    (rig, flag)
}

#[test]
fn player_auto_advances_when_the_track_ends() {
    let (mut rig, flag) = launch_flagged();
    rig.send(PlayerCommand::PlayQueue {
        tracks: geogaddi_pair(),
        start: 0,
    });
    rig.recv_matching(|s| s.current_track() == Some(TrackId::new(10)));

    // The first track finishes on its own.
    flag.store(false, Ordering::SeqCst);

    let s = rig.recv_matching(|s| s.current_track() == Some(TrackId::new(20)));
    assert_eq!(s.current_track(), Some(TrackId::new(20)));
}

/// A backend that accepts `play()` but never reports `Playing`, modelling a
/// track that finishes in the window between `play()` returning and the
/// player next looking at the backend.
struct InstantlyIdleBackend;

impl AudioBackend for InstantlyIdleBackend {
    fn play(&mut self, _path: &TrackPath) -> Result<(), AudioError> {
        Ok(())
    }
    fn play_paused(&mut self, _path: &TrackPath, _position: Duration) -> Result<(), AudioError> {
        Ok(())
    }
    fn pause(&mut self) {}
    fn resume(&mut self) {}
    fn stop(&mut self) {}
    fn set_volume(&mut self, _v: Volume) {}
    fn seek(&mut self, _position: Duration) {}
    fn state(&self) -> BackendState {
        BackendState::Idle
    }
    fn position(&self) -> Duration {
        Duration::ZERO
    }
}

#[test]
fn player_auto_advances_when_the_track_ends_before_the_backend_is_polled() {
    let mut rig = Rig::launch(InstantlyIdleBackend);
    rig.send(PlayerCommand::PlayQueue {
        tracks: geogaddi_pair(),
        start: 0,
    });
    rig.recv_matching(|s| s.current_track() == Some(TrackId::new(10)));

    // The player must keep ticking on the strength of the play command it
    // issued, not on a backend reading taken after the track already ended.
    let s = rig.recv_matching(|s| s.current_track() == Some(TrackId::new(20)));
    assert_eq!(s.current_track(), Some(TrackId::new(20)));
}

#[test]
fn player_stops_after_the_last_track_ends() {
    let (mut rig, flag) = launch_flagged();
    rig.send(PlayerCommand::PlayQueue {
        tracks: vec![geogaddi(10, "Dawn Chorus")],
        start: 0,
    });
    rig.recv_matching(|s| s.current_track() == Some(TrackId::new(10)));

    // The only track finishes: no next, so playback stops.
    flag.store(false, Ordering::SeqCst);

    let s = rig.recv_matching(|s| s == &PlaybackState::Stopped);
    assert_eq!(s, PlaybackState::Stopped);
}

#[test]
fn player_restore_paused_reports_paused_at_position() {
    let mut rig = launch();
    rig.send(PlayerCommand::RestorePaused {
        tracks: geogaddi_pair(),
        start: 1,
        position: SeekPosition::from_secs(87),
    });
    let s = rig.recv_matching(is_paused);
    assert_eq!(s.current_track(), Some(TrackId::new(20)));
    assert_eq!(s.position(), Some(SeekPosition::from_secs(87)));
}

#[test]
fn player_seek_reports_the_new_position_while_playing() {
    let mut rig = launch();
    rig.send(play_julie_and_candy());
    rig.recv_matching(is_playing);

    rig.send(PlayerCommand::Seek(SeekPosition::from_secs(90)));

    let s = rig.recv_matching(|s| s.position() == Some(SeekPosition::from_secs(90)));
    assert!(matches!(s, PlaybackState::Playing { .. }));
}

/// A backend whose `play` always fails, so the player emits `Failed`.
struct FailingBackend;

impl AudioBackend for FailingBackend {
    fn play(&mut self, _path: &TrackPath) -> Result<(), AudioError> {
        Err(AudioError::Decode(
            "track.flac".into(),
            "corrupt file".into(),
        ))
    }
    fn play_paused(&mut self, _path: &TrackPath, _position: Duration) -> Result<(), AudioError> {
        Err(AudioError::Decode(
            "track.flac".into(),
            "corrupt file".into(),
        ))
    }
    fn pause(&mut self) {}
    // Never has a loaded source, so resume() must not make it Playing —
    // the case the phantom-playing bug hinged on.
    fn resume(&mut self) {}
    fn stop(&mut self) {}
    fn seek(&mut self, _position: Duration) {}
    fn set_volume(&mut self, _v: Volume) {}
    fn state(&self) -> BackendState {
        BackendState::Idle
    }
    fn position(&self) -> Duration {
        Duration::ZERO
    }
}

#[test]
fn player_transitions_to_failed_state_on_decode_error() {
    let mut rig = Rig::launch(FailingBackend);
    rig.send(play_julie_and_candy());
    let s = rig.recv_matching(is_failed);
    assert!(matches!(s, PlaybackState::Failed { .. }));
}

#[test]
fn player_failed_state_includes_the_track_id() {
    let track = julie_and_candy();
    let expected = track.id;
    let mut rig = Rig::launch(FailingBackend);
    rig.send(PlayerCommand::Play(Box::new(track)));
    let s = rig.recv_matching(is_failed);
    assert_eq!(s.current_track(), Some(expected));
}

#[test]
fn player_resume_after_failure_does_not_report_playing() {
    let mut rig = Rig::launch(FailingBackend);
    rig.send(play_julie_and_candy());
    rig.recv_matching(is_failed);

    rig.send(PlayerCommand::Resume);

    // Absence check: FailingBackend never has a loaded
    // source, so resume() must never be reported as Playing.
    for s in rig.drain_states() {
        assert!(
            !matches!(s, PlaybackState::Playing { .. }),
            "resume after a failed track must not report Playing, got {s:?}"
        );
    }
}

#[test]
fn player_pause_after_failure_does_not_report_paused() {
    let mut rig = Rig::launch(FailingBackend);
    rig.send(play_julie_and_candy());
    rig.recv_matching(is_failed);

    rig.send(PlayerCommand::Pause);

    // Absence check: nothing was ever loaded, so there is nothing to pause.
    for s in rig.drain_states() {
        assert!(
            !matches!(s, PlaybackState::Paused { .. }),
            "pause after a failed track must not report Paused, got {s:?}"
        );
    }
}

#[test]
fn player_seek_after_failure_reports_no_position() {
    let mut rig = Rig::launch(FailingBackend);
    rig.send(play_julie_and_candy());
    rig.recv_matching(is_failed);

    rig.send(PlayerCommand::Seek(SeekPosition::from_secs(90)));

    // Absence check: seeking into a track that never loaded must not claim
    // a playing or paused position.
    for s in rig.drain_states() {
        assert_eq!(
            s.position(),
            None,
            "seek after a failed track must not report a position"
        );
    }
}

#[test]
fn player_seek_reports_the_new_position_while_paused() {
    let mut rig = launch();
    rig.send(PlayerCommand::RestorePaused {
        tracks: geogaddi_pair(),
        start: 0,
        position: SeekPosition::from_secs(12),
    });
    rig.recv_matching(is_paused);

    rig.send(PlayerCommand::Seek(SeekPosition::from_secs(90)));

    let s = rig.recv_matching(|s| s.position() == Some(SeekPosition::from_secs(90)));
    assert!(matches!(s, PlaybackState::Paused { .. }));
}

#[test]
fn queue_changed_reports_full_track_list_on_play_queue() {
    let mut rig = launch();
    rig.send(PlayerCommand::PlayQueue {
        tracks: geogaddi_pair(),
        start: 0,
    });
    let tracks = rig.recv_queue_matching(|t| t.len() == 2);
    assert_eq!(tracks[0].id, TrackId::new(10));
    assert_eq!(tracks[1].id, TrackId::new(20));
}

#[test]
fn queue_changed_reports_appended_tracks_on_enqueue() {
    let mut rig = launch();
    rig.send(play_julie_and_candy());
    rig.recv_queue_matching(|t| t.len() == 1);

    rig.send(PlayerCommand::Enqueue(geogaddi_pair()));

    let tracks = rig.recv_queue_matching(|t| t.len() == 3);
    assert_eq!(tracks[0].id, julie_and_candy().id);
    assert_eq!(tracks[1].id, TrackId::new(10));
    assert_eq!(tracks[2].id, TrackId::new(20));
}

#[test]
fn queue_changed_reports_empty_list_on_stop() {
    let mut rig = launch();
    rig.send(play_julie_and_candy());
    rig.recv_matching(is_playing);
    rig.recv_queue_matching(|t| t.len() == 1);

    rig.send(PlayerCommand::Stop);

    let tracks = rig.recv_queue_matching(|t| t.is_empty());
    assert!(tracks.is_empty());
}

#[test]
fn queue_changed_not_emitted_on_next_or_previous() {
    let mut rig = launch();
    rig.send(PlayerCommand::PlayQueue {
        tracks: geogaddi_pair(),
        start: 0,
    });
    rig.recv_queue_matching(|t| t.len() == 2);
    rig.recv_matching(|s| s.current_track() == Some(TrackId::new(10)));

    rig.send(PlayerCommand::Next);
    rig.recv_matching(|s| s.current_track() == Some(TrackId::new(20)));
    rig.send(PlayerCommand::Previous);
    rig.recv_matching(|s| s.current_track() == Some(TrackId::new(10)));

    // Absence check: the track list itself didn't change, only the
    // cursor, so no further queue snapshot should follow.
    rig.drain_states();
    assert!(
        rig.queues.is_empty(),
        "Next must not emit a queue snapshot, got {:?}",
        rig.queues
    );
}

#[test]
fn set_queue_preserves_current_track_position_when_it_survives() {
    let mut rig = launch();
    rig.send(PlayerCommand::PlayQueue {
        tracks: geogaddi_pair(),
        start: 1,
    });
    rig.recv_matching(|s| s.current_track() == Some(TrackId::new(20)));
    rig.recv_queue_matching(|t| t.len() == 2);

    // Prune the first track; the playing track (id 20) survives.
    rig.send(PlayerCommand::SetQueue(vec![geogaddi(20, "1969")]));

    let tracks = rig.recv_queue_matching(|t| t.len() == 1);
    assert_eq!(tracks[0].id, TrackId::new(20));

    // Playback must not have been disturbed: no Stopped state follows.
    for s in rig.drain_states() {
        assert_ne!(
            s,
            PlaybackState::Stopped,
            "the surviving current track must keep playing"
        );
    }
}

#[test]
fn set_queue_stops_playback_when_current_track_is_pruned() {
    let mut rig = launch();
    rig.send(play_julie_and_candy());
    rig.recv_matching(is_playing);
    rig.recv_queue_matching(|t| t.len() == 1);

    // The playing track (julie_and_candy) is not in the new list.
    rig.send(PlayerCommand::SetQueue(geogaddi_pair()));

    let s = rig.recv_matching(|s| s == &PlaybackState::Stopped);
    assert_eq!(s, PlaybackState::Stopped);
    let tracks = rig.recv_queue_matching(|t| t.is_empty());
    assert!(tracks.is_empty());
}

#[test]
fn play_reports_the_queue_then_plays_then_reports_the_state() {
    let mut player = Player::new();
    let mut backend = MockAudioBackend::new();
    player.command(play_julie_and_candy());
    assert!(!player.is_idle());
    assert!(matches!(player.step(&mut backend), Step::Queue(t) if t == vec![julie_and_candy()]));
    assert!(backend.calls.is_empty());
    assert!(matches!(player.step(&mut backend), Step::Called));
    assert_eq!(
        backend.calls,
        vec!["play /music/geogaddi/julie_and_candy.flac".to_string()]
    );
    assert!(matches!(
        player.step(&mut backend),
        Step::State(PlaybackState::Playing { .. })
    ));
    assert!(player.is_idle());
    assert!(matches!(player.step(&mut backend), Step::Idle));
}

#[test]
fn a_fresh_player_waits_without_ticking() {
    let player = Player::new();
    assert_eq!(player.tick_millis(), None);
    assert_eq!(player.mode(), LoopState::Empty);
    assert!(player.queue().is_empty());
    assert!(player.queue().current().is_none());
}

#[test]
fn failed_state_carries_the_backends_words() {
    let mut rig = Rig::launch(FailingBackend);
    rig.send(play_julie_and_candy());
    assert_eq!(
        rig.states,
        vec![PlaybackState::Failed {
            track: TrackId::new(1),
            error: "failed to decode track.flac: corrupt file".into(),
        }]
    );
    assert_eq!(rig.player.mode(), LoopState::Empty);
    assert_eq!(rig.player.tick_millis(), None);
}

#[test]
fn restoring_on_a_failing_backend_reports_the_failure() {
    let mut rig = Rig::launch(FailingBackend);
    rig.send(PlayerCommand::RestorePaused {
        tracks: geogaddi_pair(),
        start: 1,
        position: SeekPosition::from_secs(87),
    });
    assert_eq!(rig.states.len(), 1);
    assert!(is_failed(&rig.states[0]));
    assert_eq!(rig.states[0].current_track(), Some(TrackId::new(20)));
}

#[test]
fn restore_hands_the_position_to_the_backend() {
    let mut rig = launch();
    rig.send(PlayerCommand::RestorePaused {
        tracks: geogaddi_pair(),
        start: 1,
        position: SeekPosition::from_millis(87_250),
    });
    assert_eq!(
        rig.backend.calls,
        vec!["play_paused /music/geogaddi/20.flac 87.25s".to_string()]
    );
    assert_eq!(rig.player.mode(), LoopState::Paused);
}

#[test]
fn tick_reports_the_position_of_the_play_head_in_milliseconds() {
    let mut rig = launch();
    rig.send(play_julie_and_candy());
    rig.states.clear();
    rig.backend.position = Duration::new(12, 345_678_901);
    rig.wait();
    assert_eq!(
        rig.states,
        vec![PlaybackState::Playing {
            track: TrackId::new(1),
            position: SeekPosition::from_millis(12_345),
        }]
    );
}

#[test]
fn tick_on_a_paused_backend_reports_nothing_and_stops_the_clock() {
    let mut rig = launch();
    rig.send(play_julie_and_candy());
    rig.states.clear();
    rig.backend.state = BackendState::Paused;
    rig.wait();
    assert!(rig.states.is_empty());
    assert_eq!(rig.player.mode(), LoopState::Paused);
    assert_eq!(rig.player.tick_millis(), None);
}

#[test]
fn tick_without_a_track_leaves_nothing_loaded() {
    let mut rig = launch();
    rig.player.tick();
    rig.settle();
    assert_eq!(rig.player.mode(), LoopState::Empty);
    assert!(rig.states.is_empty() && rig.backend.calls.is_empty());
}

#[test]
fn pause_and_resume_report_the_play_head_and_undo_each_other() {
    let mut rig = launch();
    rig.send(play_julie_and_candy());
    rig.states.clear();
    rig.backend.position = Duration::from_millis(5_500);
    rig.send(PlayerCommand::Pause);
    assert_eq!(rig.player.tick_millis(), None);
    rig.send(PlayerCommand::Resume);
    assert_eq!(rig.player.tick_millis(), Some(250));
    let track = TrackId::new(1);
    let position = SeekPosition::from_millis(5_500);
    assert_eq!(
        rig.states,
        vec![
            PlaybackState::Paused { track, position },
            PlaybackState::Playing { track, position },
        ]
    );
}

#[test]
fn stop_calls_the_backend_and_clears_the_queue() {
    let mut rig = launch();
    rig.send(PlayerCommand::PlayQueue {
        tracks: geogaddi_pair(),
        start: 0,
    });
    rig.backend.calls.clear();
    rig.send(PlayerCommand::Stop);
    assert_eq!(rig.backend.calls, vec!["stop".to_string()]);
    assert!(rig.player.queue().is_empty());
    assert_eq!(rig.player.mode(), LoopState::Empty);
}

#[test]
fn volume_and_seek_reach_the_backend() {
    let mut rig = launch();
    rig.send(PlayerCommand::SetVolume(
        Volume::new(0.25f32.to_bits()).unwrap(),
    ));
    rig.send(PlayerCommand::Seek(SeekPosition::from_millis(1_500)));
    assert_eq!(rig.backend.volume, 0.25);
    assert_eq!(rig.backend.position, Duration::from_millis(1_500));
    assert!(rig.states.is_empty());
}

#[test]
fn moves_past_the_ends_do_nothing() {
    let mut rig = launch();
    rig.send(PlayerCommand::PlayQueue {
        tracks: geogaddi_pair(),
        start: 1,
    });
    rig.states.clear();
    rig.backend.calls.clear();
    rig.send(PlayerCommand::Next);
    assert!(rig.states.is_empty() && rig.backend.calls.is_empty());
    rig.send(PlayerCommand::Previous);
    rig.send(PlayerCommand::Previous);
    assert_eq!(rig.states.len(), 1);
    rig.send(PlayerCommand::Next);
    assert_eq!(
        rig.player.queue().current().map(|t| t.id),
        Some(TrackId::new(20))
    );
}

#[test]
fn a_queue_is_played_in_order() {
    let mut rig = Rig::launch(InstantlyIdleBackend);
    let tracks: Vec<Track> = (1..=4).map(|id| geogaddi(id, "Track")).collect();
    rig.send(PlayerCommand::PlayQueue { tracks, start: 0 });
    for _ in 0..6 {
        rig.wait();
    }
    let seen: Vec<Option<TrackId>> = rig.states.iter().map(|s| s.current_track()).collect();
    assert_eq!(
        seen,
        vec![
            Some(TrackId::new(1)),
            Some(TrackId::new(2)),
            Some(TrackId::new(3)),
            Some(TrackId::new(4)),
            None,
        ]
    );
}

#[test]
fn set_queue_finds_the_first_track_with_the_current_id() {
    let mut rig = launch();
    rig.send(PlayerCommand::PlayQueue {
        tracks: geogaddi_pair(),
        start: 0,
    });
    rig.backend.calls.clear();
    rig.states.clear();
    rig.send(PlayerCommand::SetQueue(vec![
        geogaddi(5, "Other"),
        geogaddi(10, "Dawn Chorus"),
        geogaddi(10, "Dawn Chorus again"),
    ]));
    assert_eq!(
        rig.player.queue().current().map(|t| t.title.clone()),
        Some("Dawn Chorus".to_string())
    );
    assert!(rig.backend.calls.is_empty() && rig.states.is_empty());
    assert_eq!(rig.player.mode(), LoopState::Playing);
}

#[test]
fn set_queue_on_an_empty_queue_only_lists_the_tracks() {
    let mut rig = launch();
    rig.send(PlayerCommand::SetQueue(geogaddi_pair()));
    assert_eq!(rig.queues, vec![geogaddi_pair()]);
    assert!(rig.states.is_empty() && rig.backend.calls.is_empty());
    assert_eq!(rig.player.mode(), LoopState::Empty);
}

#[test]
fn playing_an_empty_list_leaves_nothing_loaded() {
    let mut rig = launch();
    rig.send(play_julie_and_candy());
    rig.states.clear();
    rig.queues.clear();
    rig.backend.calls.clear();
    rig.send(PlayerCommand::PlayQueue {
        tracks: Vec::new(),
        start: 0,
    });
    assert_eq!(rig.player.mode(), LoopState::Empty);
    assert_eq!(rig.backend.calls, vec!["stop".to_string()]);
    assert_eq!(rig.queues, vec![Vec::<Track>::new()]);
    assert_eq!(rig.states, vec![PlaybackState::Stopped]);
}

#[test]
fn restoring_an_empty_list_stops_what_is_paused() {
    let mut rig = launch();
    rig.send(play_julie_and_candy());
    rig.send(PlayerCommand::Pause);
    rig.states.clear();
    rig.queues.clear();
    rig.backend.calls.clear();
    rig.send(PlayerCommand::RestorePaused {
        tracks: Vec::new(),
        start: 0,
        position: SeekPosition::from_secs(87),
    });
    assert_eq!(rig.player.mode(), LoopState::Empty);
    assert_eq!(rig.backend.calls, vec!["stop".to_string()]);
    assert_eq!(rig.queues, vec![Vec::<Track>::new()]);
    assert_eq!(rig.states, vec![PlaybackState::Stopped]);
}

#[test]
fn an_empty_list_with_nothing_loaded_is_only_listed() {
    let mut rig = launch();
    rig.send(PlayerCommand::PlayQueue {
        tracks: Vec::new(),
        start: 0,
    });
    rig.send(PlayerCommand::RestorePaused {
        tracks: Vec::new(),
        start: 3,
        position: SeekPosition::from_secs(1),
    });
    assert_eq!(rig.queues, vec![Vec::<Track>::new(), Vec::new()]);
    assert!(rig.states.is_empty() && rig.backend.calls.is_empty());
    assert_eq!(rig.player.mode(), LoopState::Empty);
}

#[test]
fn resume_asks_what_the_backend_is_doing_before_it_reports_playing() {
    let mut player = Player::new();
    let mut backend = MockAudioBackend::new();
    player.command(PlayerCommand::RestorePaused {
        tracks: geogaddi_pair(),
        start: 0,
        position: SeekPosition::from_secs(12),
    });
    player.settle(&mut backend, &mut Record::default());
    backend.calls.clear();
    player.command(PlayerCommand::Resume);
    // The call, what the backend is doing, where the play head is.
    assert!(matches!(player.step(&mut backend), Step::Called));
    assert_eq!(backend.calls, vec!["resume".to_string()]);
    assert!(matches!(player.step(&mut backend), Step::Called));
    assert!(matches!(player.step(&mut backend), Step::Called));
    assert!(matches!(
        player.step(&mut backend),
        Step::State(PlaybackState::Playing { .. })
    ));
    assert!(player.is_idle());
}

#[test]
fn resume_on_an_idle_backend_reports_nothing_until_the_next_tick() {
    let mut rig = Rig::launch(InstantlyIdleBackend);
    rig.send(PlayerCommand::RestorePaused {
        tracks: geogaddi_pair(),
        start: 0,
        position: SeekPosition::from_secs(12),
    });
    rig.states.clear();

    rig.send(PlayerCommand::Resume);
    assert!(rig.states.is_empty());
    assert_eq!(rig.player.mode(), LoopState::Playing);
    assert_eq!(rig.player.tick_millis(), Some(250));

    rig.wait();
    assert_eq!(
        rig.states,
        vec![PlaybackState::Playing {
            track: TrackId::new(20),
            position: SeekPosition::zero(),
        }]
    );
}

#[test]
fn resume_on_an_idle_backend_at_the_end_of_the_queue_stops_on_the_next_tick() {
    let mut rig = Rig::launch(InstantlyIdleBackend);
    rig.send(play_julie_and_candy());
    rig.send(PlayerCommand::Pause);
    rig.states.clear();
    rig.send(PlayerCommand::Resume);
    assert!(rig.states.is_empty());
    rig.wait();
    assert_eq!(rig.states, vec![PlaybackState::Stopped]);
    assert!(rig.player.queue().is_empty());
}

#[test]
fn settling_hands_out_the_reports_in_the_order_of_the_steps() {
    let reports = RefCell::new(Vec::new());
    let mut player = Player::new();
    let mut backend = MockAudioBackend::new();
    let mut listener = Callbacks::new(
        |state: PlaybackState| reports.borrow_mut().push(format!("{:?}", state.current_track())),
        |tracks: Vec<Track>| reports.borrow_mut().push(format!("{} tracks", tracks.len())),
    );
    let mut settle = |player: &mut Player| player.settle(&mut backend, &mut listener);
    player.command(PlayerCommand::PlayQueue {
        tracks: geogaddi_pair(),
        start: 1,
    });
    settle(&mut player);
    player.command(PlayerCommand::Stop);
    settle(&mut player);
    // Nothing is left, so nothing happens.
    settle(&mut player);
    assert!(player.is_idle());
    assert_eq!(
        *reports.borrow(),
        vec![
            "2 tracks".to_string(),
            format!("{:?}", Some(TrackId::new(20))),
            "0 tracks".to_string(),
            "None".to_string(),
        ]
    );
}

#[test]
fn no_state_is_ahead_of_the_track_list() {
    let known = RefCell::new(Vec::new());
    let mut player = Player::new();
    let mut backend = MockAudioBackend::new();
    let commands = vec![
        play_julie_and_candy(),
        PlayerCommand::PlayQueue {
            tracks: geogaddi_pair(),
            start: 1,
        },
        PlayerCommand::Previous,
        PlayerCommand::RestorePaused {
            tracks: vec![julie_and_candy()],
            start: 0,
            position: SeekPosition::from_secs(3),
        },
        PlayerCommand::Resume,
        PlayerCommand::Stop,
        PlayerCommand::Enqueue(geogaddi_pair()),
    ];
    let mut listener = Callbacks::new(
        |state: PlaybackState| {
            if let Some(id) = state.current_track() {
                assert!(known.borrow().contains(&id));
            }
        },
        |tracks: Vec<Track>| *known.borrow_mut() = tracks.iter().map(|t| t.id).collect(),
    );
    for command in commands {
        player.command(command);
        player.settle(&mut backend, &mut listener);
    }
    assert_eq!(*known.borrow(), vec![TrackId::new(10), TrackId::new(20)]);
}

#[test]
fn a_start_past_the_end_is_the_last_track() {
    let mut rig = launch();
    rig.send(PlayerCommand::PlayQueue {
        tracks: geogaddi_pair(),
        start: 7,
    });
    assert_eq!(rig.states[0].current_track(), Some(TrackId::new(20)));
}

#[test]
fn the_last_reported_list_is_the_queues() {
    let mut rig = launch();
    let commands = vec![
        play_julie_and_candy(),
        PlayerCommand::Enqueue(geogaddi_pair()),
        PlayerCommand::Next,
        PlayerCommand::SetQueue(geogaddi_pair()),
        PlayerCommand::Pause,
        PlayerCommand::Previous,
        PlayerCommand::SetQueue(vec![julie_and_candy()]),
        PlayerCommand::Enqueue(geogaddi_pair()),
        PlayerCommand::Stop,
    ];
    let mut known: Vec<Track> = Vec::new();
    for command in commands {
        rig.send(command);
        if let Some(tracks) = rig.queues.pop() {
            known = tracks;
        }
        assert_eq!(rig.player.queue().tracks().to_vec(), known);
    }
}

#[test]
fn commands_and_states_can_be_copied() {
    let command = PlayerCommand::Enqueue(geogaddi_pair());
    assert_eq!(command.clone(), command);
    let state = PlaybackState::Failed {
        track: TrackId::new(1),
        error: "corrupt file".into(),
    };
    assert_eq!(state.clone(), state);
}

#[test]
fn the_last_reported_state_is_what_the_player_believes() {
    let mut rig = launch();
    let mut known = PlaybackState::Stopped;
    let commands = vec![
        PlayerCommand::Pause,
        PlayerCommand::Enqueue(geogaddi_pair()),
        PlayerCommand::Pause,
        PlayerCommand::Next,
        PlayerCommand::Seek(SeekPosition::from_secs(5)),
        PlayerCommand::SetQueue(vec![geogaddi(20, "1969")]),
        PlayerCommand::Previous,
        PlayerCommand::RestorePaused {
            tracks: geogaddi_pair(),
            start: 0,
            position: SeekPosition::from_secs(87),
        },
        PlayerCommand::Resume,
        PlayerCommand::SetQueue(vec![julie_and_candy()]),
        PlayerCommand::Resume,
        play_julie_and_candy(),
        PlayerCommand::Stop,
    ];
    for command in commands {
        rig.send(command);
        if let Some(state) = rig.states.pop() {
            known = state;
        }
        let current = rig.player.queue().current().map(|t| t.id);
        match rig.player.mode() {
            LoopState::Playing => assert!(is_playing(&known) && known.current_track() == current),
            LoopState::Paused => assert!(is_paused(&known) && known.current_track() == current),
            LoopState::Empty => assert!(known.is_stopped() || is_failed(&known)),
        }
    }
}

#[test]
fn a_new_track_list_is_reported_exactly_once() {
    let mut rig = launch();
    let commands = vec![
        (play_julie_and_candy(), 1),
        (PlayerCommand::Enqueue(geogaddi_pair()), 1),
        (PlayerCommand::Next, 0),
        (PlayerCommand::Pause, 0),
        (PlayerCommand::Resume, 0),
        (PlayerCommand::Seek(SeekPosition::from_secs(5)), 0),
        (PlayerCommand::SetVolume(Volume::full()), 0),
        (PlayerCommand::SetQueue(geogaddi_pair()), 1),
        (PlayerCommand::Previous, 0),
        (PlayerCommand::Stop, 1),
    ];
    for (command, expected) in commands {
        rig.queues.clear();
        rig.send(command);
        rig.wait();
        assert_eq!(rig.queues.len(), expected);
    }
}

#[test]
fn nothing_is_heard_of_a_failed_track_but_the_failure() {
    let mut rig = Rig::launch(FailingBackend);
    rig.send(play_julie_and_candy());
    assert!(matches!(rig.states[..], [PlaybackState::Failed { .. }]));
    rig.states.clear();
    rig.queues.clear();
    rig.send(PlayerCommand::Resume);
    rig.send(PlayerCommand::Pause);
    rig.send(PlayerCommand::Seek(SeekPosition::from_secs(90)));
    rig.send(PlayerCommand::SetVolume(Volume::silent()));
    assert!(rig.states.is_empty() && rig.queues.is_empty());
}

#[test]
fn a_command_that_tells_a_state_sets_the_listener_right() {
    let mut rig = launch();
    rig.send(PlayerCommand::PlayQueue {
        tracks: geogaddi_pair(),
        start: 0,
    });
    // Paused behind the player's back: nothing is told.
    rig.backend.state = BackendState::Paused;
    rig.states.clear();
    rig.wait();
    assert!(rig.states.is_empty());
    assert_eq!(rig.player.mode(), LoopState::Paused);

    rig.send(PlayerCommand::Seek(SeekPosition::from_secs(7)));
    assert_eq!(
        rig.states,
        vec![PlaybackState::Paused {
            track: TrackId::new(10),
            position: SeekPosition::from_secs(7),
        }]
    );
}
