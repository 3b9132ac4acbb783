//! The player: takes commands and ticks, calls the backend, and hands out reports.

use crate::backend::{AudioBackend, AudioError, BackendState};
use crate::command::PlayerCommand;
use crate::listener::{all_heard, Listener};
use crate::model::{Answers, LoopState, PlayerView, TaskView};
use crate::queue::Queue;
use crate::seek::SeekPosition;
use crate::state::PlaybackState;
use crate::track::{position_of, Track, TrackId, TrackPath};
use crate::transcript::{
    all_carried_out, follow, law_every_step_leaves_less_to_do, lemma_follow_one_more,
};
use crate::volume::Volume;
use std::time::Duration;
use vstd::prelude::*;

verus! {

/// One thing to carry out.
#[derive(Debug)]
enum Task {
    TellState(PlaybackState),
    TellQueue(Vec<Track>),
    Load { track: TrackId, path: TrackPath },
    LoadPaused { track: TrackId, path: TrackPath, position: SeekPosition },
    Seek(SeekPosition),
    Pause,
    Resume,
    Stop,
    SetVolume(Volume),
    Poll,
    ConfirmResume { track: TrackId },
    TellPosition { track: TrackId, paused: bool },
}

impl View for Task {
    type V = TaskView;

    closed spec fn view(&self) -> TaskView {
        match *self {
            Task::TellState(state) => TaskView::TellState(state@),
            Task::TellQueue(tracks) => TaskView::TellQueue(tracks@),
            Task::Load { track, path } => TaskView::Load { track, path: path@ },
            Task::LoadPaused { track, path, position } => TaskView::LoadPaused {
                track,
                path: path@,
                position: position@,
            },
            Task::Seek(position) => TaskView::Seek(position@),
            Task::Pause => TaskView::Pause,
            Task::Resume => TaskView::Resume,
            Task::Stop => TaskView::Stop,
            Task::SetVolume(volume) => TaskView::SetVolume(volume),
            Task::Poll => TaskView::Poll,
            Task::ConfirmResume { track } => TaskView::ConfirmResume { track },
            Task::TellPosition { track, paused } => TaskView::TellPosition { track, paused },
        }
    }
}

/// What one step of the player came to.
#[derive(Debug)]
pub enum Step {
    /// Nothing is left to do until the next command or tick.
    Idle,
    /// The backend was called.
    Called,
    /// This state is to be reported.
    State(PlaybackState),
    /// This track list is to be reported: it is the queue's.
    Queue(Vec<Track>),
}

/// The player.
#[derive(Debug)]
pub struct Player {
    queue: Queue,
    mode: LoopState,
    agenda: Vec<Task>,
}

impl View for Player {
    type V = PlayerView;

    closed spec fn view(&self) -> PlayerView {
        PlayerView {
            queue: self.queue@,
            mode: self.mode,
            agenda: self.agenda@.map_values(|task: Task| task@),
        }
    }
}

impl Player {
    /// A player with an empty queue and nothing loaded.
    pub fn new() -> (player: Self)
        ensures
            player@ == PlayerView::fresh(),
            player@.wf(),
            player@.queue.tracks.len() == 0,
            player@.queue.cursor == 0,
            player@.mode == LoopState::Empty,
            player@.agenda.len() == 0,
    {
        let player = Player { queue: Queue::empty(), mode: LoopState::Empty, agenda: Vec::new() };
        assert(player@ =~= PlayerView::fresh());
        player
    }

    /// The queue.
    pub fn queue(&self) -> (queue: &Queue)
        ensures
            queue@ == self@.queue,
    {
        &self.queue
    }

    /// What the player believes the backend is doing.
    pub fn mode(&self) -> (mode: LoopState)
        ensures
            mode == self@.mode,
    {
        self.mode
    }

    /// Nothing is left to carry out.
    pub fn is_idle(&self) -> (r: bool)
        ensures
            r == self@.idle(),
            r == (self@.agenda.len() == 0),
    {
        self.agenda.is_empty()
    }

    /// How long to wait for a command before the next tick, in milliseconds; `None` to wait
    /// without limit. While playing, the clock ticks to report the position and to notice
    /// a track that ended on its own. Otherwise nothing can end on its own.
    pub fn tick_millis(&self) -> (r: Option<u64>)
        ensures
            r == (if self@.mode == LoopState::Playing {
                Some(250u64)
            } else {
                None
            }),
    {
        match self.mode {
            LoopState::Playing => Some(250),
            LoopState::Empty | LoopState::Paused => None,
        }
    }

    /// Takes a command. What it brings about is carried out by `step`.
    pub fn command(&mut self, command: PlayerCommand)
        requires
            old(self)@.wf(),
            old(self)@.idle(),
        ensures
            final(self)@ == old(self)@.commanded(command),
            final(self)@.wf(),
    {
        match command {
            PlayerCommand::Play(track) => {
                self.play_queue(Queue::single(*track));
            },
            PlayerCommand::PlayQueue { tracks, start } => {
                self.play_queue(Queue::new(tracks, start));
            },
            PlayerCommand::Enqueue(tracks) => {
                let was_empty = self.queue.is_empty();
                self.queue.append(tracks);
                self.tell_queue();
                if was_empty {
                    self.play_current();
                }
            },
            PlayerCommand::RestorePaused { tracks, start, position } => {
                self.reopen_queue(Queue::new(tracks, start), position);
            },
            PlayerCommand::SetQueue(tracks) => {
                self.set_queue(tracks);
            },
            PlayerCommand::Pause => {
                self.plan(Task::Pause);
                match self.mode {
                    // Nothing is loaded — after a decode failure, say — so
                    // there is nothing to pause and nothing to report.
                    LoopState::Empty => {},
                    LoopState::Playing | LoopState::Paused => {
                        self.mode = LoopState::Paused;
                        self.tell_position(true);
                    },
                }
            },
            PlayerCommand::Resume => match self.mode {
                // Resuming with no loaded source (right after a decode failure,
                // say) must not claim audio that isn't there.
                LoopState::Empty => {},
                LoopState::Playing | LoopState::Paused => {
                    self.plan(Task::Resume);
                    self.mode = LoopState::Playing;
                    self.confirm_resume();
                },
            },
            PlayerCommand::Stop => {
                self.stop_playback();
            },
            PlayerCommand::Seek(position) => {
                self.plan(Task::Seek(position));
                self.tell_seek(position);
            },
            PlayerCommand::SetVolume(volume) => {
                self.plan(Task::SetVolume(volume));
            },
            PlayerCommand::Next => {
                if self.queue.advance().is_some() {
                    self.play_current();
                }
            },
            PlayerCommand::Previous => {
                if self.queue.rewind().is_some() {
                    self.play_current();
                }
            },
        }
    }

    /// Takes note that `tick_millis` went by without a command: the position is to be
    /// reported, or the end of the track to be noticed and the next one played.
    pub fn tick(&mut self)
        requires
            old(self)@.wf(),
            old(self)@.idle(),
        ensures
            final(self)@ == old(self)@.ticked(),
            final(self)@.wf(),
    {
        match self.queue.current() {
            Some(_) => self.plan(Task::Poll),
            None => {
                self.mode = LoopState::Empty;
            },
        }
    }

    /// Carries out the next thing on the agenda: calls the backend, or returns what to
    /// report. `Step::Idle` says that the agenda is empty.
    pub fn step<B: AudioBackend>(&mut self, backend: &mut B) -> (r: Step)
        requires
            old(self)@.wf(),
        ensures
            final(self)@.wf(),
            old(self)@.idle() ==> r is Idle && final(self)@ == old(self)@ && *final(backend)
                == *old(backend),
            !old(self)@.idle() ==> match old(self)@.agenda[0] {
                TaskView::TellState(state) => {
                    &&& r matches Step::State(s) && s@ == state
                    &&& final(self)@ == old(self)@.shifted()
                    &&& *final(backend) == *old(backend)
                },
                TaskView::TellQueue(tracks) => {
                    &&& r matches Step::Queue(t) && t@ == tracks
                    &&& final(self)@ == old(self)@.shifted()
                    &&& *final(backend) == *old(backend)
                },
                task => {
                    &&& r is Called
                    &&& exists|answers: Answers|
                        {
                            &&& B::responds(
                                *old(backend),
                                task.call().unwrap(),
                                #[trigger] answers.to(task.call().unwrap()),
                                *final(backend),
                            )
                            &&& final(self)@ == old(self)@.performed(answers)
                        }
                },
            },
    {
        if self.agenda.is_empty() {
            return Step::Idle;
        }
        let ghost before = self@;
        let ghost mut answers: Answers = arbitrary();
        let task = self.agenda.remove(0);
        let ghost first = task@;
        proof {
            assert(before.agenda[0] == task@);
            assert(self@.agenda =~= before.agenda.drop_first());
            assert(self@ == before.shifted());
        }
        match task {
            Task::TellState(state) => {
                return Step::State(state);
            },
            Task::TellQueue(tracks) => {
                return Step::Queue(tracks);
            },
            Task::Load { track, path } => {
                let result = backend.play(&path);
                proof {
                    answers = Answers { loaded: result, ..answers };
                }
                self.loaded(track, result);
            },
            Task::LoadPaused { track, path, position } => {
                let result = backend.play_paused(&path, position.as_duration());
                proof {
                    answers = Answers { loaded: result, ..answers };
                }
                self.loaded_paused(track, position, result);
            },
            Task::Seek(position) => {
                backend.seek(position.as_duration());
            },
            Task::Pause => {
                backend.pause();
            },
            Task::Resume => {
                backend.resume();
            },
            Task::Stop => {
                backend.stop();
            },
            Task::SetVolume(volume) => {
                backend.set_volume(volume);
            },
            Task::Poll => {
                let state = backend.state();
                proof {
                    answers = Answers { state, ..answers };
                }
                self.polled(state);
            },
            Task::ConfirmResume { .. } => {
                let state = backend.state();
                proof {
                    answers = Answers { state, ..answers };
                }
                self.resumed(state);
            },
            Task::TellPosition { track, paused } => {
                let head = backend.position();
                proof {
                    answers = Answers { position: head, ..answers };
                }
                self.located(track, paused, head);
            },
        }
        assert(B::responds(
            *old(backend),
            first.call().unwrap(),
            answers.to(first.call().unwrap()),
            *backend,
        ));
        Step::Called
    }

    /// Carries out everything on the agenda and whatever follows from it. The listener is told
    /// of each report once, in the order in which they come up, and of nothing else.
    pub fn settle<B: AudioBackend, L: Listener>(&mut self, backend: &mut B, listener: &mut L)
        requires
            old(self)@.wf(),
        ensures
            final(self)@.wf(),
            final(self)@.idle(),
            exists|answers: Seq<Answers>, backends: Seq<B>, listeners: Seq<L>|
                {
                    &&& #[trigger] all_carried_out(old(self)@, answers, backends)
                    &&& backends[0] == *old(backend)
                    &&& backends.last() == *final(backend)
                    &&& final(self)@ == follow(old(self)@, answers).0
                    &&& #[trigger] all_heard(follow(old(self)@, answers).1, listeners)
                    &&& listeners[0] == *old(listener)
                    &&& listeners.last() == *final(listener)
                },
    {
        let ghost start = self@;
        let ghost mut answers: Seq<Answers> = Seq::empty();
        let ghost mut backends: Seq<B> = seq![*backend];
        let ghost mut listeners: Seq<L> = seq![*listener];
        while !self.is_idle()
            invariant
                self@.wf(),
                all_carried_out(start, answers, backends),
                backends[0] == *old(backend),
                backends.last() == *backend,
                self@ == follow(start, answers).0,
                all_heard(follow(start, answers).1, listeners),
                listeners[0] == *old(listener),
                listeners.last() == *listener,
            decreases self@.effort(),
        {
            let ghost before = self@;
            let ghost backend_before = *backend;
            let step = self.step(backend);
            let ghost mut answer: Answers = arbitrary();
            match step {
                Step::Idle => {},
                Step::Called => {
                    proof {
                        let call = before.agenda[0].call().unwrap();
                        answer = choose|a: Answers|
                            {
                                &&& B::responds(backend_before, call, #[trigger] a.to(call), *backend)
                                &&& self@ == before.performed(a)
                            };
                    }
                },
                Step::State(state) => listener.on_state(state),
                Step::Queue(tracks) => listener.on_queue_changed(tracks),
            }
            proof {
                let earlier = answers;
                lemma_follow_one_more(start, earlier, answer);
                law_every_step_leaves_less_to_do(before, answer);
                answers = earlier.push(answer);
                backends = backends.push(*backend);
                listeners = listeners.push(*listener);
                assert(answers.take(earlier.len() as int) =~= earlier);
                assert forall|i: int| 0 <= i < earlier.len() implies #[trigger] answers.take(i)
                    == earlier.take(i) by {
                    assert(answers.take(i) =~= earlier.take(i));
                }
            }
        }
    }

    /// Takes the backend's answer to `play` for the current track: reports `Playing` on
    /// success or `Failed` on error.
    pub fn loaded(&mut self, track: TrackId, result: Result<(), AudioError>)
        requires
            old(self)@.wf(),
            old(self)@.idle(),
            old(self)@.queue.current() is Some,
        ensures
            final(self)@ == old(self)@.loaded(track, result),
            final(self)@.wf(),
    {
        match result {
            Ok(_) => {
                self.mode = LoopState::Playing;
                self.plan(
                    Task::TellState(
                        PlaybackState::Playing { track, position: SeekPosition::zero() },
                    ),
                );
            },
            Err(e) => self.fail(track, e),
        }
    }

    /// Takes the backend's answer to `play_paused` for the current track: reports `Paused`
    /// on success or `Failed` on error.
    pub fn loaded_paused(
        &mut self,
        track: TrackId,
        position: SeekPosition,
        result: Result<(), AudioError>,
    )
        requires
            old(self)@.wf(),
            old(self)@.idle(),
            old(self)@.queue.current() is Some,
        ensures
            final(self)@ == old(self)@.loaded_paused(track, position@, result),
            final(self)@.wf(),
    {
        match result {
            Ok(_) => {
                self.mode = LoopState::Paused;
                self.plan(Task::TellState(PlaybackState::Paused { track, position }));
            },
            Err(e) => self.fail(track, e),
        }
    }

    /// Reports that the backend could not open or decode `track`.
    fn fail(&mut self, track: TrackId, error: AudioError)
        ensures
            final(self)@ == old(self)@.failed(track, error),
    {
        self.mode = LoopState::Empty;
        self.plan(Task::TellState(PlaybackState::Failed { track, error: error.message() }));
    }

    /// Takes the backend's answer to the question of a tick.
    ///
    /// Unlike the play paths, querying the backend here is the whole point —
    /// the tick exists to observe what the hardware did on its own, and a stale
    /// reading merely defers the decision to the next tick.
    pub fn polled(&mut self, state: BackendState)
        requires
            old(self)@.wf(),
            old(self)@.idle(),
            old(self)@.queue.current() is Some,
        ensures
            final(self)@ == old(self)@.polled(state),
            final(self)@.wf(),
    {
        match state {
            BackendState::Playing => {
                self.mode = LoopState::Playing;
                self.tell_position(false);
            },
            // Still paused since the last tick — nothing to report.
            BackendState::Paused => {
                self.mode = LoopState::Paused;
            },
            BackendState::Idle => {
                if self.queue.advance().is_some() {
                    self.play_current();
                } else {
                    self.stop_playback();
                }
            },
        }
    }

    /// Takes the backend's answer to what it is doing upon a resume: reports `Playing` where
    /// the play head is, unless there was nothing to resume.
    pub fn resumed(&mut self, state: BackendState)
        requires
            old(self)@.wf(),
            old(self)@.idle(),
            old(self)@.queue.current() is Some,
        ensures
            final(self)@ == old(self)@.resumed(state),
            final(self)@.wf(),
    {
        match state {
            // Nothing is heard, so nothing is claimed. The next tick notices the end.
            BackendState::Idle => {},
            BackendState::Playing | BackendState::Paused => self.tell_position(false),
        }
    }

    /// Takes the position of the play head, and reports it.
    pub fn located(&mut self, track: TrackId, paused: bool, head: Duration)
        requires
            old(self)@.wf(),
            old(self)@.idle(),
        ensures
            final(self)@ == old(self)@.located(track, paused, head),
            final(self)@.wf(),
    {
        let position = SeekPosition::from_play_head(head);
        self.plan(
            Task::TellState(
                if paused {
                    PlaybackState::Paused { track, position }
                } else {
                    PlaybackState::Playing { track, position }
                },
            ),
        );
    }

    /// Replaces the queue and plays it. With nothing in it, whatever is loaded stops.
    fn play_queue(&mut self, queue: Queue)
        ensures
            final(self)@ == old(self)@.playing(queue@),
    {
        if queue.is_empty() && self.mode != LoopState::Empty {
            self.stop_playback();
        } else {
            self.queue = queue;
            self.tell_queue();
            self.play_current();
        }
    }

    /// Replaces the queue and holds it paused at `position`. With nothing in it, whatever is
    /// loaded stops.
    fn reopen_queue(&mut self, queue: Queue, position: SeekPosition)
        ensures
            final(self)@ == old(self)@.reopening(queue@, position@),
    {
        if queue.is_empty() && self.mode != LoopState::Empty {
            self.stop_playback();
        } else {
            self.queue = queue;
            self.tell_queue();
            self.restore_current(position);
        }
    }

    /// Puts the current track on the agenda to be played; without one, nothing is loaded.
    fn play_current(&mut self)
        ensures
            final(self)@ == old(self)@.starting(),
    {
        match self.queue.current() {
            Some(track) => {
                let task = Task::Load { track: track.id, path: track.path.clone() };
                self.plan(task);
            },
            None => {
                self.mode = LoopState::Empty;
            },
        }
    }

    /// Puts the current track on the agenda to be loaded and held at `position`; without
    /// one, nothing is loaded.
    fn restore_current(&mut self, position: SeekPosition)
        ensures
            final(self)@ == old(self)@.restoring(position@),
    {
        match self.queue.current() {
            Some(track) => {
                let task = Task::LoadPaused { track: track.id, path: track.path.clone(), position };
                self.plan(task);
            },
            None => {
                self.mode = LoopState::Empty;
            },
        }
    }

    /// Silences the backend, clears the queue, and reports both. Shared by `Stop`,
    /// by reaching the end of the queue, by `SetQueue` pruning the playing track, and by
    /// an empty list in the place of a loaded one.
    fn stop_playback(&mut self)
        ensures
            final(self)@ == old(self)@.stopped(),
    {
        self.plan(Task::Stop);
        self.mode = LoopState::Empty;
        self.queue = Queue::empty();
        self.tell_queue();
        self.plan(Task::TellState(PlaybackState::Stopped));
    }

    /// Replaces the track list under the current track, or stops if the track is gone.
    fn set_queue(&mut self, tracks: Vec<Track>)
        ensures
            final(self)@ == old(self)@.reconciled(tracks@),
    {
        match self.queue.current() {
            Some(track) => {
                let id = track.id;
                match position_of(&tracks, id) {
                    Some(start) => {
                        self.queue = Queue::new(tracks, start);
                        self.tell_queue();
                    },
                    // The playing/paused track was pruned out from under us —
                    // the safe, unsurprising behaviour is to stop rather than
                    // silently continue on (or jump to) a track the user
                    // didn't choose.
                    None => self.stop_playback(),
                }
            },
            None => {
                self.queue = Queue::new(tracks, 0);
                self.tell_queue();
            },
        }
    }

    /// Reports the track list.
    fn tell_queue(&mut self)
        ensures
            final(self)@ == old(self)@.planning(TaskView::TellQueue(old(self)@.queue.tracks)),
    {
        let tracks = self.queue.snapshot();
        self.plan(Task::TellQueue(tracks));
    }

    /// Asks whether there was anything to resume.
    fn confirm_resume(&mut self)
        ensures
            final(self)@ == old(self)@.confirming(),
    {
        if let Some(track) = self.queue.current() {
            let task = Task::ConfirmResume { track: track.id };
            self.plan(task);
        }
    }

    /// Asks for the position of the current track, to report it.
    fn tell_position(&mut self, paused: bool)
        ensures
            final(self)@ == old(self)@.locating(paused),
    {
        if let Some(track) = self.queue.current() {
            let task = Task::TellPosition { track: track.id, paused };
            self.plan(task);
        }
    }

    /// Reports the new position immediately, keeping the play/pause
    /// state, rather than waiting for the next tick. With nothing
    /// loaded there is no position to report.
    fn tell_seek(&mut self, position: SeekPosition)
        ensures
            final(self)@ == old(self)@.telling_seek(position@),
    {
        if let Some(track) = self.queue.current() {
            let track = track.id;
            match self.mode {
                LoopState::Empty => {},
                LoopState::Playing => self.plan(
                    Task::TellState(PlaybackState::Playing { track, position }),
                ),
                LoopState::Paused => self.plan(
                    Task::TellState(PlaybackState::Paused { track, position }),
                ),
            }
        }
    }

    /// Puts a task on the agenda.
    fn plan(&mut self, task: Task)
        ensures
            final(self)@ == old(self)@.planning(task@),
    {
        self.agenda.push(task);
        assert(self@.agenda =~= old(self)@.agenda.push(task@));
    }
}

} // verus!
