//! The player as a mathematical state machine.
//!
//! A command, a tick of the clock or an answer of the backend takes one model to the next.
//! What is to happen in the world is written on the agenda and carried out from its front.

use crate::backend::{AudioError, BackendAnswer, BackendCall, BackendState};
use crate::command::PlayerCommand;
use crate::queue::QueueView;
use crate::seek::{duration_nanos, reported_position};
use crate::state::StateView;
use crate::track::{first_with_id, Track, TrackId};
use crate::volume::Volume;
use std::time::Duration;
use vstd::prelude::*;

verus! {

/// What the player believes it has asked the backend to do.
///
/// This is the player's own record, deliberately *not* re-read from
/// `AudioBackend::state` after issuing a command. Sampling the backend right after
/// `play()` returns races with the track ending in that same window: the sample
/// comes back `Idle`, the player concludes it has nothing to tick for, and then
/// blocks forever — never noticing the track ended, so auto-advance
/// never happens. Trusting the command just issued has no such window.
#[derive(Debug, Clone, Copy, PartialEq, Eq, Structural)]
pub enum LoopState {
    /// Nothing is loaded. The player blocks until a command arrives.
    Empty,
    /// A source is loaded and playing. The player runs its position tick.
    Playing,
    /// A source is loaded but paused. No tick, but `Resume` has something to
    /// resume and `Seek` has a position to report.
    Paused,
}

/// One thing to carry out: a report to make, or a call of the backend.
#[verifier::ext_equal]
pub enum TaskView {
    TellState(StateView),
    TellQueue(Seq<Track>),
    Load { track: TrackId, path: Seq<char> },
    LoadPaused { track: TrackId, path: Seq<char>, position: nat },
    Seek(nat),
    Pause,
    Resume,
    Stop,
    SetVolume(Volume),
    /// Ask what the hardware did on its own.
    Poll,
    /// Ask whether there was anything to resume.
    ConfirmResume { track: TrackId },
    /// Ask for the position of the play head, to report it.
    TellPosition { track: TrackId, paused: bool },
}

impl TaskView {
    /// The backend call that the task makes, if it makes one.
    pub open spec fn call(self) -> Option<BackendCall> {
        match self {
            TaskView::TellState(_) => None,
            TaskView::TellQueue(_) => None,
            TaskView::Load { path, .. } => Some(BackendCall::Play(path)),
            TaskView::LoadPaused { path, position, .. } => Some(
                BackendCall::PlayPaused(path, position),
            ),
            TaskView::Seek(position) => Some(BackendCall::Seek(position)),
            TaskView::Pause => Some(BackendCall::Pause),
            TaskView::Resume => Some(BackendCall::Resume),
            TaskView::Stop => Some(BackendCall::Stop),
            TaskView::SetVolume(volume) => Some(BackendCall::SetVolume(volume)),
            TaskView::Poll => Some(BackendCall::State),
            TaskView::ConfirmResume { .. } => Some(BackendCall::State),
            TaskView::TellPosition { .. } => Some(BackendCall::Position),
        }
    }

    /// More may follow from what the backend answers.
    pub open spec fn asks(self) -> bool {
        self is Load || self is LoadPaused || self is Poll || self is ConfirmResume
            || self is TellPosition
    }

    /// The track that the task asks about.
    pub open spec fn subject(self) -> Option<TrackId> {
        match self {
            TaskView::Load { track, .. } => Some(track),
            TaskView::LoadPaused { track, .. } => Some(track),
            TaskView::ConfirmResume { track } => Some(track),
            TaskView::TellPosition { track, .. } => Some(track),
            _ => None,
        }
    }

    /// How many more steps may follow from the answer.
    pub open spec fn consequences(self) -> nat {
        match self {
            TaskView::Load { .. } => 1,
            TaskView::LoadPaused { .. } => 1,
            TaskView::TellPosition { .. } => 1,
            TaskView::ConfirmResume { .. } => 2,
            TaskView::Poll => 3,
            _ => 0,
        }
    }
}

/// What the backend would answer to each question.
pub struct Answers {
    pub loaded: Result<(), AudioError>,
    pub state: BackendState,
    pub position: Duration,
}

impl Answers {
    /// The answer to one call.
    pub open spec fn to(self, call: BackendCall) -> BackendAnswer {
        match call {
            BackendCall::Play(_) => BackendAnswer::Loaded(self.loaded),
            BackendCall::PlayPaused(_, _) => BackendAnswer::Loaded(self.loaded),
            BackendCall::State => BackendAnswer::State(self.state),
            BackendCall::Position => BackendAnswer::Position(self.position),
            _ => BackendAnswer::Done,
        }
    }
}

/// A player: its queue, what it believes the backend is doing, and what is still to be
/// carried out.
#[verifier::ext_equal]
pub struct PlayerView {
    pub queue: QueueView,
    pub mode: LoopState,
    pub agenda: Seq<TaskView>,
}

impl PlayerView {
    /// The cursor is sound; a source is believed loaded only while the queue has a current
    /// track; a question is the last thing on the agenda and is about the current track.
    pub open spec fn wf(self) -> bool {
        &&& self.queue.wf()
        &&& self.mode != LoopState::Empty ==> self.queue.current() is Some
        &&& forall|i: int|
            0 <= i < self.agenda.len() ==> {
                &&& (#[trigger] self.agenda[i]).asks() ==> i == self.agenda.len() - 1
                    && self.queue.current() is Some
                &&& self.agenda[i].subject() matches Some(id) ==> (self.queue.current() matches Some(
                    track,
                ) && track.id == id)
            }
    }

    /// Nothing is left to carry out.
    pub open spec fn idle(self) -> bool {
        self.agenda.len() == 0
    }

    /// At most how many steps there are until nothing is left to carry out.
    pub open spec fn effort(self) -> nat {
        if self.idle() {
            0
        } else {
            self.agenda.len() + self.agenda.last().consequences()
        }
    }

    /// A player that has not been told anything.
    pub open spec fn fresh() -> Self {
        PlayerView { queue: QueueView::empty(), mode: LoopState::Empty, agenda: Seq::empty() }
    }

    /// One more task on the agenda.
    pub open spec fn planning(self, task: TaskView) -> Self {
        PlayerView { agenda: self.agenda.push(task), ..self }
    }

    pub open spec fn with_mode(self, mode: LoopState) -> Self {
        PlayerView { mode, ..self }
    }

    pub open spec fn with_queue(self, queue: QueueView) -> Self {
        PlayerView { queue, ..self }
    }

    /// Another track list, which is reported.
    pub open spec fn replaced(self, queue: QueueView) -> Self {
        self.with_queue(queue).planning(TaskView::TellQueue(queue.tracks))
    }

    /// The current track is to be played; without one, nothing is loaded.
    pub open spec fn starting(self) -> Self {
        match self.queue.current() {
            Some(track) => self.planning(TaskView::Load { track: track.id, path: track.path@ }),
            None => self.with_mode(LoopState::Empty),
        }
    }

    /// The current track is to be loaded and held at `position`; without one, nothing is
    /// loaded.
    pub open spec fn restoring(self, position: nat) -> Self {
        match self.queue.current() {
            Some(track) => self.planning(
                TaskView::LoadPaused { track: track.id, path: track.path@, position },
            ),
            None => self.with_mode(LoopState::Empty),
        }
    }

    /// The backend is silenced and the queue cleared, and both are reported.
    pub open spec fn stopped(self) -> Self {
        self.planning(TaskView::Stop).with_mode(LoopState::Empty).replaced(QueueView::empty()).planning(
            TaskView::TellState(StateView::Stopped),
        )
    }

    /// The position of the current track is to be asked for and reported.
    pub open spec fn locating(self, paused: bool) -> Self {
        match self.queue.current() {
            Some(track) => self.planning(TaskView::TellPosition { track: track.id, paused }),
            None => self,
        }
    }

    /// The backend is to be asked whether there was anything to resume.
    pub open spec fn confirming(self) -> Self {
        match self.queue.current() {
            Some(track) => self.planning(TaskView::ConfirmResume { track: track.id }),
            None => self,
        }
    }

    /// `queue` takes the place of the queue and is to be played. With nothing in it, whatever
    /// is loaded stops.
    pub open spec fn playing(self, queue: QueueView) -> Self {
        if queue.tracks.len() == 0 && self.mode != LoopState::Empty {
            self.stopped()
        } else {
            self.replaced(queue).starting()
        }
    }

    /// `queue` takes the place of the queue and is to be held paused at `position`. With
    /// nothing in it, whatever is loaded stops.
    pub open spec fn reopening(self, queue: QueueView, position: nat) -> Self {
        if queue.tracks.len() == 0 && self.mode != LoopState::Empty {
            self.stopped()
        } else {
            self.replaced(queue).restoring(position)
        }
    }

    /// A seek to `position` is reported for the source that is loaded, if one is.
    pub open spec fn telling_seek(self, position: nat) -> Self {
        match (self.mode, self.queue.current()) {
            (LoopState::Playing, Some(track)) => self.planning(
                TaskView::TellState(StateView::Playing { track: track.id, position }),
            ),
            (LoopState::Paused, Some(track)) => self.planning(
                TaskView::TellState(StateView::Paused { track: track.id, position }),
            ),
            _ => self,
        }
    }

    /// The track list is exchanged under the current track. If that track is not in
    /// `tracks`, playback stops.
    pub open spec fn reconciled(self, tracks: Seq<Track>) -> Self {
        match self.queue.current() {
            Some(track) => match first_with_id(tracks, track.id) {
                Some(i) => self.replaced(QueueView::positioned(tracks, i)),
                None => self.stopped(),
            },
            None => self.replaced(QueueView::positioned(tracks, 0)),
        }
    }

    /// After a command.
    pub open spec fn commanded(self, command: PlayerCommand) -> Self {
        match command {
            PlayerCommand::Play(track) => self.playing(QueueView::positioned(seq![*track], 0)),
            PlayerCommand::PlayQueue { tracks, start } => self.playing(
                QueueView::positioned(tracks@, start as int),
            ),
            PlayerCommand::Enqueue(tracks) => {
                let longer = self.replaced(self.queue.appended(tracks@));
                if self.queue.tracks.len() == 0 {
                    longer.starting()
                } else {
                    longer
                }
            },
            PlayerCommand::RestorePaused { tracks, start, position } => self.reopening(
                QueueView::positioned(tracks@, start as int),
                position@,
            ),
            PlayerCommand::SetQueue(tracks) => self.reconciled(tracks@),
            PlayerCommand::Pause => if self.mode == LoopState::Empty {
                self.planning(TaskView::Pause)
            } else {
                self.planning(TaskView::Pause).with_mode(LoopState::Paused).locating(true)
            },
            PlayerCommand::Resume => if self.mode == LoopState::Empty {
                self
            } else {
                self.planning(TaskView::Resume).with_mode(LoopState::Playing).confirming()
            },
            PlayerCommand::Stop => self.stopped(),
            PlayerCommand::Seek(position) => self.planning(TaskView::Seek(position@)).telling_seek(
                position@,
            ),
            PlayerCommand::SetVolume(volume) => self.planning(TaskView::SetVolume(volume)),
            PlayerCommand::Next => if self.queue.has_next() {
                self.with_queue(self.queue.advanced()).starting()
            } else {
                self
            },
            PlayerCommand::Previous => if self.queue.has_previous() {
                self.with_queue(self.queue.rewound()).starting()
            } else {
                self
            },
        }
    }

    /// After a tick of the clock.
    pub open spec fn ticked(self) -> Self {
        match self.queue.current() {
            Some(_) => self.planning(TaskView::Poll),
            None => self.with_mode(LoopState::Empty),
        }
    }

    /// After the backend was asked to play `track`.
    pub open spec fn loaded(self, track: TrackId, result: Result<(), AudioError>) -> Self {
        match result {
            Ok(_) => self.with_mode(LoopState::Playing).planning(
                TaskView::TellState(StateView::Playing { track, position: 0 }),
            ),
            Err(e) => self.failed(track, e),
        }
    }

    /// After the backend was asked to hold `track` at `position`.
    pub open spec fn loaded_paused(
        self,
        track: TrackId,
        position: nat,
        result: Result<(), AudioError>,
    ) -> Self {
        match result {
            Ok(_) => self.with_mode(LoopState::Paused).planning(
                TaskView::TellState(StateView::Paused { track, position }),
            ),
            Err(e) => self.failed(track, e),
        }
    }

    /// The backend could not open or decode `track`.
    pub open spec fn failed(self, track: TrackId, error: AudioError) -> Self {
        self.with_mode(LoopState::Empty).planning(
            TaskView::TellState(StateView::Failed { track, error: error.message_view() }),
        )
    }

    /// After the backend was asked what it is doing. A track that ended gives way to the
    /// next one, and the last one to silence.
    pub open spec fn polled(self, state: BackendState) -> Self {
        match state {
            BackendState::Playing => self.with_mode(LoopState::Playing).locating(false),
            BackendState::Paused => self.with_mode(LoopState::Paused),
            BackendState::Idle => if self.queue.has_next() {
                self.with_queue(self.queue.advanced()).starting()
            } else {
                self.stopped()
            },
        }
    }

    /// After the backend was asked what it is doing upon a resume. One that is idle had
    /// nothing to resume, and is not reported as playing.
    pub open spec fn resumed(self, state: BackendState) -> Self {
        if state == BackendState::Idle {
            self
        } else {
            self.locating(false)
        }
    }

    /// After the backend was asked for the position of `track`.
    pub open spec fn located(self, track: TrackId, paused: bool, head: Duration) -> Self {
        let position = reported_position(duration_nanos(head) as nat);
        self.planning(
            TaskView::TellState(
                if paused {
                    StateView::Paused { track, position }
                } else {
                    StateView::Playing { track, position }
                },
            ),
        )
    }

    /// Without the first task of the agenda.
    pub open spec fn shifted(self) -> Self {
        PlayerView { agenda: self.agenda.drop_first(), ..self }
    }

    /// After the first task of the agenda was carried out, and answered by `answers`.
    pub open spec fn performed(self, answers: Answers) -> Self {
        match self.agenda[0] {
            TaskView::Load { track, .. } => self.shifted().loaded(track, answers.loaded),
            TaskView::LoadPaused { track, position, .. } => self.shifted().loaded_paused(
                track,
                position,
                answers.loaded,
            ),
            TaskView::Poll => self.shifted().polled(answers.state),
            TaskView::ConfirmResume { .. } => self.shifted().resumed(answers.state),
            TaskView::TellPosition { track, paused } => self.shifted().located(
                track,
                paused,
                answers.position,
            ),
            _ => self.shifted(),
        }
    }
}

} // verus!
