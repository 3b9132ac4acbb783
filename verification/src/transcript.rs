//! What the world sees of a command or a tick, from start to end.

use crate::backend::{AudioBackend, BackendCall, BackendState};
use crate::command::PlayerCommand;
use crate::model::{Answers, LoopState, PlayerView, TaskView};
use crate::queue::QueueView;
use crate::seek::{duration_nanos, reported_position};
use crate::state::StateView;
use crate::track::{first_with_id, Track, TrackId};
use vstd::prelude::*;

verus! {

/// Something that the world sees of the player.
#[verifier::ext_equal]
pub enum Event {
    /// The backend is called.
    Call(BackendCall),
    /// A playback state is reported.
    State(StateView),
    /// A track list is reported.
    Queue(Seq<Track>),
}

/// What the world sees when `task` is carried out.
pub open spec fn event_of(task: TaskView) -> Event {
    match task {
        TaskView::TellState(state) => Event::State(state),
        TaskView::TellQueue(tracks) => Event::Queue(tracks),
        _ => Event::Call(task.call().unwrap()),
    }
}

/// Carries out up to `steps` tasks: the player that is reached, and what was seen on the way.
pub open spec fn run(player: PlayerView, answers: Answers, steps: nat) -> (PlayerView, Seq<Event>)
    decreases steps,
{
    if steps == 0 || player.idle() {
        (player, Seq::empty())
    } else {
        let (end, rest) = run(player.performed(answers), answers, (steps - 1) as nat);
        (end, seq![event_of(player.agenda[0])] + rest)
    }
}

/// The player after everything that a command brings about.
pub open spec fn after_command(
    player: PlayerView,
    command: PlayerCommand,
    answers: Answers,
) -> PlayerView {
    run(player.commanded(command), answers, 4).0
}

/// What is seen of a command.
pub open spec fn seen_of_command(
    player: PlayerView,
    command: PlayerCommand,
    answers: Answers,
) -> Seq<Event> {
    run(player.commanded(command), answers, 4).1
}

/// The player after everything that a tick brings about.
pub open spec fn after_tick(player: PlayerView, answers: Answers) -> PlayerView {
    run(player.ticked(), answers, 4).0
}

/// What is seen of a tick.
pub open spec fn seen_of_tick(player: PlayerView, answers: Answers) -> Seq<Event> {
    run(player.ticked(), answers, 4).1
}

/// What is believed of the backend after it answered a request to play.
pub open spec fn mode_after_load(answers: Answers) -> LoopState {
    if answers.loaded is Ok {
        LoopState::Playing
    } else {
        LoopState::Empty
    }
}

/// What is believed of the backend after it answered a request to hold a track paused.
pub open spec fn mode_after_restore(answers: Answers) -> LoopState {
    if answers.loaded is Ok {
        LoopState::Paused
    } else {
        LoopState::Empty
    }
}

/// What is reported of a track that the backend could not load.
pub open spec fn failure(track: TrackId, answers: Answers) -> StateView {
    StateView::Failed { track, error: answers.loaded.unwrap_err().message_view() }
}

/// The current track of `queue` is played: what is seen.
pub open spec fn seen_of_play(queue: QueueView, answers: Answers) -> Seq<Event> {
    match queue.current() {
        Some(track) => seq![
            Event::Call(BackendCall::Play(track.path@)),
            Event::State(
                if answers.loaded is Ok {
                    StateView::Playing { track: track.id, position: 0 }
                } else {
                    failure(track.id, answers)
                },
            ),
        ],
        None => seq![],
    }
}

/// The current track of `queue` is held paused at `position`: what is seen.
pub open spec fn seen_of_restore(queue: QueueView, position: nat, answers: Answers) -> Seq<Event> {
    match queue.current() {
        Some(track) => seq![
            Event::Call(BackendCall::PlayPaused(track.path@, position)),
            Event::State(
                if answers.loaded is Ok {
                    StateView::Paused { track: track.id, position }
                } else {
                    failure(track.id, answers)
                },
            ),
        ],
        None => seq![],
    }
}

/// Playback stops: what is seen.
pub open spec fn seen_of_stop() -> Seq<Event> {
    seq![
        Event::Call(BackendCall::Stop),
        Event::Queue(Seq::empty()),
        Event::State(StateView::Stopped),
    ]
}

/// The position of a play head, as it is reported.
pub open spec fn play_head(answers: Answers) -> nat {
    reported_position(duration_nanos(answers.position) as nat)
}

/// A player that has nothing left to do.
pub open spec fn at_rest(queue: QueueView, mode: LoopState) -> PlayerView {
    PlayerView { queue, mode, agenda: Seq::empty() }
}

/// A player whose queue was exchanged for one that is then played.
pub open spec fn played(queue: QueueView, answers: Answers) -> PlayerView {
    at_rest(
        queue,
        if queue.current() is Some {
            mode_after_load(answers)
        } else {
            LoopState::Empty
        },
    )
}

/// A command from start to end: the player that it leaves, and the calls and reports that
/// it makes, in their order.
pub open spec fn transcript(
    player: PlayerView,
    command: PlayerCommand,
    answers: Answers,
) -> (PlayerView, Seq<Event>) {
    match command {
        PlayerCommand::Play(track) => {
            let queue = QueueView::positioned(seq![*track], 0);
            (played(queue, answers), seq![Event::Queue(queue.tracks)] + seen_of_play(queue, answers))
        },
        PlayerCommand::PlayQueue { tracks, start } => if tracks@.len() == 0 && player.mode
            != LoopState::Empty {
            (at_rest(QueueView::empty(), LoopState::Empty), seen_of_stop())
        } else {
            let queue = QueueView::positioned(tracks@, start as int);
            (played(queue, answers), seq![Event::Queue(queue.tracks)] + seen_of_play(queue, answers))
        },
        PlayerCommand::Enqueue(tracks) => {
            let queue = player.queue.appended(tracks@);
            if player.queue.tracks.len() == 0 {
                (
                    played(queue, answers),
                    seq![Event::Queue(queue.tracks)] + seen_of_play(queue, answers),
                )
            } else {
                (at_rest(queue, player.mode), seq![Event::Queue(queue.tracks)])
            }
        },
        PlayerCommand::RestorePaused { tracks, start, position } => if tracks@.len() == 0
            && player.mode != LoopState::Empty {
            (at_rest(QueueView::empty(), LoopState::Empty), seen_of_stop())
        } else {
            let queue = QueueView::positioned(tracks@, start as int);
            (
                at_rest(
                    queue,
                    if queue.current() is Some {
                        mode_after_restore(answers)
                    } else {
                        LoopState::Empty
                    },
                ),
                seq![Event::Queue(queue.tracks)] + seen_of_restore(queue, position@, answers),
            )
        },
        PlayerCommand::SetQueue(tracks) => match player.queue.current() {
            Some(track) => match first_with_id(tracks@, track.id) {
                Some(i) => (
                    at_rest(QueueView::positioned(tracks@, i), player.mode),
                    seq![Event::Queue(tracks@)],
                ),
                None => (at_rest(QueueView::empty(), LoopState::Empty), seen_of_stop()),
            },
            None => (
                at_rest(QueueView::positioned(tracks@, 0), player.mode),
                seq![Event::Queue(tracks@)],
            ),
        },
        PlayerCommand::Pause => match player.queue.current() {
            Some(track) if player.mode != LoopState::Empty => (
                at_rest(player.queue, LoopState::Paused),
                seq![
                    Event::Call(BackendCall::Pause),
                    Event::Call(BackendCall::Position),
                    Event::State(
                        StateView::Paused { track: track.id, position: play_head(answers) },
                    ),
                ],
            ),
            _ => (player, seq![Event::Call(BackendCall::Pause)]),
        },
        PlayerCommand::Resume => match player.queue.current() {
            Some(track) if player.mode != LoopState::Empty => (
                at_rest(player.queue, LoopState::Playing),
                if answers.state == BackendState::Idle {
                    seq![Event::Call(BackendCall::Resume), Event::Call(BackendCall::State)]
                } else {
                    seq![
                        Event::Call(BackendCall::Resume),
                        Event::Call(BackendCall::State),
                        Event::Call(BackendCall::Position),
                        Event::State(
                            StateView::Playing { track: track.id, position: play_head(answers) },
                        ),
                    ]
                },
            ),
            _ => (player, seq![]),
        },
        PlayerCommand::Stop => (at_rest(QueueView::empty(), LoopState::Empty), seen_of_stop()),
        PlayerCommand::Seek(position) => (
            player,
            match (player.mode, player.queue.current()) {
                (LoopState::Playing, Some(track)) => seq![
                    Event::Call(BackendCall::Seek(position@)),
                    Event::State(StateView::Playing { track: track.id, position: position@ }),
                ],
                (LoopState::Paused, Some(track)) => seq![
                    Event::Call(BackendCall::Seek(position@)),
                    Event::State(StateView::Paused { track: track.id, position: position@ }),
                ],
                _ => seq![Event::Call(BackendCall::Seek(position@))],
            },
        ),
        PlayerCommand::SetVolume(volume) => (
            player,
            seq![Event::Call(BackendCall::SetVolume(volume))],
        ),
        PlayerCommand::Next => if player.queue.has_next() {
            (
                played(player.queue.advanced(), answers),
                seen_of_play(player.queue.advanced(), answers),
            )
        } else {
            (player, seq![])
        },
        PlayerCommand::Previous => if player.queue.has_previous() {
            (
                played(player.queue.rewound(), answers),
                seen_of_play(player.queue.rewound(), answers),
            )
        } else {
            (player, seq![])
        },
    }
}

/// A tick from start to end: the player that it leaves, and the calls and reports that it
/// makes, in their order.
pub open spec fn tick_transcript(player: PlayerView, answers: Answers) -> (
    PlayerView,
    Seq<Event>,
) {
    let asked = seq![Event::Call(BackendCall::State)];
    match player.queue.current() {
        Some(track) => match answers.state {
            BackendState::Playing => (
                at_rest(player.queue, LoopState::Playing),
                asked + seq![
                    Event::Call(BackendCall::Position),
                    Event::State(
                        StateView::Playing { track: track.id, position: play_head(answers) },
                    ),
                ],
            ),
            BackendState::Paused => (at_rest(player.queue, LoopState::Paused), asked),
            BackendState::Idle => if player.queue.has_next() {
                (
                    played(player.queue.advanced(), answers),
                    asked + seen_of_play(player.queue.advanced(), answers),
                )
            } else {
                (at_rest(QueueView::empty(), LoopState::Empty), asked + seen_of_stop())
            },
        },
        None => (at_rest(player.queue, LoopState::Empty), seq![]),
    }
}

/// Running a player whose first task is no question.
proof fn lemma_front(
    queue: QueueView,
    mode: LoopState,
    task: TaskView,
    rest: Seq<TaskView>,
    answers: Answers,
    steps: nat,
)
    requires
        steps > 0,
        !task.asks(),
    ensures
        run(PlayerView { queue, mode, agenda: seq![task] + rest }, answers, steps) == ({
            let (end, seen) = run(
                PlayerView { queue, mode, agenda: rest },
                answers,
                (steps - 1) as nat,
            );
            (end, seq![event_of(task)] + seen)
        }),
{
    let player = PlayerView { queue, mode, agenda: seq![task] + rest };
    assert(player.performed(answers).agenda =~= rest);
    assert(player.performed(answers) == PlayerView { queue, mode, agenda: rest });
}

/// Running a player that has one task left, which is no question.
proof fn lemma_last(
    queue: QueueView,
    mode: LoopState,
    task: TaskView,
    answers: Answers,
    steps: nat,
)
    requires
        steps > 0,
        !task.asks(),
    ensures
        run(PlayerView { queue, mode, agenda: seq![task] }, answers, steps) == (
            at_rest(queue, mode),
            seq![event_of(task)],
        ),
{
    assert(seq![task] =~= seq![task] + Seq::<TaskView>::empty());
    lemma_front(queue, mode, task, Seq::empty(), answers, steps);
    assert(seq![event_of(task)] + Seq::<Event>::empty() =~= seq![event_of(task)]);
}

/// Running a player that has nothing left but to play its current track.
proof fn lemma_play(queue: QueueView, mode: LoopState, answers: Answers, steps: nat)
    requires
        steps >= 2,
    ensures
        run(PlayerView { queue, mode, agenda: Seq::empty() }.starting(), answers, steps) == (
            played(queue, answers),
            seen_of_play(queue, answers),
        ),
{
    let player = PlayerView { queue, mode, agenda: Seq::empty() }.starting();
    if let Some(track) = queue.current() {
        let told = player.performed(answers).agenda[0];
        assert(player.performed(answers).agenda =~= seq![told]);
        lemma_last(queue, mode_after_load(answers), told, answers, (steps - 1) as nat);
        assert(run(player, answers, steps).1 =~= seen_of_play(queue, answers));
    } else {
        assert(run(player, answers, steps).1 =~= seen_of_play(queue, answers));
    }
}

/// Running a player that has nothing left but to restore its current track.
proof fn lemma_restore(
    queue: QueueView,
    mode: LoopState,
    position: nat,
    answers: Answers,
    steps: nat,
)
    requires
        steps >= 2,
        queue.current() is Some,
    ensures
        run(PlayerView { queue, mode, agenda: Seq::empty() }.restoring(position), answers, steps)
            == (at_rest(queue, mode_after_restore(answers)), seen_of_restore(
            queue,
            position,
            answers,
        )),
{
    let player = PlayerView { queue, mode, agenda: Seq::empty() }.restoring(position);
    let told = player.performed(answers).agenda[0];
    assert(player.performed(answers).agenda =~= seq![told]);
    lemma_last(queue, mode_after_restore(answers), told, answers, (steps - 1) as nat);
    assert(run(player, answers, steps).1 =~= seen_of_restore(queue, position, answers));
}

/// Running a player that has nothing left but to ask for a position and report it.
proof fn lemma_locate(
    queue: QueueView,
    mode: LoopState,
    track: TrackId,
    paused: bool,
    answers: Answers,
    steps: nat,
)
    requires
        steps >= 2,
    ensures
        run(
            PlayerView { queue, mode, agenda: seq![TaskView::TellPosition { track, paused }] },
            answers,
            steps,
        ) == (
            at_rest(queue, mode),
            seq![
                Event::Call(BackendCall::Position),
                Event::State(
                    if paused {
                        StateView::Paused { track, position: play_head(answers) }
                    } else {
                        StateView::Playing { track, position: play_head(answers) }
                    },
                ),
            ],
        ),
{
    let player = PlayerView {
        queue,
        mode,
        agenda: seq![TaskView::TellPosition { track, paused }],
    };
    let told = player.performed(answers).agenda[0];
    assert(player.performed(answers).agenda =~= seq![told]);
    lemma_last(queue, mode, told, answers, (steps - 1) as nat);
    assert(run(player, answers, steps).1 =~= seq![
        Event::Call(BackendCall::Position),
        event_of(told),
    ]);
}

/// Running a player that has nothing left but to stop.
proof fn lemma_stop(queue: QueueView, mode: LoopState, answers: Answers, steps: nat)
    requires
        steps >= 3,
    ensures
        run(PlayerView { queue, mode, agenda: Seq::empty() }.stopped(), answers, steps) == (
            at_rest(QueueView::empty(), LoopState::Empty),
            seen_of_stop(),
        ),
{
    let player = PlayerView { queue, mode, agenda: Seq::empty() }.stopped();
    let none = QueueView::empty();
    let told = TaskView::TellState(StateView::Stopped);
    let listed = TaskView::TellQueue(Seq::empty());
    assert(player.agenda =~= seq![TaskView::Stop] + seq![listed, told]);
    assert(seq![listed, told] =~= seq![listed] + seq![told]);
    lemma_front(none, LoopState::Empty, TaskView::Stop, seq![listed, told], answers, steps);
    lemma_front(none, LoopState::Empty, listed, seq![told], answers, (steps - 1) as nat);
    lemma_last(none, LoopState::Empty, told, answers, (steps - 2) as nat);
    assert(run(player, answers, steps).1 =~= seen_of_stop());
}

/// Running a player that reports its list and then plays the current track.
proof fn lemma_listed_then_played(queue: QueueView, mode: LoopState, answers: Answers)
    ensures
        run(
            PlayerView {
                queue,
                mode,
                agenda: seq![TaskView::TellQueue(queue.tracks)],
            }.starting(),
            answers,
            4,
        ) == (played(queue, answers), seq![Event::Queue(queue.tracks)] + seen_of_play(
            queue,
            answers,
        )),
{
    let listed = TaskView::TellQueue(queue.tracks);
    let player = PlayerView { queue, mode, agenda: seq![listed] }.starting();
    let rest = PlayerView { queue, mode, agenda: Seq::empty() }.starting();
    assert(player.agenda =~= seq![listed] + rest.agenda);
    lemma_front(queue, rest.mode, listed, rest.agenda, answers, 4);
    lemma_play(queue, mode, answers, 3);
}

/// The transcript of `Play`.
proof fn lemma_transcript_of_play(player: PlayerView, command: PlayerCommand, answers: Answers)
    requires
        player.wf(),
        player.idle(),
        command is Play,
    ensures
        run(player.commanded(command), answers, 4) == transcript(player, command, answers),
{
    assert(player =~= at_rest(player.queue, player.mode));
    if let PlayerCommand::Play(track) = command {
        lemma_listed_then_played(
            QueueView::positioned(seq![*track], 0),
            player.mode,
            answers,
        );
    }
}

/// The transcript of `PlayQueue`.
proof fn lemma_transcript_of_play_queue(
    player: PlayerView,
    command: PlayerCommand,
    answers: Answers,
)
    requires
        player.wf(),
        player.idle(),
        command is PlayQueue,
    ensures
        run(player.commanded(command), answers, 4) == transcript(player, command, answers),
{
    assert(player =~= at_rest(player.queue, player.mode));
    if let PlayerCommand::PlayQueue { tracks, start } = command {
        if tracks@.len() == 0 && player.mode != LoopState::Empty {
            lemma_stop(player.queue, player.mode, answers, 4);
        } else {
            lemma_listed_then_played(
                QueueView::positioned(tracks@, start as int),
                player.mode,
                answers,
            );
        }
    }
}

/// The transcript of `Enqueue`.
proof fn lemma_transcript_of_enqueue(player: PlayerView, command: PlayerCommand, answers: Answers)
    requires
        player.wf(),
        player.idle(),
        command is Enqueue,
    ensures
        run(player.commanded(command), answers, 4) == transcript(player, command, answers),
{
    let next = player.commanded(command);
    assert(player =~= at_rest(player.queue, player.mode));
    if let PlayerCommand::Enqueue(tracks) = command {
        let queue = player.queue.appended(tracks@);
        if player.queue.tracks.len() == 0 {
            lemma_listed_then_played(queue, player.mode, answers);
        } else {
            let listed = TaskView::TellQueue(queue.tracks);
            assert(next.agenda =~= seq![listed]);
            lemma_last(queue, player.mode, listed, answers, 4);
        }
    }
}

/// The transcript of `RestorePaused`.
proof fn lemma_transcript_of_restore_paused(
    player: PlayerView,
    command: PlayerCommand,
    answers: Answers,
)
    requires
        player.wf(),
        player.idle(),
        command is RestorePaused,
    ensures
        run(player.commanded(command), answers, 4) == transcript(player, command, answers),
{
    let next = player.commanded(command);
    assert(player =~= at_rest(player.queue, player.mode));
    if let PlayerCommand::RestorePaused { tracks, start, position } = command {
        let queue = QueueView::positioned(tracks@, start as int);
        let listed = TaskView::TellQueue(queue.tracks);
        if tracks@.len() == 0 && player.mode != LoopState::Empty {
            lemma_stop(player.queue, player.mode, answers, 4);
        } else if let Some(track) = queue.current() {
            let rest = PlayerView {
                queue,
                mode: player.mode,
                agenda: Seq::empty(),
            }.restoring(position@);
            assert(next.agenda =~= seq![listed] + rest.agenda);
            lemma_front(queue, player.mode, listed, rest.agenda, answers, 4);
            lemma_restore(queue, player.mode, position@, answers, 3);
        } else {
            assert(next.agenda =~= seq![listed]);
            lemma_last(queue, LoopState::Empty, listed, answers, 4);
            assert(seq![Event::Queue(queue.tracks)] =~= transcript(
                player,
                command,
                answers,
            ).1);
        }
    }
}

/// The transcript of `SetQueue`.
proof fn lemma_transcript_of_set_queue(
    player: PlayerView,
    command: PlayerCommand,
    answers: Answers,
)
    requires
        player.wf(),
        player.idle(),
        command is SetQueue,
    ensures
        run(player.commanded(command), answers, 4) == transcript(player, command, answers),
{
    let next = player.commanded(command);
    assert(player =~= at_rest(player.queue, player.mode));
    if let PlayerCommand::SetQueue(tracks) = command {
        match player.queue.current() {
            Some(track) => {
                match first_with_id(tracks@, track.id) {
                    Some(i) => {
                        let listed = TaskView::TellQueue(tracks@);
                        assert(next.agenda =~= seq![listed]);
                        lemma_last(next.queue, player.mode, listed, answers, 4);
                    },
                    None => {
                        lemma_stop(player.queue, player.mode, answers, 4);
                    },
                }
            },
            None => {
                let listed = TaskView::TellQueue(tracks@);
                assert(next.agenda =~= seq![listed]);
                lemma_last(next.queue, player.mode, listed, answers, 4);
            },
        }
    }
}

/// The transcript of `Pause`.
proof fn lemma_transcript_of_pause(player: PlayerView, command: PlayerCommand, answers: Answers)
    requires
        player.wf(),
        player.idle(),
        command is Pause,
    ensures
        run(player.commanded(command), answers, 4) == transcript(player, command, answers),
{
    let next = player.commanded(command);
    assert(player =~= at_rest(player.queue, player.mode));
    if player.mode == LoopState::Empty {
        assert(next.agenda =~= seq![TaskView::Pause]);
        lemma_last(player.queue, player.mode, TaskView::Pause, answers, 4);
    } else {
        let queue = player.queue;
        let track = queue.current().unwrap().id;
        let asked = TaskView::TellPosition { track, paused: true };
        assert(next.agenda =~= seq![TaskView::Pause] + seq![asked]);
        lemma_front(queue, LoopState::Paused, TaskView::Pause, seq![asked], answers, 4);
        lemma_locate(queue, LoopState::Paused, track, true, answers, 3);
        assert(run(next, answers, 4).1 =~= transcript(player, command, answers).1);
    }
}

/// The transcript of `Resume`.
proof fn lemma_transcript_of_resume(player: PlayerView, command: PlayerCommand, answers: Answers)
    requires
        player.wf(),
        player.idle(),
        command is Resume,
    ensures
        run(player.commanded(command), answers, 4) == transcript(player, command, answers),
{
    let next = player.commanded(command);
    assert(player =~= at_rest(player.queue, player.mode));
    if player.mode != LoopState::Empty {
        let queue = player.queue;
        let track = queue.current().unwrap().id;
        let asked = TaskView::ConfirmResume { track };
        let asking = PlayerView { queue, mode: LoopState::Playing, agenda: seq![asked] };
        assert(next.agenda =~= seq![TaskView::Resume] + seq![asked]);
        lemma_front(queue, LoopState::Playing, TaskView::Resume, seq![asked], answers, 4);
        assert(asking.shifted() =~= at_rest(queue, LoopState::Playing));
        if answers.state == BackendState::Idle {
            assert(run(asking.performed(answers), answers, 2).1 =~= Seq::empty());
        } else {
            assert(asking.performed(answers).agenda =~= seq![
                TaskView::TellPosition { track, paused: false },
            ]);
            lemma_locate(queue, LoopState::Playing, track, false, answers, 2);
        }
        assert(run(next, answers, 4).1 =~= transcript(player, command, answers).1);
    }
}

/// The transcript of `Stop`.
proof fn lemma_transcript_of_stop(player: PlayerView, command: PlayerCommand, answers: Answers)
    requires
        player.wf(),
        player.idle(),
        command is Stop,
    ensures
        run(player.commanded(command), answers, 4) == transcript(player, command, answers),
{
    assert(player =~= at_rest(player.queue, player.mode));
    lemma_stop(player.queue, player.mode, answers, 4);
}

/// The transcript of `Seek`.
proof fn lemma_transcript_of_seek(player: PlayerView, command: PlayerCommand, answers: Answers)
    requires
        player.wf(),
        player.idle(),
        command is Seek,
    ensures
        run(player.commanded(command), answers, 4) == transcript(player, command, answers),
{
    let next = player.commanded(command);
    assert(player =~= at_rest(player.queue, player.mode));
    if let PlayerCommand::Seek(position) = command {
        let seek = TaskView::Seek(position@);
        if player.mode == LoopState::Empty {
            assert(next.agenda =~= seq![seek]);
            lemma_last(player.queue, player.mode, seek, answers, 4);
        } else {
            let told = next.agenda[1];
            assert(next.agenda =~= seq![seek] + seq![told]);
            lemma_front(player.queue, player.mode, seek, seq![told], answers, 4);
            lemma_last(player.queue, player.mode, told, answers, 3);
            assert(run(next, answers, 4).1 =~= seq![event_of(seek), event_of(told)]);
        }
    }
}

/// The transcript of `SetVolume`.
proof fn lemma_transcript_of_set_volume(
    player: PlayerView,
    command: PlayerCommand,
    answers: Answers,
)
    requires
        player.wf(),
        player.idle(),
        command is SetVolume,
    ensures
        run(player.commanded(command), answers, 4) == transcript(player, command, answers),
{
    let next = player.commanded(command);
    assert(player =~= at_rest(player.queue, player.mode));
    if let PlayerCommand::SetVolume(volume) = command {
        assert(next.agenda =~= seq![TaskView::SetVolume(volume)]);
        lemma_last(player.queue, player.mode, TaskView::SetVolume(volume), answers, 4);
    }
}

/// The transcript of `Next`.
proof fn lemma_transcript_of_next(player: PlayerView, command: PlayerCommand, answers: Answers)
    requires
        player.wf(),
        player.idle(),
        command is Next,
    ensures
        run(player.commanded(command), answers, 4) == transcript(player, command, answers),
{
    assert(player =~= at_rest(player.queue, player.mode));
    if player.queue.has_next() {
        lemma_play(player.queue.advanced(), player.mode, answers, 4);
    }
}

/// The transcript of `Previous`.
proof fn lemma_transcript_of_previous(player: PlayerView, command: PlayerCommand, answers: Answers)
    requires
        player.wf(),
        player.idle(),
        command is Previous,
    ensures
        run(player.commanded(command), answers, 4) == transcript(player, command, answers),
{
    assert(player =~= at_rest(player.queue, player.mode));
    if player.queue.has_previous() {
        lemma_play(player.queue.rewound(), player.mode, answers, 4);
    }
}

/// What a command brings about, step by step, is what its transcript says.
pub proof fn law_transcript_of_commands(
    player: PlayerView,
    command: PlayerCommand,
    answers: Answers,
)
    requires
        player.wf(),
        player.idle(),
    ensures
        after_command(player, command, answers) == transcript(player, command, answers).0,
        seen_of_command(player, command, answers) == transcript(player, command, answers).1,
{
    match command {
        PlayerCommand::Play(_) => {
            lemma_transcript_of_play(player, command, answers);
        },
        PlayerCommand::PlayQueue { .. } => {
            lemma_transcript_of_play_queue(player, command, answers);
        },
        PlayerCommand::Enqueue(_) => {
            lemma_transcript_of_enqueue(player, command, answers);
        },
        PlayerCommand::RestorePaused { .. } => {
            lemma_transcript_of_restore_paused(player, command, answers);
        },
        PlayerCommand::SetQueue(_) => {
            lemma_transcript_of_set_queue(player, command, answers);
        },
        PlayerCommand::Pause => {
            lemma_transcript_of_pause(player, command, answers);
        },
        PlayerCommand::Resume => {
            lemma_transcript_of_resume(player, command, answers);
        },
        PlayerCommand::Stop => {
            lemma_transcript_of_stop(player, command, answers);
        },
        PlayerCommand::Seek(_) => {
            lemma_transcript_of_seek(player, command, answers);
        },
        PlayerCommand::SetVolume(_) => {
            lemma_transcript_of_set_volume(player, command, answers);
        },
        PlayerCommand::Next => {
            lemma_transcript_of_next(player, command, answers);
        },
        PlayerCommand::Previous => {
            lemma_transcript_of_previous(player, command, answers);
        },
    }
}

/// What a tick brings about, step by step, is what its transcript says.
pub proof fn law_transcript_of_ticks(player: PlayerView, answers: Answers)
    requires
        player.wf(),
        player.idle(),
    ensures
        after_tick(player, answers) == tick_transcript(player, answers).0,
        seen_of_tick(player, answers) == tick_transcript(player, answers).1,
{
    let next = player.ticked();
    assert(player =~= at_rest(player.queue, player.mode));
    if let Some(track) = player.queue.current() {
        let asked = next.shifted();
        assert(asked =~= player);
        let polled = next.performed(answers);
        match answers.state {
            BackendState::Playing => {
                assert(polled.agenda =~= seq![
                    TaskView::TellPosition { track: track.id, paused: false },
                ]);
                lemma_locate(player.queue, LoopState::Playing, track.id, false, answers, 3);
            },
            BackendState::Paused => {
                assert(polled =~= at_rest(player.queue, LoopState::Paused));
                assert(run(polled, answers, 3).1 =~= Seq::empty());
                assert(run(next, answers, 4).1 =~= tick_transcript(player, answers).1);
            },
            BackendState::Idle => {
                if player.queue.has_next() {
                    lemma_play(player.queue.advanced(), player.mode, answers, 3);
                } else {
                    lemma_stop(player.queue, player.mode, answers, 3);
                }
            },
        }
    } else {
        assert(run(next, answers, 4).1 =~= tick_transcript(player, answers).1);
    }
}

/// Carries out one task for each of `answers`, which answers it, as long as there is one: the
/// player that is reached, and what was seen on the way.
pub open spec fn follow(player: PlayerView, answers: Seq<Answers>) -> (PlayerView, Seq<Event>)
    decreases answers.len(),
{
    if answers.len() == 0 || player.idle() {
        (player, Seq::empty())
    } else {
        let (end, rest) = follow(player.performed(answers[0]), answers.drop_first());
        (end, seq![event_of(player.agenda[0])] + rest)
    }
}

/// At each step at which the backend is called, `all` gives the answer that was given: one
/// answer to each question stands for all of `answers`.
pub open spec fn gathered(player: PlayerView, answers: Seq<Answers>, all: Answers) -> bool
    decreases answers.len(),
{
    answers.len() == 0 || player.idle() || {
        &&& player.agenda[0].call() matches Some(call) ==> answers[0].to(call) == all.to(call)
        &&& gathered(player.performed(all), answers.drop_first(), all)
    }
}

proof fn lemma_follow_is_run(player: PlayerView, answers: Seq<Answers>, all: Answers)
    requires
        gathered(player, answers, all),
    ensures
        follow(player, answers) == run(player, all, answers.len()),
    decreases answers.len(),
{
    if answers.len() > 0 && !player.idle() {
        assert(player.performed(answers[0]) == player.performed(all));
        lemma_follow_is_run(player.performed(all), answers.drop_first(), all);
    }
}

/// A player whose first task gets no answer of weight.
proof fn lemma_gathered_front(player: PlayerView, answers: Seq<Answers>, all: Answers)
    requires
        !player.idle(),
        !player.agenda[0].asks(),
        gathered(player.shifted(), answers.drop_first(), all),
    ensures
        gathered(player, answers, all),
{
}

/// A player that only has reports and plain calls left.
proof fn lemma_gathered_plain(player: PlayerView, answers: Seq<Answers>, all: Answers)
    requires
        forall|i: int| 0 <= i < player.agenda.len() ==> !(#[trigger] player.agenda[i]).asks(),
    ensures
        gathered(player, answers, all),
    decreases answers.len(),
{
    if answers.len() > 0 && !player.idle() {
        let next = player.performed(all);
        assert forall|i: int| 0 <= i < next.agenda.len() implies !(
        #[trigger] next.agenda[i]).asks() by {
            assert(next.agenda[i] == player.agenda[i + 1]);
        }
        lemma_gathered_plain(next, answers.drop_first(), all);
    }
}

/// A player whose one task is a question about a load or a position.
proof fn lemma_gathered_question(player: PlayerView, answers: Seq<Answers>, all: Answers)
    requires
        player.agenda.len() == 1,
        !(player.agenda[0] is Poll) && !(player.agenda[0] is ConfirmResume),
        answers.len() > 0,
        player.agenda[0] is TellPosition ==> answers[0].position == all.position,
        !(player.agenda[0] is TellPosition) ==> answers[0].loaded == all.loaded,
    ensures
        gathered(player, answers, all),
{
    let next = player.performed(all);
    assert forall|i: int| 0 <= i < next.agenda.len() implies !(
    #[trigger] next.agenda[i]).asks() by {}
    lemma_gathered_plain(next, answers.drop_first(), all);
}

/// A player whose one task is to ask what the hardware did on its own.
proof fn lemma_gathered_poll(player: PlayerView, answers: Seq<Answers>, all: Answers)
    requires
        player.queue.current() is Some,
        player.agenda.len() == 1,
        player.agenda[0] is Poll,
        answers.len() > 1,
        answers[0].state == all.state,
        answers[1].loaded == all.loaded,
        answers[1].position == all.position,
    ensures
        gathered(player, answers, all),
{
    reveal_with_fuel(gathered, 2);
    let next = player.performed(all);
    if next.idle() {
    } else if next.agenda.len() == 1 {
        lemma_gathered_question(next, answers.drop_first(), all);
    } else {
        lemma_gathered_plain(next, answers.drop_first(), all);
    }
}

/// A player whose one task is to ask whether there was anything to resume.
proof fn lemma_gathered_resume(player: PlayerView, answers: Seq<Answers>, all: Answers)
    requires
        player.agenda.len() == 1,
        player.agenda[0] is ConfirmResume,
        answers.len() > 1,
        answers[0].state == all.state,
        answers[1].position == all.position,
    ensures
        gathered(player, answers, all),
{
    reveal_with_fuel(gathered, 2);
    let next = player.performed(all);
    if !next.idle() {
        lemma_gathered_question(next, answers.drop_first(), all);
    }
}

/// Once nothing is left to do, further answers change nothing.
proof fn lemma_follow_ends(player: PlayerView, answers: Seq<Answers>, more: Seq<Answers>)
    requires
        follow(player, answers).0.idle(),
    ensures
        follow(player, answers + more) == follow(player, answers),
    decreases answers.len(),
{
    if answers.len() > 0 && !player.idle() {
        assert((answers + more).drop_first() =~= answers.drop_first() + more);
        lemma_follow_ends(player.performed(answers[0]), answers.drop_first(), more);
    }
}

/// One more answer carries out one more task.
pub proof fn lemma_follow_one_more(player: PlayerView, answers: Seq<Answers>, last: Answers)
    requires
        !follow(player, answers).0.idle(),
    ensures
        follow(player, answers.push(last)).0 == follow(player, answers).0.performed(last),
        follow(player, answers.push(last)).1 == follow(player, answers).1.push(
            event_of(follow(player, answers).0.agenda[0]),
        ),
    decreases answers.len(),
{
    reveal_with_fuel(follow, 2);
    if answers.len() > 0 {
        let next = player.performed(answers[0]);
        assert(answers.push(last).drop_first() =~= answers.drop_first().push(last));
        lemma_follow_one_more(next, answers.drop_first(), last);
        assert(follow(player, answers.push(last)).1 =~= follow(player, answers).1.push(
            event_of(follow(player, answers).0.agenda[0]),
        ));
    } else {
        assert(follow(player.performed(last), answers.push(last).drop_first()).1 =~= Seq::empty());
        assert(follow(player, answers.push(last)).1 =~= follow(player, answers).1.push(
            event_of(player.agenda[0]),
        ));
    }
}

/// Answers after the end, which nobody asks for, do not bear on what was gathered.
proof fn lemma_gathered_ends(
    player: PlayerView,
    answers: Seq<Answers>,
    more: Seq<Answers>,
    all: Answers,
)
    requires
        follow(player, answers).0.idle(),
    ensures
        gathered(player, answers + more, all) <==> gathered(player, answers, all),
    decreases answers.len(),
{
    if player.idle() {
    } else if answers[0].to(player.agenda[0].call().unwrap()) == all.to(
        player.agenda[0].call().unwrap(),
    ) || player.agenda[0].call() is None {
        assert((answers + more).drop_first() =~= answers.drop_first() + more);
        assert(player.performed(answers[0]) == player.performed(all));
        lemma_gathered_ends(player.performed(all), answers.drop_first(), more, all);
    }
}

/// Four answers are enough for what at most four steps bring to an end: any answers that do so
/// can be cut or filled up to four.
proof fn lemma_four_answers_are_enough(player: PlayerView, answers: Seq<Answers>) -> (four: Seq<
    Answers,
>)
    requires
        follow(player, answers).0.idle(),
        forall|four: Seq<Answers>|
            four.len() == 4 ==> (#[trigger] follow(player, four)).0.idle(),
    ensures
        four.len() == 4,
        follow(player, four) == follow(player, answers),
        forall|all: Answers| #[trigger]
            gathered(player, four, all) <==> gathered(player, answers, all),
{
    if answers.len() >= 4 {
        let four = answers.take(4);
        let rest = answers.skip(4);
        assert(answers =~= four + rest);
        assert(follow(player, four).0.idle());
        lemma_follow_ends(player, four, rest);
        assert forall|all: Answers| #[trigger]
            gathered(player, four, all) <==> gathered(player, answers, all) by {
            lemma_gathered_ends(player, four, rest, all);
        }
        four
    } else {
        let fill = Seq::new((4 - answers.len()) as nat, |i: int| arbitrary::<Answers>());
        lemma_follow_ends(player, answers, fill);
        assert forall|all: Answers| #[trigger]
            gathered(player, answers + fill, all) <==> gathered(player, answers, all) by {
            lemma_gathered_ends(player, answers, fill, all);
        }
        answers + fill
    }
}

/// One answer to each question that stands for four answers to a command.
spec fn gather(command: PlayerCommand, answers: Seq<Answers>) -> Answers {
    Answers {
        loaded: if command is Next || command is Previous {
            answers[0].loaded
        } else {
            answers[1].loaded
        },
        state: answers[1].state,
        position: if command is Resume {
            answers[2].position
        } else {
            answers[1].position
        },
    }
}

proof fn lemma_command_with_four_answers(
    player: PlayerView,
    command: PlayerCommand,
    answers: Seq<Answers>,
)
    requires
        player.wf(),
        player.idle(),
        answers.len() == 4,
    ensures
        follow(player.commanded(command), answers) == transcript(
            player,
            command,
            gather(command, answers),
        ),
        follow(player.commanded(command), answers).0.idle(),
        gathered(player.commanded(command), answers, gather(command, answers)),
{
    let next = player.commanded(command);
    let all = gather(command, answers);
    assert(gathered(next, answers, all)) by {
        if next.agenda.len() == 0 {
        } else if next.agenda.len() == 1 && next.agenda[0].asks() {
            lemma_gathered_question(next, answers, all);
        } else if next.agenda.len() == 2 && next.agenda[1] is ConfirmResume {
            lemma_gathered_resume(next.shifted(), answers.drop_first(), all);
            lemma_gathered_front(next, answers, all);
        } else if next.agenda.len() == 2 && next.agenda[1].asks() {
            lemma_gathered_question(next.shifted(), answers.drop_first(), all);
            lemma_gathered_front(next, answers, all);
        } else {
            lemma_gathered_plain(next, answers, all);
        }
    }
    lemma_follow_is_run(next, answers, all);
    law_transcript_of_commands(player, command, all);
}

proof fn lemma_tick_with_four_answers(player: PlayerView, answers: Seq<Answers>)
    requires
        player.wf(),
        player.idle(),
        answers.len() == 4,
    ensures
        follow(player.ticked(), answers) == tick_transcript(
            player,
            Answers { state: answers[0].state, ..answers[1] },
        ),
        follow(player.ticked(), answers).0.idle(),
        gathered(player.ticked(), answers, Answers { state: answers[0].state, ..answers[1] }),
{
    let next = player.ticked();
    let all = Answers { state: answers[0].state, ..answers[1] };
    assert(gathered(next, answers, all)) by {
        if !next.idle() {
            lemma_gathered_poll(next, answers, all);
        }
    }
    lemma_follow_is_run(next, answers, all);
    law_transcript_of_ticks(player, all);
}

/// However many steps a command takes until nothing is left to do, and whatever the backend
/// answers at each: it amounts to one answer to each question, the one that was given, and the
/// command ends as its transcript says for these.
pub proof fn law_commands_end_as_their_transcripts(
    player: PlayerView,
    command: PlayerCommand,
    answers: Seq<Answers>,
)
    requires
        player.wf(),
        player.idle(),
        follow(player.commanded(command), answers).0.idle(),
    ensures
        exists|all: Answers|
            {
                &&& #[trigger] gathered(player.commanded(command), answers, all)
                &&& follow(player.commanded(command), answers) == transcript(player, command, all)
            },
{
    let next = player.commanded(command);
    assert forall|four: Seq<Answers>| four.len() == 4 implies (#[trigger] follow(
        next,
        four,
    )).0.idle() by {
        lemma_command_with_four_answers(player, command, four);
    }
    let four = lemma_four_answers_are_enough(next, answers);
    lemma_command_with_four_answers(player, command, four);
    assert(gathered(next, answers, gather(command, four)));
}

/// However many steps a tick takes until nothing is left to do, and whatever the backend
/// answers at each: it amounts to one answer to each question, the one that was given, and the
/// tick ends as its transcript says for these.
pub proof fn law_ticks_end_as_their_transcripts(player: PlayerView, answers: Seq<Answers>)
    requires
        player.wf(),
        player.idle(),
        follow(player.ticked(), answers).0.idle(),
    ensures
        exists|all: Answers|
            {
                &&& #[trigger] gathered(player.ticked(), answers, all)
                &&& follow(player.ticked(), answers) == tick_transcript(player, all)
            },
{
    let next = player.ticked();
    assert forall|four: Seq<Answers>| four.len() == 4 implies (#[trigger] follow(
        next,
        four,
    )).0.idle() by {
        lemma_tick_with_four_answers(player, four);
    }
    let four = lemma_four_answers_are_enough(next, answers);
    lemma_tick_with_four_answers(player, four);
    assert(gathered(next, answers, Answers { state: four[0].state, ..four[1] }));
}

/// Carrying out a task leaves less to do.
pub proof fn law_every_step_leaves_less_to_do(player: PlayerView, answers: Answers)
    requires
        player.wf(),
        !player.idle(),
    ensures
        player.performed(answers).effort() < player.effort(),
{
    assert(player.agenda[0].asks() ==> player.agenda.len() == 1);
    assert(player.agenda.len() > 1 ==> player.agenda.drop_first().last() == player.agenda.last());
}

/// The first task of `player` takes the backend from `before` to `after`, and is answered by
/// `answers`.
pub open spec fn carried_out<B: AudioBackend>(
    player: PlayerView,
    answers: Answers,
    before: B,
    after: B,
) -> bool {
    &&& !player.idle()
    &&& match player.agenda[0].call() {
        Some(call) => B::responds(before, call, answers.to(call), after),
        None => after == before,
    }
}

/// The tasks of `player`, and those that follow from them, are carried out in turn, one for
/// each of `answers`: these are what the backend answers, and `backends` the states that it
/// goes through.
pub open spec fn all_carried_out<B: AudioBackend>(
    player: PlayerView,
    answers: Seq<Answers>,
    backends: Seq<B>,
) -> bool {
    &&& backends.len() == answers.len() + 1
    &&& forall|i: int|
        0 <= i < answers.len() ==> carried_out(
            follow(player, #[trigger] answers.take(i)).0,
            answers[i],
            backends[i],
            backends[i + 1],
        )
}

} // verus!
