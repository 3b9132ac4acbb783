//! What commands, ticks and answers put on the agenda, and what carrying out each task does,
//! spelled out one step at a time for every player.

use crate::backend::{AudioBackend, BackendAnswer, BackendCall, BackendState};
use crate::command::PlayerCommand;
use crate::listener::{all_heard, Callbacks, Listener};
use crate::model::{Answers, LoopState, PlayerView, TaskView};
use crate::queue::QueueView;
use crate::seek::{duration_nanos, SeekPosition};
use crate::state::{PlaybackState, StateView};
use crate::track::{lemma_first_with_id, Track, TrackId, TrackPath};
use crate::transcript::{
    after_command, after_tick, all_carried_out, event_of, follow, gathered, play_head, run,
    seen_of_command, seen_of_tick, Event,
};
use crate::volume::Volume;
use vstd::prelude::*;

verus! {

/// A player starts with an empty queue, nothing loaded and nothing to do.
pub proof fn law_the_start()
    ensures
        PlayerView::fresh().queue.tracks.len() == 0,
        PlayerView::fresh().queue.cursor == 0,
        PlayerView::fresh().mode == LoopState::Empty,
        PlayerView::fresh().agenda.len() == 0,
{
}

/// A sound player has its cursor on a track, or at the start of an empty list, and takes a
/// source for loaded only while there is a current track. At rest, no more is asked of it.
pub proof fn law_sound_players(player: PlayerView)
    ensures
        player.idle() <==> player.agenda.len() == 0,
        player.wf() ==> {
            &&& 0 <= player.queue.cursor
            &&& player.queue.cursor < player.queue.tracks.len() || (player.queue.tracks.len() == 0
                && player.queue.cursor == 0)
            &&& player.mode != LoopState::Empty ==> player.queue.tracks.len() > 0
        },
        player.agenda.len() == 0 && 0 <= player.queue.cursor < player.queue.tracks.len()
            ==> player.wf(),
        player.agenda.len() == 0 && player.queue.tracks.len() == 0 && player.queue.cursor == 0
            && player.mode == LoopState::Empty ==> player.wf(),
{
}

/// `Play` plans to report the list of one track and to load that track from its path.
pub proof fn law_play_plans(player: PlayerView, track: Track)
    ensures
        ({
            let next = player.commanded(PlayerCommand::Play(Box::new(track)));
            &&& next.queue.tracks == seq![track]
            &&& next.queue.cursor == 0
            &&& next.mode == player.mode
            &&& next.agenda == player.agenda + seq![
                TaskView::TellQueue(seq![track]),
                TaskView::Load { track: track.id, path: track.path.text@ },
            ]
        }),
{
    let next = player.commanded(PlayerCommand::Play(Box::new(track)));
    assert(next.agenda =~= player.agenda + seq![
        TaskView::TellQueue(seq![track]),
        TaskView::Load { track: track.id, path: track.path.text@ },
    ]);
}

/// `PlayQueue` plans to report the list and to load the track at `start`, or the last track if
/// `start` is past the end.
pub proof fn law_play_queue_plans(player: PlayerView, tracks: Vec<Track>, start: usize, k: int)
    requires
        0 <= k < tracks@.len(),
        k == start || (start >= tracks@.len() && k == tracks@.len() - 1),
    ensures
        ({
            let next = player.commanded(PlayerCommand::PlayQueue { tracks, start });
            &&& next.queue.tracks == tracks@
            &&& next.queue.cursor == k
            &&& next.mode == player.mode
            &&& next.agenda == player.agenda + seq![
                TaskView::TellQueue(tracks@),
                TaskView::Load { track: tracks@[k].id, path: tracks@[k].path.text@ },
            ]
        }),
{
    let next = player.commanded(PlayerCommand::PlayQueue { tracks, start });
    assert(next.agenda =~= player.agenda + seq![
        TaskView::TellQueue(tracks@),
        TaskView::Load { track: tracks@[k].id, path: tracks@[k].path.text@ },
    ]);
}

/// `RestorePaused` plans to report the list and to hold the track at `start`, or the last track
/// if `start` is past the end, paused at `position`.
pub proof fn law_restore_paused_plans(
    player: PlayerView,
    tracks: Vec<Track>,
    start: usize,
    k: int,
    position: SeekPosition,
)
    requires
        0 <= k < tracks@.len(),
        k == start || (start >= tracks@.len() && k == tracks@.len() - 1),
    ensures
        ({
            let next = player.commanded(PlayerCommand::RestorePaused { tracks, start, position });
            &&& next.queue.tracks == tracks@
            &&& next.queue.cursor == k
            &&& next.mode == player.mode
            &&& next.agenda == player.agenda + seq![
                TaskView::TellQueue(tracks@),
                TaskView::LoadPaused {
                    track: tracks@[k].id,
                    path: tracks@[k].path.text@,
                    position: position@,
                },
            ]
        }),
{
    let next = player.commanded(PlayerCommand::RestorePaused { tracks, start, position });
    assert(next.agenda =~= player.agenda + seq![
        TaskView::TellQueue(tracks@),
        TaskView::LoadPaused {
            track: tracks@[k].id,
            path: tracks@[k].path.text@,
            position: position@,
        },
    ]);
}

/// An empty list plans a stop of what is loaded; with nothing loaded, only its own report.
pub proof fn law_an_empty_list_plans(player: PlayerView, command: PlayerCommand)
    requires
        match command {
            PlayerCommand::PlayQueue { tracks, .. } => tracks@.len() == 0,
            PlayerCommand::RestorePaused { tracks, .. } => tracks@.len() == 0,
            _ => false,
        },
    ensures
        ({
            let next = player.commanded(command);
            &&& next.queue.tracks.len() == 0
            &&& next.queue.cursor == 0
            &&& next.mode == LoopState::Empty
            &&& next.agenda == player.agenda + (if player.mode == LoopState::Empty {
                seq![TaskView::TellQueue(Seq::empty())]
            } else {
                seq![
                    TaskView::Stop,
                    TaskView::TellQueue(Seq::empty()),
                    TaskView::TellState(StateView::Stopped),
                ]
            })
        }),
{
    match command {
        PlayerCommand::PlayQueue { tracks, .. } => assert(tracks@ =~= Seq::empty()),
        PlayerCommand::RestorePaused { tracks, .. } => assert(tracks@ =~= Seq::empty()),
        _ => {},
    }
    assert(player.commanded(command).agenda =~= player.agenda + (if player.mode
        == LoopState::Empty {
        seq![TaskView::TellQueue(Seq::empty())]
    } else {
        seq![
            TaskView::Stop,
            TaskView::TellQueue(Seq::empty()),
            TaskView::TellState(StateView::Stopped),
        ]
    }));
}

/// `Enqueue` plans to report the longer list. On an empty queue it also plans to load the first
/// of the new tracks.
pub proof fn law_enqueue_plans(player: PlayerView, tracks: Vec<Track>)
    requires
        player.queue.tracks.len() == 0 ==> player.queue.cursor == 0,
    ensures
        ({
            let next = player.commanded(PlayerCommand::Enqueue(tracks));
            let listed = TaskView::TellQueue(player.queue.tracks + tracks@);
            &&& next.queue.tracks == player.queue.tracks + tracks@
            &&& next.queue.cursor == player.queue.cursor
            &&& if player.queue.tracks.len() > 0 {
                next.mode == player.mode && next.agenda == player.agenda + seq![listed]
            } else if tracks@.len() > 0 {
                next.mode == player.mode && next.agenda == player.agenda + seq![
                    listed,
                    TaskView::Load { track: tracks@[0].id, path: tracks@[0].path.text@ },
                ]
            } else {
                next.mode == LoopState::Empty && next.agenda == player.agenda + seq![listed]
            }
        }),
{
    let next = player.commanded(PlayerCommand::Enqueue(tracks));
    let listed = TaskView::TellQueue(player.queue.tracks + tracks@);
    if player.queue.tracks.len() == 0 && tracks@.len() > 0 {
        assert((player.queue.tracks + tracks@)[0] == tracks@[0]);
        assert(next.agenda =~= player.agenda + seq![
            listed,
            TaskView::Load { track: tracks@[0].id, path: tracks@[0].path.text@ },
        ]);
    } else {
        assert(next.agenda =~= player.agenda + seq![listed]);
    }
}

/// `SetQueue` plans to report the list, with the cursor on the first track that has the id of
/// the current one, or a stop if there is none. On an empty queue the cursor is on the first
/// track.
pub proof fn law_set_queue_plans(player: PlayerView, tracks: Vec<Track>, k: int)
    ensures
        ({
            let next = player.commanded(PlayerCommand::SetQueue(tracks));
            let kept = next.queue.tracks == tracks@ && next.mode == player.mode && next.agenda
                == player.agenda + seq![TaskView::TellQueue(tracks@)];
            let c = player.queue.cursor;
            &&& !(0 <= c < player.queue.tracks.len()) ==> kept && next.queue.cursor == 0
            &&& 0 <= c < player.queue.tracks.len() && 0 <= k < tracks@.len() && tracks@[k].id
                == player.queue.tracks[c].id && (forall|j: int|
                0 <= j < k ==> (#[trigger] tracks@[j]).id != player.queue.tracks[c].id) ==> kept
                && next.queue.cursor == k
            &&& 0 <= c < player.queue.tracks.len() && (forall|j: int|
                0 <= j < tracks@.len() ==> (#[trigger] tracks@[j]).id != player.queue.tracks[c].id)
                ==> {
                &&& next.queue.tracks.len() == 0
                &&& next.queue.cursor == 0
                &&& next.mode == LoopState::Empty
                &&& next.agenda == player.agenda + seq![
                    TaskView::Stop,
                    TaskView::TellQueue(Seq::empty()),
                    TaskView::TellState(StateView::Stopped),
                ]
            }
        }),
{
    let next = player.commanded(PlayerCommand::SetQueue(tracks));
    lemma_first_with_id(tracks@, player.queue.tracks[player.queue.cursor].id);
    if next.agenda.len() == player.agenda.len() + 1 {
        assert(next.agenda =~= player.agenda + seq![TaskView::TellQueue(tracks@)]);
    } else {
        assert(next.agenda =~= player.agenda + seq![
            TaskView::Stop,
            TaskView::TellQueue(Seq::empty()),
            TaskView::TellState(StateView::Stopped),
        ]);
    }
}

/// `Next` and `Previous` plan to load the neighbouring track, whatever is loaded. Without a
/// neighbour they plan nothing.
pub proof fn law_moves_plan(player: PlayerView)
    requires
        0 <= player.queue.cursor,
        player.queue.cursor < player.queue.tracks.len() || player.queue.cursor == 0,
    ensures
        ({
            let tracks = player.queue.tracks;
            let c = player.queue.cursor;
            let next = player.commanded(PlayerCommand::Next);
            let previous = player.commanded(PlayerCommand::Previous);
            &&& c + 1 < tracks.len() ==> {
                &&& next.queue.tracks == tracks
                &&& next.queue.cursor == c + 1
                &&& next.mode == player.mode
                &&& next.agenda == player.agenda + seq![
                    TaskView::Load { track: tracks[c + 1].id, path: tracks[c + 1].path.text@ },
                ]
            }
            &&& c + 1 >= tracks.len() ==> next == player
            &&& c > 0 ==> {
                &&& previous.queue.tracks == tracks
                &&& previous.queue.cursor == c - 1
                &&& previous.mode == player.mode
                &&& previous.agenda == player.agenda + seq![
                    TaskView::Load { track: tracks[c - 1].id, path: tracks[c - 1].path.text@ },
                ]
            }
            &&& c == 0 ==> previous == player
        }),
{
    let tracks = player.queue.tracks;
    let c = player.queue.cursor;
    if c + 1 < tracks.len() {
        assert(player.commanded(PlayerCommand::Next).agenda =~= player.agenda + seq![
            TaskView::Load { track: tracks[c + 1].id, path: tracks[c + 1].path.text@ },
        ]);
    }
    if c > 0 {
        assert(player.commanded(PlayerCommand::Previous).agenda =~= player.agenda + seq![
            TaskView::Load { track: tracks[c - 1].id, path: tracks[c - 1].path.text@ },
        ]);
    }
}

/// `Pause` plans to pause the backend and, with a source loaded, to report the current track as
/// paused. `Resume` with a source loaded plans to resume the backend and to see whether there
/// was anything to resume; without one it plans nothing.
pub proof fn law_pause_and_resume_plan(player: PlayerView)
    requires
        player.mode != LoopState::Empty ==> 0 <= player.queue.cursor < player.queue.tracks.len(),
    ensures
        ({
            let track = player.queue.tracks[player.queue.cursor].id;
            let paused = player.commanded(PlayerCommand::Pause);
            let resumed = player.commanded(PlayerCommand::Resume);
            &&& paused.queue == player.queue
            &&& resumed.queue == player.queue
            &&& player.mode == LoopState::Empty ==> {
                &&& paused.mode == LoopState::Empty
                &&& paused.agenda == player.agenda + seq![TaskView::Pause]
                &&& resumed == player
            }
            &&& player.mode != LoopState::Empty ==> {
                &&& paused.mode == LoopState::Paused
                &&& paused.agenda == player.agenda + seq![
                    TaskView::Pause,
                    TaskView::TellPosition { track, paused: true },
                ]
                &&& resumed.mode == LoopState::Playing
                &&& resumed.agenda == player.agenda + seq![
                    TaskView::Resume,
                    TaskView::ConfirmResume { track },
                ]
            }
        }),
{
    let track = player.queue.tracks[player.queue.cursor].id;
    let paused = player.commanded(PlayerCommand::Pause);
    let resumed = player.commanded(PlayerCommand::Resume);
    if player.mode == LoopState::Empty {
        assert(paused.agenda =~= player.agenda + seq![TaskView::Pause]);
    } else {
        assert(paused.agenda =~= player.agenda + seq![
            TaskView::Pause,
            TaskView::TellPosition { track, paused: true },
        ]);
        assert(resumed.agenda =~= player.agenda + seq![
            TaskView::Resume,
            TaskView::ConfirmResume { track },
        ]);
    }
}

/// `Stop` plans to stop the backend and to report the empty list and the stop.
pub proof fn law_stop_plans(player: PlayerView)
    ensures
        ({
            let next = player.commanded(PlayerCommand::Stop);
            &&& next.queue.tracks.len() == 0
            &&& next.queue.cursor == 0
            &&& next.mode == LoopState::Empty
            &&& next.agenda == player.agenda + seq![
                TaskView::Stop,
                TaskView::TellQueue(Seq::empty()),
                TaskView::TellState(StateView::Stopped),
            ]
        }),
{
    assert(player.commanded(PlayerCommand::Stop).agenda =~= player.agenda + seq![
        TaskView::Stop,
        TaskView::TellQueue(Seq::empty()),
        TaskView::TellState(StateView::Stopped),
    ]);
}

/// `Seek` plans to move the play head and, with a source loaded, to report the position; the
/// volume is planned to be set in every mode. Neither changes the player otherwise.
pub proof fn law_seek_and_volume_plan(player: PlayerView, position: SeekPosition, volume: Volume)
    requires
        player.mode != LoopState::Empty ==> 0 <= player.queue.cursor < player.queue.tracks.len(),
    ensures
        ({
            let track = player.queue.tracks[player.queue.cursor].id;
            let sought = player.commanded(PlayerCommand::Seek(position));
            let loud = player.commanded(PlayerCommand::SetVolume(volume));
            &&& sought.queue == player.queue && sought.mode == player.mode
            &&& sought.agenda == player.agenda + match player.mode {
                LoopState::Empty => seq![TaskView::Seek(position@)],
                LoopState::Playing => seq![
                    TaskView::Seek(position@),
                    TaskView::TellState(StateView::Playing { track, position: position@ }),
                ],
                LoopState::Paused => seq![
                    TaskView::Seek(position@),
                    TaskView::TellState(StateView::Paused { track, position: position@ }),
                ],
            }
            &&& loud.queue == player.queue && loud.mode == player.mode
            &&& loud.agenda == player.agenda + seq![TaskView::SetVolume(volume)]
        }),
{
    let track = player.queue.tracks[player.queue.cursor].id;
    let sought = player.commanded(PlayerCommand::Seek(position));
    assert(sought.agenda =~= player.agenda + match player.mode {
        LoopState::Empty => seq![TaskView::Seek(position@)],
        LoopState::Playing => seq![
            TaskView::Seek(position@),
            TaskView::TellState(StateView::Playing { track, position: position@ }),
        ],
        LoopState::Paused => seq![
            TaskView::Seek(position@),
            TaskView::TellState(StateView::Paused { track, position: position@ }),
        ],
    });
    assert(player.commanded(PlayerCommand::SetVolume(volume)).agenda =~= player.agenda + seq![
        TaskView::SetVolume(volume),
    ]);
}

/// A tick plans to ask what the backend is doing while there is a current track, and otherwise
/// takes nothing for loaded.
pub proof fn law_ticks_plan(player: PlayerView)
    ensures
        player.ticked().queue == player.queue,
        0 <= player.queue.cursor < player.queue.tracks.len() ==> player.ticked().mode
            == player.mode && player.ticked().agenda == player.agenda + seq![TaskView::Poll],
        !(0 <= player.queue.cursor < player.queue.tracks.len()) ==> player.ticked().mode
            == LoopState::Empty && player.ticked().agenda == player.agenda,
{
    assert(player.agenda.push(TaskView::Poll) =~= player.agenda + seq![TaskView::Poll]);
}

/// Each task makes the backend call that it is named for, with what it carries; a report makes
/// none.
pub proof fn law_tasks_call(
    track: TrackId,
    path: Seq<char>,
    position: nat,
    volume: Volume,
    paused: bool,
    state: StateView,
    tracks: Seq<Track>,
)
    ensures
        TaskView::TellState(state).call() is None,
        TaskView::TellQueue(tracks).call() is None,
        (TaskView::Load { track, path }).call() == Some(BackendCall::Play(path)),
        (TaskView::LoadPaused { track, path, position }).call() == Some(
            BackendCall::PlayPaused(path, position),
        ),
        TaskView::Seek(position).call() == Some(BackendCall::Seek(position)),
        TaskView::Pause.call() == Some(BackendCall::Pause),
        TaskView::Resume.call() == Some(BackendCall::Resume),
        TaskView::Stop.call() == Some(BackendCall::Stop),
        TaskView::SetVolume(volume).call() == Some(BackendCall::SetVolume(volume)),
        TaskView::Poll.call() == Some(BackendCall::State),
        (TaskView::ConfirmResume { track }).call() == Some(BackendCall::State),
        (TaskView::TellPosition { track, paused }).call() == Some(BackendCall::Position),
{
}

/// What is seen of a task is its report, or the call that it makes.
pub proof fn law_tasks_are_seen(task: TaskView)
    ensures
        task matches TaskView::TellState(state) ==> event_of(task) == Event::State(state),
        task matches TaskView::TellQueue(tracks) ==> event_of(task) == Event::Queue(tracks),
        !(task is TellState) && !(task is TellQueue) ==> task.call() is Some && event_of(task)
            == Event::Call(task.call().unwrap()),
{
}

/// The answer to a call is what the backend hands back from it.
pub proof fn law_answers(answers: Answers, call: BackendCall)
    ensures
        call is Play || call is PlayPaused ==> answers.to(call) == BackendAnswer::Loaded(
            answers.loaded,
        ),
        call is State ==> answers.to(call) == BackendAnswer::State(answers.state),
        call is Position ==> answers.to(call) == BackendAnswer::Position(answers.position),
        call is Seek || call is Pause || call is Resume || call is Stop || call is SetVolume
            ==> answers.to(call) == BackendAnswer::Done,
{
}

/// A report or a plain call takes its task off the agenda and changes nothing else.
pub proof fn law_plain_tasks(player: PlayerView, answers: Answers)
    requires
        player.agenda.len() > 0,
        ({
            let task = player.agenda[0];
            task is TellState || task is TellQueue || task is Seek || task is Pause
                || task is Resume || task is Stop || task is SetVolume
        }),
    ensures
        player.performed(answers).queue == player.queue,
        player.performed(answers).mode == player.mode,
        player.performed(answers).agenda == player.agenda.skip(1),
{
}

/// A track that the backend took is playing from its start, and is to be reported so; one that
/// it refused is to be reported as failed, and nothing is loaded.
pub proof fn law_loading(player: PlayerView, track: TrackId, path: Seq<char>, answers: Answers)
    requires
        player.agenda.len() > 0,
        player.agenda[0] == (TaskView::Load { track, path }),
    ensures
        player.performed(answers).queue == player.queue,
        player.performed(answers).mode == (if answers.loaded is Ok {
            LoopState::Playing
        } else {
            LoopState::Empty
        }),
        player.performed(answers).agenda == player.agenda.skip(1) + seq![
            TaskView::TellState(
                match answers.loaded {
                    Ok(_) => StateView::Playing { track, position: 0 },
                    Err(e) => StateView::Failed { track, error: e.message_view() },
                },
            ),
        ],
{
    assert(player.performed(answers).agenda =~= player.agenda.skip(1) + seq![
        player.performed(answers).agenda.last(),
    ]);
}

/// A track that the backend holds is paused at the position, and is to be reported so; one that
/// it refused is to be reported as failed, and nothing is loaded.
pub proof fn law_loading_paused(
    player: PlayerView,
    track: TrackId,
    path: Seq<char>,
    position: nat,
    answers: Answers,
)
    requires
        player.agenda.len() > 0,
        player.agenda[0] == (TaskView::LoadPaused { track, path, position }),
    ensures
        player.performed(answers).queue == player.queue,
        player.performed(answers).mode == (if answers.loaded is Ok {
            LoopState::Paused
        } else {
            LoopState::Empty
        }),
        player.performed(answers).agenda == player.agenda.skip(1) + seq![
            TaskView::TellState(
                match answers.loaded {
                    Ok(_) => StateView::Paused { track, position },
                    Err(e) => StateView::Failed { track, error: e.message_view() },
                },
            ),
        ],
{
    assert(player.performed(answers).agenda =~= player.agenda.skip(1) + seq![
        player.performed(answers).agenda.last(),
    ]);
}

/// The answers of the backend have the same consequences when they are handed to the player
/// one by one as when a task asks for them.
pub proof fn law_answers_have_their_consequences(
    player: PlayerView,
    track: TrackId,
    path: Seq<char>,
    position: nat,
    paused: bool,
    answers: Answers,
)
    requires
        player.agenda.len() == 0,
    ensures
        ({
            let asking = |task: TaskView| PlayerView { agenda: seq![task], ..player };
            &&& player.loaded(track, answers.loaded) == asking(
                TaskView::Load { track, path },
            ).performed(answers)
            &&& player.loaded_paused(track, position, answers.loaded) == asking(
                TaskView::LoadPaused { track, path, position },
            ).performed(answers)
            &&& player.polled(answers.state) == asking(TaskView::Poll).performed(answers)
            &&& player.resumed(answers.state) == asking(
                TaskView::ConfirmResume { track },
            ).performed(answers)
            &&& player.located(track, paused, answers.position) == asking(
                TaskView::TellPosition { track, paused },
            ).performed(answers)
        }),
{
    assert forall|task: TaskView|
        (#[trigger] PlayerView { agenda: seq![task], ..player }.shifted()) == player by {
        assert(PlayerView { agenda: seq![task], ..player }.shifted() =~= player);
    }
}

/// A backend that plays is to be asked for its play head; one that is paused is left alone; and
/// one that is idle is to be given the track that follows in the list, or to be stopped after
/// the last.
pub proof fn law_polling(player: PlayerView, answers: Answers)
    requires
        player.agenda.len() > 0,
        player.agenda[0] is Poll,
        0 <= player.queue.cursor < player.queue.tracks.len(),
    ensures
        ({
            let tracks = player.queue.tracks;
            let c = player.queue.cursor;
            let next = player.performed(answers);
            let rest = player.agenda.skip(1);
            match answers.state {
                BackendState::Playing => {
                    &&& next.queue == player.queue
                    &&& next.mode == LoopState::Playing
                    &&& next.agenda == rest + seq![
                        TaskView::TellPosition { track: tracks[c].id, paused: false },
                    ]
                },
                BackendState::Paused => {
                    &&& next.queue == player.queue
                    &&& next.mode == LoopState::Paused
                    &&& next.agenda == rest
                },
                BackendState::Idle => if c + 1 < tracks.len() {
                    &&& next.queue.tracks == tracks
                    &&& next.queue.cursor == c + 1
                    &&& next.mode == player.mode
                    &&& next.agenda == rest + seq![
                        TaskView::Load { track: tracks[c + 1].id, path: tracks[c + 1].path.text@ },
                    ]
                } else {
                    &&& next.queue.tracks.len() == 0
                    &&& next.queue.cursor == 0
                    &&& next.mode == LoopState::Empty
                    &&& next.agenda == rest + seq![
                        TaskView::Stop,
                        TaskView::TellQueue(Seq::empty()),
                        TaskView::TellState(StateView::Stopped),
                    ]
                },
            }
        }),
{
    let tracks = player.queue.tracks;
    let c = player.queue.cursor;
    let next = player.performed(answers);
    let rest = player.agenda.skip(1);
    match answers.state {
        BackendState::Playing => assert(next.agenda =~= rest + seq![
            TaskView::TellPosition { track: tracks[c].id, paused: false },
        ]),
        BackendState::Paused => assert(next.agenda =~= rest),
        BackendState::Idle => if c + 1 < tracks.len() {
            assert(next.agenda =~= rest + seq![
                TaskView::Load { track: tracks[c + 1].id, path: tracks[c + 1].path.text@ },
            ]);
        } else {
            assert(next.agenda =~= rest + seq![
                TaskView::Stop,
                TaskView::TellQueue(Seq::empty()),
                TaskView::TellState(StateView::Stopped),
            ]);
        },
    }
}

/// After a resume an idle backend leaves nothing more to do; any other is to be asked for its
/// play head.
pub proof fn law_confirming_a_resume(player: PlayerView, answers: Answers)
    requires
        player.agenda.len() > 0,
        player.agenda[0] is ConfirmResume,
        0 <= player.queue.cursor < player.queue.tracks.len(),
    ensures
        player.performed(answers).queue == player.queue,
        player.performed(answers).mode == player.mode,
        player.performed(answers).agenda == player.agenda.skip(1) + (if answers.state
            == BackendState::Idle {
            seq![]
        } else {
            seq![
                TaskView::TellPosition {
                    track: player.queue.tracks[player.queue.cursor].id,
                    paused: false,
                },
            ]
        }),
{
    assert(player.performed(answers).agenda =~= player.agenda.skip(1) + (if answers.state
        == BackendState::Idle {
        seq![]
    } else {
        seq![
            TaskView::TellPosition {
                track: player.queue.tracks[player.queue.cursor].id,
                paused: false,
            },
        ]
    }));
}

/// The play head that the backend names is to be reported for the track that was asked about,
/// to the millisecond.
pub proof fn law_locating(player: PlayerView, track: TrackId, paused: bool, answers: Answers)
    requires
        player.agenda.len() > 0,
        player.agenda[0] == (TaskView::TellPosition { track, paused }),
    ensures
        ({
            let next = player.performed(answers);
            let position = play_head(answers);
            let told = TaskView::TellState(
                if paused {
                    StateView::Paused { track, position }
                } else {
                    StateView::Playing { track, position }
                },
            );
            &&& next.queue == player.queue
            &&& next.mode == player.mode
            &&& next.agenda == player.agenda.skip(1) + seq![told]
            &&& position % 1_000_000 == 0
            &&& duration_nanos(answers.position) < 18_446_744_073_709_551_616_000_000 ==> position
                <= duration_nanos(answers.position) < position + 1_000_000
        }),
{
    assert(player.performed(answers).agenda =~= player.agenda.skip(1) + seq![
        player.performed(answers).agenda.last(),
    ]);
    crate::effects::law_the_play_head_is_reported_to_the_millisecond(answers);
}

/// Running a player carries out its first task, and goes on from there; a player at rest, or
/// one that is given no step, stays as it is.
pub proof fn law_running(player: PlayerView, answers: Answers, steps: nat)
    ensures
        player.agenda.len() == 0 || steps == 0 ==> run(player, answers, steps).0 == player && run(
            player,
            answers,
            steps,
        ).1.len() == 0,
        player.agenda.len() > 0 && steps > 0 ==> {
            let rest = run(player.performed(answers), answers, (steps - 1) as nat);
            &&& run(player, answers, steps).0 == rest.0
            &&& run(player, answers, steps).1 == seq![event_of(player.agenda[0])] + rest.1
        },
{
}

/// Following a player carries out one task for each answer, the first task with the first
/// answer; a player at rest, or one that gets no answer, stays as it is.
pub proof fn law_following(player: PlayerView, answers: Seq<Answers>)
    ensures
        player.agenda.len() == 0 || answers.len() == 0 ==> follow(player, answers).0 == player
            && follow(player, answers).1.len() == 0,
        player.agenda.len() > 0 && answers.len() > 0 ==> {
            let rest = follow(player.performed(answers[0]), answers.skip(1));
            &&& follow(player, answers).0 == rest.0
            &&& follow(player, answers).1 == seq![event_of(player.agenda[0])] + rest.1
        },
{
    if answers.len() > 0 {
        assert(answers.drop_first() =~= answers.skip(1));
    }
}

/// A whole command, or a whole tick, is what its agenda comes to when it is run to the end.
pub proof fn law_whole_commands_are_their_steps(
    player: PlayerView,
    command: PlayerCommand,
    answers: Answers,
)
    ensures
        (after_command(player, command, answers), seen_of_command(player, command, answers)) == run(
            player.commanded(command),
            answers,
            4,
        ),
        (after_tick(player, answers), seen_of_tick(player, answers)) == run(
            player.ticked(),
            answers,
            4,
        ),
{
}

/// One answer to each question stands for the answers of a run: it agrees with the first of
/// them, and with the rest of them for the rest of the run.
pub proof fn law_gathering(player: PlayerView, answers: Seq<Answers>, all: Answers)
    requires
        gathered(player, answers, all),
        player.agenda.len() > 0,
        answers.len() > 0,
    ensures
        player.agenda[0].call() matches Some(call) ==> answers[0].to(call) == all.to(call),
        gathered(player.performed(all), answers.skip(1), all),
{
    assert(answers.drop_first() =~= answers.skip(1));
}

/// Where tasks are carried out in turn, the backend gets exactly the calls that the tasks make:
/// each brings it from one state to the next and gives the answer that the player goes by, and
/// a report leaves it alone.
pub proof fn law_the_backend_gets_the_calls<B: AudioBackend>(
    player: PlayerView,
    answers: Seq<Answers>,
    backends: Seq<B>,
    i: int,
)
    requires
        all_carried_out(player, answers, backends),
        0 <= i < answers.len(),
    ensures
        backends.len() == answers.len() + 1,
        ({
            let reached = follow(player, answers.take(i)).0;
            &&& reached.agenda.len() > 0
            &&& match reached.agenda[0].call() {
                Some(call) => B::responds(
                    backends[i],
                    call,
                    answers[i].to(call),
                    backends[i + 1],
                ),
                None => backends[i + 1] == backends[i],
            }
        }),
{
    assert(answers.take(i) == answers.take(i));
}

/// A listener is told of exactly the reports among the events: each brings it from one state to
/// the next, and a call of the backend leaves it alone.
pub proof fn law_the_listener_gets_the_reports<L: Listener>(
    events: Seq<Event>,
    listeners: Seq<L>,
    i: int,
)
    requires
        all_heard(events, listeners),
        0 <= i < events.len(),
    ensures
        listeners.len() == events.len() + 1,
        events[i] matches Event::State(state) ==> L::hears(
            listeners[i],
            Event::State(state),
            listeners[i + 1],
        ),
        events[i] matches Event::Queue(tracks) ==> L::hears(
            listeners[i],
            Event::Queue(tracks),
            listeners[i + 1],
        ),
        events[i] is Call ==> listeners[i + 1] == listeners[i],
{
}

/// What two callbacks hear of a report is a call of the one that it is for, with the report.
pub proof fn law_callbacks_are_called<F: Fn(PlaybackState), G: Fn(Vec<Track>)>(
    before: Callbacks<F, G>,
    event: Event,
    after: Callbacks<F, G>,
)
    requires
        Callbacks::<F, G>::hears(before, event, after),
    ensures
        after == before,
        event matches Event::State(told) ==> exists|state: PlaybackState| #[trigger]
            state@ == told && before.state_callback().ensures((state,), ()),
        event matches Event::Queue(told) ==> exists|tracks: Vec<Track>| #[trigger]
            tracks@ == told && before.queue_callback().ensures((tracks,), ()),
{
}

/// A queue in terms of its list and its cursor.
pub proof fn law_queues(queue: QueueView, tracks: Seq<Track>, start: int)
    requires
        start >= 0,
    ensures
        queue.wf() <==> 0 <= queue.cursor && (queue.cursor < queue.tracks.len() || (
        queue.tracks.len() == 0 && queue.cursor == 0)),
        0 <= queue.cursor < queue.tracks.len() ==> queue.current() == Some(
            queue.tracks[queue.cursor],
        ),
        !(0 <= queue.cursor < queue.tracks.len()) ==> queue.current() is None,
        queue.has_next() <==> queue.cursor + 1 < queue.tracks.len(),
        queue.has_previous() <==> queue.cursor > 0,
        queue.advanced().tracks == queue.tracks,
        queue.advanced().cursor == queue.cursor + (if queue.cursor + 1 < queue.tracks.len() {
            1int
        } else {
            0
        }),
        queue.rewound().tracks == queue.tracks,
        queue.rewound().cursor == queue.cursor - (if queue.cursor > 0 {
            1int
        } else {
            0
        }),
        queue.appended(tracks).tracks == queue.tracks + tracks,
        queue.appended(tracks).cursor == queue.cursor,
        QueueView::empty().tracks.len() == 0,
        QueueView::empty().cursor == 0,
        QueueView::positioned(tracks, start).tracks == tracks,
        start < tracks.len() ==> QueueView::positioned(tracks, start).cursor == start,
        0 < tracks.len() <= start ==> QueueView::positioned(tracks, start).cursor == tracks.len()
            - 1,
        tracks.len() == 0 ==> QueueView::positioned(tracks, start).cursor == 0,
{
}

/// A reported state is seen as what it is: the same kind, about the same track, at the same
/// position or with the same words.
pub proof fn law_states_are_seen_as_they_are(state: PlaybackState)
    ensures
        state is Stopped <==> state@ is Stopped,
        state is Playing <==> state@ is Playing,
        state is Paused <==> state@ is Paused,
        state is Failed <==> state@ is Failed,
        state matches PlaybackState::Playing { track, position } ==> state@ == (
        StateView::Playing { track, position: position@ }),
        state matches PlaybackState::Paused { track, position } ==> state@ == (
        StateView::Paused { track, position: position@ }),
        state matches PlaybackState::Failed { track, error } ==> state@ == (StateView::Failed {
            track,
            error: error@,
        }),
        state@ is Stopped <==> state@.current_track() is None,
{
}

/// A path is seen as its text.
pub proof fn law_paths_are_seen_as_they_are(path: TrackPath)
    ensures
        path@ == path.text@,
{
}

} // verus!
