//! What each command and each tick does to the world and to the player, spelled out call by
//! call and report by report, for every player at rest and whatever the backend answers.
//!
//! Each law names the track by its place in the list, the calls with what is handed to the
//! backend, and the reports with what they say.

use crate::backend::{AudioError, BackendCall, BackendState};
use crate::command::PlayerCommand;
use crate::model::{Answers, LoopState, PlayerView};
use crate::seek::{
    duration_nanos, law_reported_positions_are_exact_to_the_millisecond, SeekPosition,
};
use crate::state::StateView;
use crate::track::{lemma_first_with_id, Track};
use crate::transcript::{
    after_command, after_tick, law_transcript_of_commands, law_transcript_of_ticks, play_head,
    seen_of_command, seen_of_tick, Event,
};
use crate::volume::Volume;
use vstd::prelude::*;

verus! {

/// `Play` makes the track the whole queue and the current track. The list is reported, the
/// backend is asked to play the path of that track, and the same track is reported: as playing
/// from its start if the backend took it, as failed with the backend's words if not.
pub proof fn law_play(player: PlayerView, track: Track, answers: Answers)
    requires
        player.wf(),
        player.idle(),
    ensures
        ({
            let command = PlayerCommand::Play(Box::new(track));
            let after = after_command(player, command, answers);
            &&& seen_of_command(player, command, answers) == seq![
                Event::Queue(seq![track]),
                Event::Call(BackendCall::Play(track.path.text@)),
                Event::State(
                    match answers.loaded {
                        Ok(_) => StateView::Playing { track: track.id, position: 0 },
                        Err(e) => StateView::Failed { track: track.id, error: e.message_view() },
                    },
                ),
            ]
            &&& after.queue.tracks == seq![track]
            &&& after.queue.cursor == 0
            &&& after.mode == (if answers.loaded is Ok {
                LoopState::Playing
            } else {
                LoopState::Empty
            })
            &&& after.agenda.len() == 0
        }),
{
    let command = PlayerCommand::Play(Box::new(track));
    law_transcript_of_commands(player, command, answers);
    assert(seen_of_command(player, command, answers) =~= seq![
        Event::Queue(seq![track]),
        Event::Call(BackendCall::Play(track.path.text@)),
        seen_of_command(player, command, answers)[2],
    ]);
}

/// `PlayQueue` makes `tracks` the queue and puts the cursor at `start`, or on the last track if
/// `start` is past the end. The list is reported, the backend is asked to play the path of the
/// track under the cursor, and that track is reported as playing or failed.
pub proof fn law_play_queue(
    player: PlayerView,
    tracks: Vec<Track>,
    start: usize,
    k: int,
    answers: Answers,
)
    requires
        player.wf(),
        player.idle(),
        0 <= k < tracks@.len(),
        k == start || (start >= tracks@.len() && k == tracks@.len() - 1),
    ensures
        ({
            let command = PlayerCommand::PlayQueue { tracks, start };
            let after = after_command(player, command, answers);
            &&& seen_of_command(player, command, answers) == seq![
                Event::Queue(tracks@),
                Event::Call(BackendCall::Play(tracks@[k].path.text@)),
                Event::State(
                    match answers.loaded {
                        Ok(_) => StateView::Playing { track: tracks@[k].id, position: 0 },
                        Err(e) => StateView::Failed {
                            track: tracks@[k].id,
                            error: e.message_view(),
                        },
                    },
                ),
            ]
            &&& after.queue.tracks == tracks@
            &&& after.queue.cursor == k
            &&& after.mode == (if answers.loaded is Ok {
                LoopState::Playing
            } else {
                LoopState::Empty
            })
            &&& after.agenda.len() == 0
        }),
{
    let command = PlayerCommand::PlayQueue { tracks, start };
    law_transcript_of_commands(player, command, answers);
    assert(seen_of_command(player, command, answers) =~= seq![
        Event::Queue(tracks@),
        Event::Call(BackendCall::Play(tracks@[k].path.text@)),
        seen_of_command(player, command, answers)[2],
    ]);
}

/// `PlayQueue` and `RestorePaused` with an empty list leave an empty queue and nothing loaded.
/// What was loaded is silenced, and the empty list and the stop are reported; with nothing
/// loaded the empty list is all that is seen.
pub proof fn law_an_empty_list(player: PlayerView, command: PlayerCommand, answers: Answers)
    requires
        player.wf(),
        player.idle(),
        match command {
            PlayerCommand::PlayQueue { tracks, .. } => tracks@.len() == 0,
            PlayerCommand::RestorePaused { tracks, .. } => tracks@.len() == 0,
            _ => false,
        },
    ensures
        seen_of_command(player, command, answers) == (if player.mode == LoopState::Empty {
            seq![Event::Queue(Seq::empty())]
        } else {
            seq![
                Event::Call(BackendCall::Stop),
                Event::Queue(Seq::empty()),
                Event::State(StateView::Stopped),
            ]
        }),
        after_command(player, command, answers).queue.tracks.len() == 0,
        after_command(player, command, answers).queue.cursor == 0,
        after_command(player, command, answers).mode == LoopState::Empty,
        after_command(player, command, answers).agenda.len() == 0,
{
    law_transcript_of_commands(player, command, answers);
    match command {
        PlayerCommand::PlayQueue { tracks, .. } => assert(tracks@ =~= Seq::empty()),
        PlayerCommand::RestorePaused { tracks, .. } => assert(tracks@ =~= Seq::empty()),
        _ => {},
    }
    assert(seen_of_command(player, command, answers) =~= (if player.mode == LoopState::Empty {
        seq![Event::Queue(Seq::empty())]
    } else {
        seq![
            Event::Call(BackendCall::Stop),
            Event::Queue(Seq::empty()),
            Event::State(StateView::Stopped),
        ]
    }));
}

/// `Enqueue` behind other tracks reports the longer list and does nothing else: no call, no
/// state, and the cursor and the source stay as they are.
pub proof fn law_enqueue_behind_others(player: PlayerView, tracks: Vec<Track>, answers: Answers)
    requires
        player.wf(),
        player.idle(),
        player.queue.tracks.len() > 0,
    ensures
        ({
            let command = PlayerCommand::Enqueue(tracks);
            let after = after_command(player, command, answers);
            &&& seen_of_command(player, command, answers) == seq![
                Event::Queue(player.queue.tracks + tracks@),
            ]
            &&& after.queue.tracks == player.queue.tracks + tracks@
            &&& after.queue.cursor == player.queue.cursor
            &&& after.mode == player.mode
            &&& after.agenda.len() == 0
        }),
{
    law_transcript_of_commands(player, PlayerCommand::Enqueue(tracks), answers);
}

/// `Enqueue` on an empty queue reports the list, asks the backend to play the path of the first
/// track and reports that track as playing or failed. With no tracks either, the empty list is
/// all that is seen.
pub proof fn law_enqueue_on_nothing(player: PlayerView, tracks: Vec<Track>, answers: Answers)
    requires
        player.wf(),
        player.idle(),
        player.queue.tracks.len() == 0,
    ensures
        ({
            let command = PlayerCommand::Enqueue(tracks);
            let after = after_command(player, command, answers);
            &&& seen_of_command(player, command, answers) == (if tracks@.len() == 0 {
                seq![Event::Queue(Seq::empty())]
            } else {
                seq![
                    Event::Queue(tracks@),
                    Event::Call(BackendCall::Play(tracks@[0].path.text@)),
                    Event::State(
                        match answers.loaded {
                            Ok(_) => StateView::Playing { track: tracks@[0].id, position: 0 },
                            Err(e) => StateView::Failed {
                                track: tracks@[0].id,
                                error: e.message_view(),
                            },
                        },
                    ),
                ]
            })
            &&& after.queue.tracks == tracks@
            &&& after.queue.cursor == 0
            &&& after.mode == (if tracks@.len() > 0 && answers.loaded is Ok {
                LoopState::Playing
            } else {
                LoopState::Empty
            })
            &&& after.agenda.len() == 0
        }),
{
    let command = PlayerCommand::Enqueue(tracks);
    law_transcript_of_commands(player, command, answers);
    assert(player.queue.tracks + tracks@ =~= tracks@);
    let seen = seen_of_command(player, command, answers);
    if tracks@.len() == 0 {
        assert(tracks@ =~= Seq::empty());
        assert(seen =~= seq![Event::Queue(Seq::empty())]);
    } else {
        assert(seen =~= seq![
            Event::Queue(tracks@),
            Event::Call(BackendCall::Play(tracks@[0].path.text@)),
            seen[2],
        ]);
    }
}

/// `RestorePaused` makes `tracks` the queue and puts the cursor at `start`, or on the last track
/// if `start` is past the end. The list is reported, the backend is asked to hold the path of
/// the track under the cursor at `position`, and that track is reported as paused there, or as
/// failed.
pub proof fn law_restore_paused(
    player: PlayerView,
    tracks: Vec<Track>,
    start: usize,
    k: int,
    position: SeekPosition,
    answers: Answers,
)
    requires
        player.wf(),
        player.idle(),
        0 <= k < tracks@.len(),
        k == start || (start >= tracks@.len() && k == tracks@.len() - 1),
    ensures
        ({
            let command = PlayerCommand::RestorePaused { tracks, start, position };
            let after = after_command(player, command, answers);
            &&& seen_of_command(player, command, answers) == seq![
                Event::Queue(tracks@),
                Event::Call(BackendCall::PlayPaused(tracks@[k].path.text@, position@)),
                Event::State(
                    match answers.loaded {
                        Ok(_) => StateView::Paused { track: tracks@[k].id, position: position@ },
                        Err(e) => StateView::Failed {
                            track: tracks@[k].id,
                            error: e.message_view(),
                        },
                    },
                ),
            ]
            &&& after.queue.tracks == tracks@
            &&& after.queue.cursor == k
            &&& after.mode == (if answers.loaded is Ok {
                LoopState::Paused
            } else {
                LoopState::Empty
            })
            &&& after.agenda.len() == 0
        }),
{
    let command = PlayerCommand::RestorePaused { tracks, start, position };
    law_transcript_of_commands(player, command, answers);
    assert(seen_of_command(player, command, answers) =~= seq![
        Event::Queue(tracks@),
        Event::Call(BackendCall::PlayPaused(tracks@[k].path.text@, position@)),
        seen_of_command(player, command, answers)[2],
    ]);
}

/// `SetQueue` with a list in which position `k` is the first to hold the current track reports
/// the list and moves the cursor to `k`. Nothing is called, no state is told, and the source
/// goes on as it was.
pub proof fn law_set_queue_with_the_current_track(
    player: PlayerView,
    tracks: Vec<Track>,
    k: int,
    answers: Answers,
)
    requires
        player.wf(),
        player.idle(),
        0 <= player.queue.cursor < player.queue.tracks.len(),
        0 <= k < tracks@.len(),
        tracks@[k].id == player.queue.tracks[player.queue.cursor].id,
        forall|j: int|
            0 <= j < k ==> (#[trigger] tracks@[j]).id
                != player.queue.tracks[player.queue.cursor].id,
    ensures
        ({
            let command = PlayerCommand::SetQueue(tracks);
            let after = after_command(player, command, answers);
            &&& seen_of_command(player, command, answers) == seq![Event::Queue(tracks@)]
            &&& after.queue.tracks == tracks@
            &&& after.queue.cursor == k
            &&& after.mode == player.mode
            &&& after.agenda.len() == 0
        }),
{
    law_transcript_of_commands(player, PlayerCommand::SetQueue(tracks), answers);
    lemma_first_with_id(tracks@, player.queue.tracks[player.queue.cursor].id);
}

/// `SetQueue` with a list that lacks the current track silences the backend, clears the queue
/// and reports both.
pub proof fn law_set_queue_without_the_current_track(
    player: PlayerView,
    tracks: Vec<Track>,
    answers: Answers,
)
    requires
        player.wf(),
        player.idle(),
        0 <= player.queue.cursor < player.queue.tracks.len(),
        forall|j: int|
            0 <= j < tracks@.len() ==> (#[trigger] tracks@[j]).id
                != player.queue.tracks[player.queue.cursor].id,
    ensures
        ({
            let command = PlayerCommand::SetQueue(tracks);
            let after = after_command(player, command, answers);
            &&& seen_of_command(player, command, answers) == seq![
                Event::Call(BackendCall::Stop),
                Event::Queue(Seq::empty()),
                Event::State(StateView::Stopped),
            ]
            &&& after.queue.tracks.len() == 0
            &&& after.queue.cursor == 0
            &&& after.mode == LoopState::Empty
            &&& after.agenda.len() == 0
        }),
{
    law_transcript_of_commands(player, PlayerCommand::SetQueue(tracks), answers);
    lemma_first_with_id(tracks@, player.queue.tracks[player.queue.cursor].id);
}

/// `SetQueue` on an empty queue reports the list and does nothing else; the cursor is on the
/// first track.
pub proof fn law_set_queue_on_nothing(player: PlayerView, tracks: Vec<Track>, answers: Answers)
    requires
        player.wf(),
        player.idle(),
        player.queue.tracks.len() == 0,
    ensures
        ({
            let command = PlayerCommand::SetQueue(tracks);
            let after = after_command(player, command, answers);
            &&& seen_of_command(player, command, answers) == seq![Event::Queue(tracks@)]
            &&& after.queue.tracks == tracks@
            &&& after.queue.cursor == 0
            &&& after.mode == LoopState::Empty
            &&& after.agenda.len() == 0
        }),
{
    law_transcript_of_commands(player, PlayerCommand::SetQueue(tracks), answers);
}

/// `Next` with a track after the current one: the backend is asked to play the path of that
/// track, which is then reported as playing or failed. Nothing else is seen, whether something
/// is loaded or not.
pub proof fn law_next(player: PlayerView, answers: Answers)
    requires
        player.wf(),
        player.idle(),
        player.queue.cursor + 1 < player.queue.tracks.len(),
    ensures
        ({
            let next = player.queue.tracks[player.queue.cursor + 1];
            let after = after_command(player, PlayerCommand::Next, answers);
            &&& seen_of_command(player, PlayerCommand::Next, answers) == seq![
                Event::Call(BackendCall::Play(next.path.text@)),
                Event::State(
                    match answers.loaded {
                        Ok(_) => StateView::Playing { track: next.id, position: 0 },
                        Err(e) => StateView::Failed { track: next.id, error: e.message_view() },
                    },
                ),
            ]
            &&& after.queue.tracks == player.queue.tracks
            &&& after.queue.cursor == player.queue.cursor + 1
            &&& after.mode == (if answers.loaded is Ok {
                LoopState::Playing
            } else {
                LoopState::Empty
            })
            &&& after.agenda.len() == 0
        }),
{
    law_transcript_of_commands(player, PlayerCommand::Next, answers);
}

/// `Previous` with a track before the current one: the backend is asked to play the path of
/// that track, which is then reported as playing or failed. Nothing else is seen, whether
/// something is loaded or not.
pub proof fn law_previous(player: PlayerView, answers: Answers)
    requires
        player.wf(),
        player.idle(),
        player.queue.cursor > 0,
    ensures
        ({
            let previous = player.queue.tracks[player.queue.cursor - 1];
            let after = after_command(player, PlayerCommand::Previous, answers);
            &&& seen_of_command(player, PlayerCommand::Previous, answers) == seq![
                Event::Call(BackendCall::Play(previous.path.text@)),
                Event::State(
                    match answers.loaded {
                        Ok(_) => StateView::Playing { track: previous.id, position: 0 },
                        Err(e) => StateView::Failed {
                            track: previous.id,
                            error: e.message_view(),
                        },
                    },
                ),
            ]
            &&& after.queue.tracks == player.queue.tracks
            &&& after.queue.cursor == player.queue.cursor - 1
            &&& after.mode == (if answers.loaded is Ok {
                LoopState::Playing
            } else {
                LoopState::Empty
            })
            &&& after.agenda.len() == 0
        }),
{
    law_transcript_of_commands(player, PlayerCommand::Previous, answers);
}

/// `Next` on the last track, `Previous` on the first and both in an empty queue: nothing is
/// seen, and the player is what it was.
pub proof fn law_no_neighbour(player: PlayerView, answers: Answers)
    requires
        player.wf(),
        player.idle(),
    ensures
        player.queue.cursor + 1 >= player.queue.tracks.len() ==> {
            &&& seen_of_command(player, PlayerCommand::Next, answers).len() == 0
            &&& after_command(player, PlayerCommand::Next, answers) == player
        },
        player.queue.cursor == 0 ==> {
            &&& seen_of_command(player, PlayerCommand::Previous, answers).len() == 0
            &&& after_command(player, PlayerCommand::Previous, answers) == player
        },
{
    law_transcript_of_commands(player, PlayerCommand::Next, answers);
    law_transcript_of_commands(player, PlayerCommand::Previous, answers);
}

/// `Pause` tells the backend to pause, always. With a source loaded the play head is asked for
/// and the current track reported as paused there; with none, nothing more is seen and nothing
/// changes.
pub proof fn law_pause(player: PlayerView, answers: Answers)
    requires
        player.wf(),
        player.idle(),
    ensures
        ({
            let after = after_command(player, PlayerCommand::Pause, answers);
            let track = player.queue.tracks[player.queue.cursor].id;
            &&& seen_of_command(player, PlayerCommand::Pause, answers) == (if player.mode
                == LoopState::Empty {
                seq![Event::Call(BackendCall::Pause)]
            } else {
                seq![
                    Event::Call(BackendCall::Pause),
                    Event::Call(BackendCall::Position),
                    Event::State(StateView::Paused { track, position: play_head(answers) }),
                ]
            })
            &&& after.queue == player.queue
            &&& after.mode == (if player.mode == LoopState::Empty {
                LoopState::Empty
            } else {
                LoopState::Paused
            })
            &&& after.agenda.len() == 0
        }),
{
    law_transcript_of_commands(player, PlayerCommand::Pause, answers);
}

/// `Resume` with a source loaded tells the backend to resume and asks what it is doing. Unless
/// that is nothing, the play head is asked for and the current track reported as playing there.
/// With nothing loaded, nothing is seen and nothing changes.
pub proof fn law_resume(player: PlayerView, answers: Answers)
    requires
        player.wf(),
        player.idle(),
    ensures
        ({
            let after = after_command(player, PlayerCommand::Resume, answers);
            let track = player.queue.tracks[player.queue.cursor].id;
            &&& seen_of_command(player, PlayerCommand::Resume, answers) == (if player.mode
                == LoopState::Empty {
                seq![]
            } else if answers.state == BackendState::Idle {
                seq![Event::Call(BackendCall::Resume), Event::Call(BackendCall::State)]
            } else {
                seq![
                    Event::Call(BackendCall::Resume),
                    Event::Call(BackendCall::State),
                    Event::Call(BackendCall::Position),
                    Event::State(StateView::Playing { track, position: play_head(answers) }),
                ]
            })
            &&& after.queue == player.queue
            &&& after.mode == (if player.mode == LoopState::Empty {
                LoopState::Empty
            } else {
                LoopState::Playing
            })
            &&& after.agenda.len() == 0
        }),
{
    law_transcript_of_commands(player, PlayerCommand::Resume, answers);
}

/// `Stop` tells the backend to stop, clears the queue, and reports both, whatever was loaded.
pub proof fn law_stop(player: PlayerView, answers: Answers)
    requires
        player.wf(),
        player.idle(),
    ensures
        ({
            let after = after_command(player, PlayerCommand::Stop, answers);
            &&& seen_of_command(player, PlayerCommand::Stop, answers) == seq![
                Event::Call(BackendCall::Stop),
                Event::Queue(Seq::empty()),
                Event::State(StateView::Stopped),
            ]
            &&& after.queue.tracks.len() == 0
            &&& after.queue.cursor == 0
            &&& after.mode == LoopState::Empty
            &&& after.agenda.len() == 0
        }),
{
    law_transcript_of_commands(player, PlayerCommand::Stop, answers);
}

/// `Seek` hands the position to the backend, always, and leaves the player as it was. With a
/// source loaded the current track is reported at that position, playing or paused as it was.
pub proof fn law_seek(player: PlayerView, position: SeekPosition, answers: Answers)
    requires
        player.wf(),
        player.idle(),
    ensures
        ({
            let command = PlayerCommand::Seek(position);
            let track = player.queue.tracks[player.queue.cursor].id;
            let call = Event::Call(BackendCall::Seek(position@));
            &&& seen_of_command(player, command, answers) == match player.mode {
                LoopState::Empty => seq![call],
                LoopState::Playing => seq![
                    call,
                    Event::State(StateView::Playing { track, position: position@ }),
                ],
                LoopState::Paused => seq![
                    call,
                    Event::State(StateView::Paused { track, position: position@ }),
                ],
            }
            &&& after_command(player, command, answers) == player
        }),
{
    law_transcript_of_commands(player, PlayerCommand::Seek(position), answers);
}

/// `SetVolume` hands the volume to the backend and does nothing else, whatever is loaded.
pub proof fn law_set_volume(player: PlayerView, volume: Volume, answers: Answers)
    requires
        player.wf(),
        player.idle(),
    ensures
        seen_of_command(player, PlayerCommand::SetVolume(volume), answers) == seq![
            Event::Call(BackendCall::SetVolume(volume)),
        ],
        after_command(player, PlayerCommand::SetVolume(volume), answers) == player,
{
    law_transcript_of_commands(player, PlayerCommand::SetVolume(volume), answers);
}

/// A tick on a backend that plays asks for its state and its play head, and reports the current
/// track as playing there.
pub proof fn law_tick_while_playing(player: PlayerView, answers: Answers)
    requires
        player.wf(),
        player.idle(),
        0 <= player.queue.cursor < player.queue.tracks.len(),
        answers.state == BackendState::Playing,
    ensures
        ({
            let track = player.queue.tracks[player.queue.cursor].id;
            &&& seen_of_tick(player, answers) == seq![
                Event::Call(BackendCall::State),
                Event::Call(BackendCall::Position),
                Event::State(StateView::Playing { track, position: play_head(answers) }),
            ]
            &&& after_tick(player, answers).queue == player.queue
            &&& after_tick(player, answers).mode == LoopState::Playing
            &&& after_tick(player, answers).agenda.len() == 0
        }),
{
    law_transcript_of_ticks(player, answers);
    assert(seen_of_tick(player, answers) =~= seq![
        Event::Call(BackendCall::State),
        Event::Call(BackendCall::Position),
        seen_of_tick(player, answers)[2],
    ]);
}

/// A tick on a backend that is paused asks for its state and reports nothing.
pub proof fn law_tick_while_paused(player: PlayerView, answers: Answers)
    requires
        player.wf(),
        player.idle(),
        0 <= player.queue.cursor < player.queue.tracks.len(),
        answers.state == BackendState::Paused,
    ensures
        seen_of_tick(player, answers) == seq![Event::Call(BackendCall::State)],
        after_tick(player, answers).queue == player.queue,
        after_tick(player, answers).mode == LoopState::Paused,
        after_tick(player, answers).agenda.len() == 0,
{
    law_transcript_of_ticks(player, answers);
}

/// A tick that finds a track ended, with another after it: the backend is asked for its state
/// and then to play the path of the track that follows in the list, which is reported as
/// playing or failed. No other path is played.
pub proof fn law_tick_at_the_end_of_a_track(player: PlayerView, answers: Answers)
    requires
        player.wf(),
        player.idle(),
        player.queue.cursor + 1 < player.queue.tracks.len(),
        answers.state == BackendState::Idle,
    ensures
        ({
            let next = player.queue.tracks[player.queue.cursor + 1];
            let after = after_tick(player, answers);
            &&& seen_of_tick(player, answers) == seq![
                Event::Call(BackendCall::State),
                Event::Call(BackendCall::Play(next.path.text@)),
                Event::State(
                    match answers.loaded {
                        Ok(_) => StateView::Playing { track: next.id, position: 0 },
                        Err(e) => StateView::Failed { track: next.id, error: e.message_view() },
                    },
                ),
            ]
            &&& after.queue.tracks == player.queue.tracks
            &&& after.queue.cursor == player.queue.cursor + 1
            &&& after.mode == (if answers.loaded is Ok {
                LoopState::Playing
            } else {
                LoopState::Empty
            })
            &&& after.agenda.len() == 0
        }),
{
    law_transcript_of_ticks(player, answers);
    assert(seen_of_tick(player, answers) =~= seq![
        Event::Call(BackendCall::State),
        Event::Call(BackendCall::Play(player.queue.tracks[player.queue.cursor + 1].path.text@)),
        seen_of_tick(player, answers)[2],
    ]);
}

/// A tick that finds the last track ended asks for the backend's state, silences it, clears the
/// queue and reports both.
pub proof fn law_tick_at_the_end_of_the_queue(player: PlayerView, answers: Answers)
    requires
        player.wf(),
        player.idle(),
        player.queue.tracks.len() > 0,
        player.queue.cursor + 1 == player.queue.tracks.len(),
        answers.state == BackendState::Idle,
    ensures
        seen_of_tick(player, answers) == seq![
            Event::Call(BackendCall::State),
            Event::Call(BackendCall::Stop),
            Event::Queue(Seq::empty()),
            Event::State(StateView::Stopped),
        ],
        after_tick(player, answers).queue.tracks.len() == 0,
        after_tick(player, answers).queue.cursor == 0,
        after_tick(player, answers).mode == LoopState::Empty,
        after_tick(player, answers).agenda.len() == 0,
{
    law_transcript_of_ticks(player, answers);
    assert(seen_of_tick(player, answers) =~= seq![
        Event::Call(BackendCall::State),
        Event::Call(BackendCall::Stop),
        Event::Queue(Seq::empty()),
        Event::State(StateView::Stopped),
    ]);
}

/// A tick with an empty queue is not seen, and nothing is loaded after it.
pub proof fn law_tick_on_nothing(player: PlayerView, answers: Answers)
    requires
        player.wf(),
        player.idle(),
        player.queue.tracks.len() == 0,
    ensures
        seen_of_tick(player, answers).len() == 0,
        after_tick(player, answers).queue == player.queue,
        after_tick(player, answers).mode == LoopState::Empty,
        after_tick(player, answers).agenda.len() == 0,
{
    law_transcript_of_ticks(player, answers);
}

/// The play head is reported to the millisecond: a whole number of milliseconds that the play
/// head has reached, and by less than one more. Of a play head beyond the milliseconds that 64
/// bits hold, what goes beyond is dropped in whole rounds of that range.
pub proof fn law_the_play_head_is_reported_to_the_millisecond(answers: Answers)
    ensures
        play_head(answers) % 1_000_000 == 0,
        play_head(answers) < 18_446_744_073_709_551_616_000_000,
        duration_nanos(answers.position) < 18_446_744_073_709_551_616_000_000 ==> play_head(answers)
            <= duration_nanos(answers.position) < play_head(answers) + 1_000_000,
        play_head(answers) <= duration_nanos(answers.position),
        (duration_nanos(answers.position) - play_head(answers)) % 18_446_744_073_709_551_616_000_000
            < 1_000_000,
{
    law_reported_positions_are_exact_to_the_millisecond(duration_nanos(answers.position) as nat);
}

/// `Pause`, `Resume` and a tick report the play head that the backend names, to the
/// millisecond.
pub proof fn law_reported_positions_are_where_the_play_head_is(
    player: PlayerView,
    answers: Answers,
    seen: Seq<Event>,
    i: int,
)
    requires
        player.wf(),
        player.idle(),
        seen == seen_of_command(player, PlayerCommand::Pause, answers) || seen == seen_of_command(
            player,
            PlayerCommand::Resume,
            answers,
        ) || (seen == seen_of_tick(player, answers) && answers.state == BackendState::Playing),
        0 <= i < seen.len(),
        duration_nanos(answers.position) < 18_446_744_073_709_551_616_000_000,
    ensures
        match seen[i] {
            Event::State(StateView::Playing { position, .. }) => position % 1_000_000 == 0
                && position <= duration_nanos(answers.position) < position + 1_000_000,
            Event::State(StateView::Paused { position, .. }) => position % 1_000_000 == 0
                && position <= duration_nanos(answers.position) < position + 1_000_000,
            Event::State(_) => false,
            _ => true,
        },
{
    law_pause(player, answers);
    law_resume(player, answers);
    law_the_play_head_is_reported_to_the_millisecond(answers);
    if answers.state == BackendState::Playing {
        if player.queue.tracks.len() > 0 {
            law_tick_while_playing(player, answers);
        } else {
            law_tick_on_nothing(player, answers);
        }
    }
}

/// The last of the calls among `events` that start, hold or end the sound, or `before` if there
/// is none.
pub open spec fn last_order(events: Seq<Event>, before: Option<BackendCall>) -> Option<BackendCall>
    decreases events.len(),
{
    if events.len() == 0 {
        before
    } else {
        match events.last() {
            Event::Call(call) if call is Play || call is PlayPaused || call is Pause
                || call is Resume || call is Stop => Some(call),
            _ => last_order(events.drop_last(), before),
        }
    }
}

/// A source that is taken for playing was last told to play or to resume, and one that is taken
/// for paused was last told to pause or to be held. Commands keep it so.
pub proof fn law_a_source_does_what_it_was_told(
    player: PlayerView,
    command: PlayerCommand,
    answers: Answers,
    before: Option<BackendCall>,
)
    requires
        player.wf(),
        player.idle(),
        player.mode == LoopState::Playing ==> (before matches Some(call) && (call is Play
            || call is Resume)),
        player.mode == LoopState::Paused ==> (before matches Some(call) && (call is Pause
            || call is PlayPaused)),
    ensures
        ({
            let after = after_command(player, command, answers);
            let last = last_order(seen_of_command(player, command, answers), before);
            &&& after.mode == LoopState::Playing ==> (last matches Some(call) && (call is Play
                || call is Resume))
            &&& after.mode == LoopState::Paused ==> (last matches Some(call) && (call is Pause
                || call is PlayPaused))
        }),
{
    law_transcript_of_commands(player, command, answers);
    reveal_with_fuel(last_order, 5);
}

/// Ticks while something is playing keep it so too, unless the backend is paused behind the
/// player's back.
pub proof fn law_a_source_does_what_it_was_told_at_ticks(
    player: PlayerView,
    answers: Answers,
    before: Option<BackendCall>,
)
    requires
        player.wf(),
        player.idle(),
        player.mode == LoopState::Playing,
        before matches Some(call) && (call is Play || call is Resume),
        answers.state != BackendState::Paused,
    ensures
        ({
            let after = after_tick(player, answers);
            let last = last_order(seen_of_tick(player, answers), before);
            &&& after.mode == LoopState::Playing ==> (last matches Some(call) && (call is Play
                || call is Resume))
            &&& after.mode != LoopState::Paused
        }),
{
    law_transcript_of_ticks(player, answers);
    reveal_with_fuel(last_order, 5);
}

/// A failure is told in words that name what went wrong: the output that did not open, or the
/// file that did not decode, and why.
pub proof fn law_failures_are_told_in_full(error: AudioError)
    ensures
        error matches AudioError::Device(cause) ==> error.message_view()
            == "failed to open audio output: "@ + cause@,
        error matches AudioError::Decode(file, cause) ==> error.message_view()
            == "failed to decode "@ + file@ + ": "@ + cause@,
{
}

} // verus!
