//! What holds of the player as a whole.

use crate::backend::{BackendCall, BackendState};
use crate::command::PlayerCommand;
use crate::model::{Answers, LoopState, PlayerView};
use crate::queue::QueueView;
use crate::seek::SeekPosition;
use crate::state::StateView;
use crate::track::{has_id, is_first_with_id, lemma_first_with_id, Track};
use crate::transcript::{
    after_command, after_tick, failure, law_transcript_of_commands, law_transcript_of_ticks,
    play_head, seen_of_command, seen_of_play, seen_of_stop, seen_of_tick, Event,
};
use vstd::prelude::*;

verus! {

/// The track list that a listener knows after `events`, who knew `known` before.
pub open spec fn last_queue(events: Seq<Event>, known: Seq<Track>) -> Seq<Track>
    decreases events.len(),
{
    if events.len() == 0 {
        known
    } else {
        match events.last() {
            Event::Queue(tracks) => tracks,
            _ => last_queue(events.drop_last(), known),
        }
    }
}

/// The playback state that a listener knows after `events`, who knew `known` before.
pub open spec fn last_state(events: Seq<Event>, known: StateView) -> StateView
    decreases events.len(),
{
    if events.len() == 0 {
        known
    } else {
        match events.last() {
            Event::State(state) => state,
            _ => last_state(events.drop_last(), known),
        }
    }
}

/// Every command is done after at most four steps, whatever the backend answers, and leaves
/// a sound player that is ready for the next one.
pub proof fn law_commands_settle(player: PlayerView, command: PlayerCommand, answers: Answers)
    requires
        player.wf(),
        player.idle(),
    ensures
        after_command(player, command, answers).idle(),
        after_command(player, command, answers).wf(),
{
    law_transcript_of_commands(player, command, answers);
    if let PlayerCommand::SetQueue(tracks) = command {
        if let Some(track) = player.queue.current() {
            lemma_first_with_id(tracks@, track.id);
        }
    }
}

/// Every tick is done after at most four steps, whatever the backend answers, and leaves a
/// sound player that is ready for the next one.
pub proof fn law_ticks_settle(player: PlayerView, answers: Answers)
    requires
        player.wf(),
        player.idle(),
    ensures
        after_tick(player, answers).idle(),
        after_tick(player, answers).wf(),
{
    law_transcript_of_ticks(player, answers);
}

/// A listener who follows the reported track lists knows the queue's list after every
/// command: it never changes without a report.
pub proof fn law_queue_reports_are_in_step(
    player: PlayerView,
    command: PlayerCommand,
    answers: Answers,
)
    requires
        player.wf(),
        player.idle(),
    ensures
        last_queue(seen_of_command(player, command, answers), player.queue.tracks)
            == after_command(player, command, answers).queue.tracks,
{
    law_transcript_of_commands(player, command, answers);
    reveal_with_fuel(last_queue, 5);
}

/// A listener who follows the reported track lists knows the queue's list after every tick.
pub proof fn law_queue_reports_are_in_step_with_ticks(player: PlayerView, answers: Answers)
    requires
        player.wf(),
        player.idle(),
    ensures
        last_queue(seen_of_tick(player, answers), player.queue.tracks) == after_tick(
            player,
            answers,
        ).queue.tracks,
{
    law_transcript_of_ticks(player, answers);
    reveal_with_fuel(last_queue, 5);
}

/// Commands that leave the track list alone, cursor moves among them, report no track list.
pub proof fn law_cursor_moves_report_no_queue(
    player: PlayerView,
    command: PlayerCommand,
    answers: Answers,
)
    requires
        player.wf(),
        player.idle(),
        command is Next || command is Previous || command is Pause || command is Resume
            || command is Seek || command is SetVolume,
    ensures
        after_command(player, command, answers).queue.tracks == player.queue.tracks,
        forall|i: int|
            0 <= i < seen_of_command(player, command, answers).len() ==> !((
            #[trigger] seen_of_command(player, command, answers)[i]) is Queue),
{
    law_transcript_of_commands(player, command, answers);
}

/// Every command that can change the track list reports it exactly once.
pub proof fn law_a_new_track_list_is_reported_once(
    player: PlayerView,
    command: PlayerCommand,
    answers: Answers,
) -> (at: int)
    requires
        player.wf(),
        player.idle(),
        command is Play || command is PlayQueue || command is Enqueue || command is RestorePaused
            || command is SetQueue || command is Stop,
    ensures
        ({
            let seen = seen_of_command(player, command, answers);
            &&& 0 <= at < seen.len()
            &&& seen[at] == Event::Queue(after_command(player, command, answers).queue.tracks)
            &&& forall|i: int| 0 <= i < seen.len() && (#[trigger] seen[i]) is Queue ==> i == at
        }),
{
    law_transcript_of_commands(player, command, answers);
    if seen_of_command(player, command, answers)[0] is Queue {
        0
    } else {
        1
    }
}

/// A tick reports a track list only when the last track ended, and then the empty one.
pub proof fn law_ticks_report_no_queue_until_the_end(player: PlayerView, answers: Answers, i: int)
    requires
        player.wf(),
        player.idle(),
        0 <= i < seen_of_tick(player, answers).len(),
        seen_of_tick(player, answers)[i] is Queue,
    ensures
        seen_of_tick(player, answers)[i] == Event::Queue(Seq::empty()),
        player.queue.current() is Some,
        !player.queue.has_next(),
        answers.state == BackendState::Idle,
{
    law_transcript_of_ticks(player, answers);
}

/// What a listener was last told is what the player believes: a loaded source is known as
/// playing or paused, and as the current track; without one, playback is known as stopped
/// or failed.
pub open spec fn agrees(known: StateView, player: PlayerView) -> bool {
    match player.mode {
        LoopState::Playing => known is Playing && player.queue.current() is Some
            && known.current_track() == Some(player.queue.current().unwrap().id),
        LoopState::Paused => known is Paused && player.queue.current() is Some
            && known.current_track() == Some(player.queue.current().unwrap().id),
        LoopState::Empty => known is Stopped || known is Failed,
    }
}

/// The command resumes a paused source on a backend that turns out to be idle. Nothing is
/// reported then, and the next tick notices the end.
pub open spec fn resumes_nothing(
    player: PlayerView,
    command: PlayerCommand,
    answers: Answers,
) -> bool {
    command is Resume && player.mode == LoopState::Paused && answers.state == BackendState::Idle
}

/// Every change of the playback state is reported: a listener who was in agreement with the
/// player is so after the next command. Left out is a resume with nothing to resume, which
/// must not be reported.
pub proof fn law_state_reports_are_in_step(
    player: PlayerView,
    command: PlayerCommand,
    answers: Answers,
    known: StateView,
)
    requires
        player.wf(),
        player.idle(),
        agrees(known, player),
        !resumes_nothing(player, command, answers),
    ensures
        agrees(
            last_state(seen_of_command(player, command, answers), known),
            after_command(player, command, answers),
        ),
{
    law_transcript_of_commands(player, command, answers);
    reveal_with_fuel(last_state, 5);
    if let PlayerCommand::SetQueue(tracks) = command {
        if let Some(track) = player.queue.current() {
            lemma_first_with_id(tracks@, track.id);
        }
    }
}

/// On the tick the backend says of itself that it is paused, while the player took it for
/// something else. Nothing is reported then.
pub open spec fn pauses_silently(player: PlayerView, answers: Answers) -> bool {
    player.queue.current() is Some && player.mode != LoopState::Paused && answers.state
        == BackendState::Paused
}

/// Every change of the playback state that a tick brings about is reported: a listener who was
/// in agreement with the player is so after the tick. Left out is a backend that is paused
/// behind the player's back.
pub proof fn law_state_reports_are_in_step_with_ticks(
    player: PlayerView,
    answers: Answers,
    known: StateView,
)
    requires
        player.wf(),
        player.idle(),
        agrees(known, player),
        !pauses_silently(player, answers),
    ensures
        agrees(
            last_state(seen_of_tick(player, answers), known),
            after_tick(player, answers),
        ),
{
    law_transcript_of_ticks(player, answers);
    reveal_with_fuel(last_state, 5);
}

/// A state is among what is seen.
pub open spec fn tells_state(events: Seq<Event>) -> bool {
    exists|i: int| 0 <= i < events.len() && (#[trigger] events[i]) is State
}

/// After a command that tells a state a listener agrees with the player, whatever it took for
/// the playback state before.
pub proof fn law_a_told_state_is_what_is_believed(
    player: PlayerView,
    command: PlayerCommand,
    answers: Answers,
    known: StateView,
)
    requires
        player.wf(),
        player.idle(),
        tells_state(seen_of_command(player, command, answers)),
    ensures
        agrees(
            last_state(seen_of_command(player, command, answers), known),
            after_command(player, command, answers),
        ),
{
    law_transcript_of_commands(player, command, answers);
    reveal_with_fuel(last_state, 5);
}

/// After a tick that tells a state a listener agrees with the player, whatever it took for the
/// playback state before.
pub proof fn law_a_told_state_is_what_is_believed_of_ticks(
    player: PlayerView,
    answers: Answers,
    known: StateView,
)
    requires
        player.wf(),
        player.idle(),
        tells_state(seen_of_tick(player, answers)),
    ensures
        agrees(
            last_state(seen_of_tick(player, answers), known),
            after_tick(player, answers),
        ),
{
    law_transcript_of_ticks(player, answers);
    reveal_with_fuel(last_state, 5);
}

/// The event is no state, or one that is about the current track or about none.
pub open spec fn is_of_current(event: Event, player: PlayerView) -> bool {
    match event {
        Event::State(state) => state.current_track() matches Some(id) ==> (
        player.queue.current() matches Some(track) && track.id == id),
        _ => true,
    }
}

/// A change of the track list is reported before the playback state that comes with it: who
/// is told a state by a command knows the list that the state is about, and the track that it
/// is about is the current one.
pub proof fn law_queue_reports_come_before_states(
    player: PlayerView,
    command: PlayerCommand,
    answers: Answers,
    i: int,
)
    requires
        player.wf(),
        player.idle(),
        0 <= i < seen_of_command(player, command, answers).len(),
        seen_of_command(player, command, answers)[i] is State,
    ensures
        last_queue(seen_of_command(player, command, answers).take(i), player.queue.tracks)
            == after_command(player, command, answers).queue.tracks,
        is_of_current(
            seen_of_command(player, command, answers)[i],
            after_command(player, command, answers),
        ),
{
    law_transcript_of_commands(player, command, answers);
    reveal_with_fuel(last_queue, 5);
}

/// Who is told a state by a tick knows the list that the state is about, and the track that it
/// is about is the current one.
pub proof fn law_queue_reports_come_before_states_of_ticks(
    player: PlayerView,
    answers: Answers,
    i: int,
)
    requires
        player.wf(),
        player.idle(),
        0 <= i < seen_of_tick(player, answers).len(),
        seen_of_tick(player, answers)[i] is State,
    ensures
        last_queue(seen_of_tick(player, answers).take(i), player.queue.tracks) == after_tick(
            player,
            answers,
        ).queue.tracks,
        is_of_current(seen_of_tick(player, answers)[i], after_tick(player, answers)),
{
    law_transcript_of_ticks(player, answers);
    reveal_with_fuel(last_queue, 5);
}

/// With nothing loaded, as after a decode failure, `Pause`, `Resume`, `Seek` and `SetVolume`
/// report nothing and change nothing: they claim no audio that isn't there.
pub proof fn law_nothing_loaded_nothing_claimed(
    player: PlayerView,
    command: PlayerCommand,
    answers: Answers,
)
    requires
        player.wf(),
        player.idle(),
        player.mode == LoopState::Empty,
        command is Pause || command is Resume || command is Seek || command is SetVolume,
    ensures
        after_command(player, command, answers) == player,
        forall|i: int|
            0 <= i < seen_of_command(player, command, answers).len() ==> (
            #[trigger] seen_of_command(player, command, answers)[i]) is Call,
{
    law_transcript_of_commands(player, command, answers);
}

/// A player with nothing loaded, whose backend can load nothing, reports no track as playing
/// or paused, whatever it is told.
pub proof fn law_a_failing_backend_is_never_playing(
    player: PlayerView,
    command: PlayerCommand,
    answers: Answers,
)
    requires
        player.wf(),
        player.idle(),
        player.mode == LoopState::Empty,
        answers.loaded is Err,
    ensures
        after_command(player, command, answers).mode == LoopState::Empty,
        forall|i: int|
            0 <= i < seen_of_command(player, command, answers).len() ==> match (
            #[trigger] seen_of_command(player, command, answers)[i]) {
                Event::State(state) => state is Stopped || state is Failed,
                _ => true,
            },
{
    law_transcript_of_commands(player, command, answers);
}

/// A track that the backend accepted is believed to be playing, so that the clock goes on to
/// tick, whatever the backend says of its own state at that moment.
pub proof fn law_an_accepted_track_keeps_the_clock_ticking(
    player: PlayerView,
    command: PlayerCommand,
    answers: Answers,
    path: Seq<char>,
)
    requires
        player.wf(),
        player.idle(),
        seen_of_command(player, command, answers).contains(Event::Call(BackendCall::Play(path))),
        answers.loaded is Ok,
    ensures
        after_command(player, command, answers).mode == LoopState::Playing,
{
    law_transcript_of_commands(player, command, answers);
}

/// A track that the backend refused is reported as failed, with its id and the backend's
/// words, and is not believed to be playing.
pub proof fn law_a_refused_track_is_reported(
    player: PlayerView,
    track: Track,
    command: PlayerCommand,
    answers: Answers,
)
    requires
        player.wf(),
        player.idle(),
        command == PlayerCommand::Play(Box::new(track)),
        answers.loaded is Err,
    ensures
        after_command(player, command, answers).mode == LoopState::Empty,
        seen_of_command(player, command, answers) == seq![
            Event::Queue(seq![track]),
            Event::Call(BackendCall::Play(track.path@)),
            Event::State(failure(track.id, answers)),
        ],
{
    law_transcript_of_commands(player, command, answers);
    assert(seen_of_command(player, command, answers) =~= seq![
        Event::Queue(seq![track]),
        Event::Call(BackendCall::Play(track.path@)),
        Event::State(failure(track.id, answers)),
    ]);
}

/// `PlayQueue` at a position in the list makes the track there the current one, and plays it
/// if the backend can.
pub proof fn law_play_queue_plays_the_starting_track(
    player: PlayerView,
    tracks: Vec<Track>,
    start: usize,
    answers: Answers,
)
    requires
        player.wf(),
        player.idle(),
        start < tracks@.len(),
    ensures
        ({
            let command = PlayerCommand::PlayQueue { tracks, start };
            let queue = QueueView { tracks: tracks@, cursor: start as int };
            &&& after_command(player, command, answers).queue == queue
            &&& seen_of_command(player, command, answers) == seq![Event::Queue(tracks@)]
                + seen_of_play(queue, answers)
            &&& after_command(player, command, answers).mode == LoopState::Playing
                <==> answers.loaded is Ok
        }),
{
    law_transcript_of_commands(player, PlayerCommand::PlayQueue { tracks, start }, answers);
}

/// When a track ends and another follows, the next one is played and no track list is
/// reported.
pub proof fn law_the_end_of_a_track_starts_the_next(player: PlayerView, answers: Answers)
    requires
        player.wf(),
        player.idle(),
        player.queue.has_next(),
        answers.state == BackendState::Idle,
    ensures
        after_tick(player, answers).queue == player.queue.advanced(),
        seen_of_tick(player, answers) == seq![Event::Call(BackendCall::State)] + seen_of_play(
            player.queue.advanced(),
            answers,
        ),
        answers.loaded is Ok ==> after_tick(player, answers).mode == LoopState::Playing,
{
    law_transcript_of_ticks(player, answers);
}

/// When the last track ends, playback stops and the queue is cleared.
pub proof fn law_the_end_of_the_queue_stops(player: PlayerView, answers: Answers)
    requires
        player.wf(),
        player.idle(),
        player.queue.current() is Some,
        !player.queue.has_next(),
        answers.state == BackendState::Idle,
    ensures
        after_tick(player, answers) == PlayerView::fresh(),
        seen_of_tick(player, answers) == seq![Event::Call(BackendCall::State)] + seen_of_stop(),
{
    law_transcript_of_ticks(player, answers);
}

/// The player after `n` ticks on which the backend gives the same answers.
pub open spec fn after_ticks(player: PlayerView, answers: Answers, n: nat) -> PlayerView
    decreases n,
{
    if n == 0 {
        player
    } else {
        after_tick(after_ticks(player, answers, (n - 1) as nat), answers)
    }
}

/// A queue whose tracks end one after the other is played through in order: after the end of
/// `n` tracks the `n`-th one from the start is playing.
pub proof fn law_a_queue_is_played_in_order(player: PlayerView, answers: Answers, n: nat)
    requires
        player.wf(),
        player.idle(),
        player.mode == LoopState::Playing,
        player.queue.cursor + n < player.queue.tracks.len(),
        answers.state == BackendState::Idle,
        answers.loaded is Ok,
    ensures
        after_ticks(player, answers, n).wf(),
        after_ticks(player, answers, n).idle(),
        after_ticks(player, answers, n).mode == LoopState::Playing,
        after_ticks(player, answers, n).queue == (QueueView {
            cursor: player.queue.cursor + n,
            ..player.queue
        }),
    decreases n,
{
    if n > 0 {
        law_a_queue_is_played_in_order(player, answers, (n - 1) as nat);
        let before = after_ticks(player, answers, (n - 1) as nat);
        law_transcript_of_ticks(before, answers);
        law_ticks_settle(before, answers);
    }
}

/// `Next` undoes `Previous` and `Previous` undoes `Next`, where they move the cursor.
pub proof fn law_next_and_previous_undo_each_other(
    player: PlayerView,
    there: Answers,
    back: Answers,
)
    requires
        player.wf(),
        player.idle(),
    ensures
        player.queue.has_next() ==> after_command(
            after_command(player, PlayerCommand::Next, there),
            PlayerCommand::Previous,
            back,
        ).queue == player.queue,
        player.queue.has_previous() ==> after_command(
            after_command(player, PlayerCommand::Previous, there),
            PlayerCommand::Next,
            back,
        ).queue == player.queue,
{
    let next = after_command(player, PlayerCommand::Next, there);
    let previous = after_command(player, PlayerCommand::Previous, there);
    law_transcript_of_commands(player, PlayerCommand::Next, there);
    law_transcript_of_commands(player, PlayerCommand::Previous, there);
    law_commands_settle(player, PlayerCommand::Next, there);
    law_commands_settle(player, PlayerCommand::Previous, there);
    law_transcript_of_commands(next, PlayerCommand::Previous, back);
    law_transcript_of_commands(previous, PlayerCommand::Next, back);
}

/// `Next` on the last track and `Previous` on the first do nothing at all.
pub proof fn law_moves_past_the_ends_do_nothing(player: PlayerView, answers: Answers)
    requires
        player.wf(),
        player.idle(),
    ensures
        !player.queue.has_next() ==> after_command(player, PlayerCommand::Next, answers) == player
            && seen_of_command(player, PlayerCommand::Next, answers).len() == 0,
        !player.queue.has_previous() ==> after_command(player, PlayerCommand::Previous, answers)
            == player && seen_of_command(player, PlayerCommand::Previous, answers).len() == 0,
{
    law_transcript_of_commands(player, PlayerCommand::Next, answers);
    law_transcript_of_commands(player, PlayerCommand::Previous, answers);
}

/// `Enqueue` on a queue that holds something calls no backend, reports no state and leaves
/// the current track as it was; the new tracks come behind all others.
pub proof fn law_enqueue_does_not_disturb(
    player: PlayerView,
    tracks: Vec<Track>,
    answers: Answers,
)
    requires
        player.wf(),
        player.idle(),
        player.queue.tracks.len() > 0,
    ensures
        ({
            let command = PlayerCommand::Enqueue(tracks);
            let after = after_command(player, command, answers);
            &&& after.mode == player.mode
            &&& after.queue.cursor == player.queue.cursor
            &&& after.queue.current() == player.queue.current()
            &&& after.queue.tracks == player.queue.tracks + tracks@
            &&& seen_of_command(player, command, answers) == seq![Event::Queue(after.queue.tracks)]
        }),
{
    law_transcript_of_commands(player, PlayerCommand::Enqueue(tracks), answers);
}

/// `Enqueue` on an empty queue plays the first of the new tracks.
pub proof fn law_enqueue_on_an_empty_queue_plays(
    player: PlayerView,
    tracks: Vec<Track>,
    answers: Answers,
)
    requires
        player.wf(),
        player.idle(),
        player.queue.tracks.len() == 0,
        tracks@.len() > 0,
    ensures
        ({
            let command = PlayerCommand::Enqueue(tracks);
            let after = after_command(player, command, answers);
            &&& after.queue.tracks == tracks@
            &&& after.queue.current() == Some(tracks@[0])
            &&& seen_of_command(player, command, answers) == seq![Event::Queue(tracks@)]
                + seen_of_play(after.queue, answers)
            &&& answers.loaded is Ok ==> after.mode == LoopState::Playing
        }),
{
    law_transcript_of_commands(player, PlayerCommand::Enqueue(tracks), answers);
    assert(player.queue.tracks + tracks@ =~= tracks@);
}

/// `SetQueue` with a list that holds the current track calls no backend and reports no state:
/// the track stays current and goes on as it was.
pub proof fn law_set_queue_keeps_a_surviving_track(
    player: PlayerView,
    tracks: Vec<Track>,
    answers: Answers,
)
    requires
        player.wf(),
        player.idle(),
        player.queue.current() is Some,
        has_id(tracks@, player.queue.current().unwrap().id),
    ensures
        ({
            let command = PlayerCommand::SetQueue(tracks);
            let after = after_command(player, command, answers);
            &&& after.mode == player.mode
            &&& after.queue.tracks == tracks@
            &&& is_first_with_id(tracks@, player.queue.current().unwrap().id, after.queue.cursor)
            &&& seen_of_command(player, command, answers) == seq![Event::Queue(tracks@)]
        }),
{
    law_transcript_of_commands(player, PlayerCommand::SetQueue(tracks), answers);
    lemma_first_with_id(tracks@, player.queue.current().unwrap().id);
}

/// `SetQueue` with a list that lacks the current track stops playback, as `Stop` does.
pub proof fn law_set_queue_stops_a_pruned_track(
    player: PlayerView,
    tracks: Vec<Track>,
    answers: Answers,
)
    requires
        player.wf(),
        player.idle(),
        player.queue.current() is Some,
        !has_id(tracks@, player.queue.current().unwrap().id),
    ensures
        after_command(player, PlayerCommand::SetQueue(tracks), answers) == after_command(
            player,
            PlayerCommand::Stop,
            answers,
        ),
        seen_of_command(player, PlayerCommand::SetQueue(tracks), answers) == seen_of_command(
            player,
            PlayerCommand::Stop,
            answers,
        ),
{
    law_transcript_of_commands(player, PlayerCommand::SetQueue(tracks), answers);
    law_transcript_of_commands(player, PlayerCommand::Stop, answers);
    lemma_first_with_id(tracks@, player.queue.current().unwrap().id);
}

/// `Stop` takes the player back to where it started, silences the backend, and reports the
/// empty list and the stop.
pub proof fn law_stop_clears_everything(player: PlayerView, answers: Answers)
    requires
        player.wf(),
        player.idle(),
    ensures
        after_command(player, PlayerCommand::Stop, answers) == PlayerView::fresh(),
        seen_of_command(player, PlayerCommand::Stop, answers) == seen_of_stop(),
{
    law_transcript_of_commands(player, PlayerCommand::Stop, answers);
}

/// With a source loaded, `Pause` reports the current track as paused where the play head is,
/// and `Resume` after it takes a playing player back to where it was. It reports the track as
/// playing, unless the backend is idle and there was nothing to resume.
pub proof fn law_resume_undoes_pause(player: PlayerView, pausing: Answers, resuming: Answers)
    requires
        player.wf(),
        player.idle(),
        player.mode == LoopState::Playing,
    ensures
        ({
            let paused = after_command(player, PlayerCommand::Pause, pausing);
            let resumed = seen_of_command(paused, PlayerCommand::Resume, resuming);
            let track = player.queue.current().unwrap().id;
            &&& paused.mode == LoopState::Paused
            &&& paused.queue == player.queue
            &&& seen_of_command(player, PlayerCommand::Pause, pausing).last() == Event::State(
                StateView::Paused { track, position: play_head(pausing) },
            )
            &&& after_command(paused, PlayerCommand::Resume, resuming) == player
            &&& resuming.state != BackendState::Idle ==> resumed.last() == Event::State(
                StateView::Playing { track, position: play_head(resuming) },
            )
            &&& resuming.state == BackendState::Idle ==> resumed == seq![
                Event::Call(BackendCall::Resume),
                Event::Call(BackendCall::State),
            ]
        }),
{
    let paused = after_command(player, PlayerCommand::Pause, pausing);
    law_transcript_of_commands(player, PlayerCommand::Pause, pausing);
    law_commands_settle(player, PlayerCommand::Pause, pausing);
    law_transcript_of_commands(paused, PlayerCommand::Resume, resuming);
    assert(after_command(paused, PlayerCommand::Resume, resuming) =~= player);
}

/// A resume is reported as playing only if the backend was asked what it is doing and was not
/// idle: it never claims audio that isn't there.
pub proof fn law_a_resume_is_checked_before_it_is_reported(
    player: PlayerView,
    answers: Answers,
    i: int,
)
    requires
        player.wf(),
        player.idle(),
        0 <= i < seen_of_command(player, PlayerCommand::Resume, answers).len(),
        seen_of_command(player, PlayerCommand::Resume, answers)[i] is State,
    ensures
        player.mode != LoopState::Empty,
        answers.state != BackendState::Idle,
        seen_of_command(player, PlayerCommand::Resume, answers).take(i).contains(
            Event::Call(BackendCall::State),
        ),
{
    law_transcript_of_commands(player, PlayerCommand::Resume, answers);
    let seen = seen_of_command(player, PlayerCommand::Resume, answers);
    assert(seen.take(i)[1] == Event::Call(BackendCall::State));
}

/// A resume on a source that has ended is followed by the next track, or by a stop, on the
/// next tick: the clock goes on to tick, and the end is noticed and reported.
pub proof fn law_an_idle_resume_is_noticed_by_the_next_tick(
    player: PlayerView,
    resuming: Answers,
    ticking: Answers,
    known: StateView,
)
    requires
        player.wf(),
        player.idle(),
        player.mode != LoopState::Empty,
        resuming.state == BackendState::Idle,
        ticking.state == BackendState::Idle,
    ensures
        ({
            let resumed = after_command(player, PlayerCommand::Resume, resuming);
            let after = after_tick(resumed, ticking);
            &&& resumed.mode == LoopState::Playing
            &&& resumed.queue == player.queue
            &&& after.queue == (if player.queue.has_next() {
                player.queue.advanced()
            } else {
                QueueView::empty()
            })
            &&& agrees(last_state(seen_of_tick(resumed, ticking), known), after)
        }),
{
    law_transcript_of_commands(player, PlayerCommand::Resume, resuming);
    law_commands_settle(player, PlayerCommand::Resume, resuming);
    let resumed = after_command(player, PlayerCommand::Resume, resuming);
    law_transcript_of_ticks(resumed, ticking);
    assert(seen_of_tick(resumed, ticking).last() is State);
    law_a_told_state_is_what_is_believed_of_ticks(resumed, ticking, known);
}

/// An empty list in the place of a queue that is playing or paused stops playback, as `Stop`
/// does; with nothing loaded the empty list is all that is reported.
pub proof fn law_an_empty_list_stops(
    player: PlayerView,
    command: PlayerCommand,
    answers: Answers,
)
    requires
        player.wf(),
        player.idle(),
        match command {
            PlayerCommand::PlayQueue { tracks, .. } => tracks@.len() == 0,
            PlayerCommand::RestorePaused { tracks, .. } => tracks@.len() == 0,
            _ => false,
        },
    ensures
        after_command(player, command, answers) == PlayerView::fresh(),
        seen_of_command(player, command, answers) == (if player.mode == LoopState::Empty {
            seq![Event::Queue(Seq::empty())]
        } else {
            seen_of_stop()
        }),
{
    law_transcript_of_commands(player, command, answers);
    assert(after_command(player, command, answers) =~= PlayerView::fresh());
    assert(seen_of_command(player, command, answers) =~= (if player.mode == LoopState::Empty {
        seq![Event::Queue(Seq::empty())]
    } else {
        seen_of_stop()
    }));
}

/// With a source loaded, `Seek` moves the play head and reports the new position at once,
/// and the track stays playing or paused as it was.
pub proof fn law_seek_reports_the_new_position(
    player: PlayerView,
    position: SeekPosition,
    answers: Answers,
)
    requires
        player.wf(),
        player.idle(),
        player.mode != LoopState::Empty,
    ensures
        ({
            let command = PlayerCommand::Seek(position);
            let track = player.queue.current().unwrap().id;
            &&& after_command(player, command, answers) == player
            &&& seen_of_command(player, command, answers) == seq![
                Event::Call(BackendCall::Seek(position@)),
                Event::State(
                    if player.mode == LoopState::Playing {
                        StateView::Playing { track, position: position@ }
                    } else {
                        StateView::Paused { track, position: position@ }
                    },
                ),
            ]
        }),
{
    law_transcript_of_commands(player, PlayerCommand::Seek(position), answers);
}

/// `RestorePaused` loads the track at `start` and reports it as paused at `position`; nothing
/// is played.
pub proof fn law_restore_reopens_paused(
    player: PlayerView,
    tracks: Vec<Track>,
    start: usize,
    position: SeekPosition,
    answers: Answers,
)
    requires
        player.wf(),
        player.idle(),
        start < tracks@.len(),
        answers.loaded is Ok,
    ensures
        ({
            let command = PlayerCommand::RestorePaused { tracks, start, position };
            let track = tracks@[start as int];
            &&& after_command(player, command, answers).mode == LoopState::Paused
            &&& after_command(player, command, answers).queue == (QueueView {
                tracks: tracks@,
                cursor: start as int,
            })
            &&& seen_of_command(player, command, answers) == seq![
                Event::Queue(tracks@),
                Event::Call(BackendCall::PlayPaused(track.path@, position@)),
                Event::State(StateView::Paused { track: track.id, position: position@ }),
            ]
        }),
{
    let command = PlayerCommand::RestorePaused { tracks, start, position };
    law_transcript_of_commands(player, command, answers);
    let track = tracks@[start as int];
    assert(seen_of_command(player, command, answers) =~= seq![
        Event::Queue(tracks@),
        Event::Call(BackendCall::PlayPaused(track.path@, position@)),
        Event::State(StateView::Paused { track: track.id, position: position@ }),
    ]);
}

/// Something that happens to a player, with what the backend answers.
pub enum Input {
    Command(PlayerCommand, Answers),
    Tick(Answers),
}

/// A player to which all of `inputs` happened in turn, from its start.
pub open spec fn after_all(inputs: Seq<Input>) -> PlayerView
    decreases inputs.len(),
{
    if inputs.len() == 0 {
        PlayerView::fresh()
    } else {
        let player = after_all(inputs.drop_last());
        match inputs.last() {
            Input::Command(command, answers) => after_command(player, command, answers),
            Input::Tick(answers) => after_tick(player, answers),
        }
    }
}

/// What is seen of a player to which all of `inputs` happened in turn, from its start.
pub open spec fn seen_of_all(inputs: Seq<Input>) -> Seq<Event>
    decreases inputs.len(),
{
    if inputs.len() == 0 {
        Seq::empty()
    } else {
        let player = after_all(inputs.drop_last());
        seen_of_all(inputs.drop_last()) + match inputs.last() {
            Input::Command(command, answers) => seen_of_command(player, command, answers),
            Input::Tick(answers) => seen_of_tick(player, answers),
        }
    }
}

/// What a listener knows after `first` and `second` is what it knows after `second`, having
/// heard `first`.
proof fn lemma_last_queue_of_both(first: Seq<Event>, second: Seq<Event>, known: Seq<Track>)
    ensures
        last_queue(first + second, known) == last_queue(second, last_queue(first, known)),
    decreases second.len(),
{
    if second.len() == 0 {
        assert(first + second =~= first);
    } else {
        assert((first + second).last() == second.last());
        assert((first + second).drop_last() =~= first + second.drop_last());
        lemma_last_queue_of_both(first, second.drop_last(), known);
    }
}

/// Whatever happens to a player: it stays sound and comes to rest; a source is believed
/// loaded only while there is a current track; and the last track list that was reported is
/// the queue's.
pub proof fn law_every_history_is_sound(inputs: Seq<Input>)
    ensures
        after_all(inputs).wf(),
        after_all(inputs).idle(),
        after_all(inputs).mode != LoopState::Empty ==> after_all(inputs).queue.current() is Some,
        last_queue(seen_of_all(inputs), Seq::empty()) == after_all(inputs).queue.tracks,
    decreases inputs.len(),
{
    if inputs.len() > 0 {
        law_every_history_is_sound(inputs.drop_last());
        let player = after_all(inputs.drop_last());
        let seen = seen_of_all(inputs.drop_last());
        match inputs.last() {
            Input::Command(command, answers) => {
                law_commands_settle(player, command, answers);
                law_queue_reports_are_in_step(player, command, answers);
                lemma_last_queue_of_both(
                    seen,
                    seen_of_command(player, command, answers),
                    Seq::empty(),
                );
            },
            Input::Tick(answers) => {
                law_ticks_settle(player, answers);
                law_queue_reports_are_in_step_with_ticks(player, answers);
                lemma_last_queue_of_both(seen, seen_of_tick(player, answers), Seq::empty());
            },
        }
    }
}

/// What a listener knows after `first` and `second` is what it knows after `second`, having
/// heard `first`.
proof fn lemma_last_state_of_both(first: Seq<Event>, second: Seq<Event>, known: StateView)
    ensures
        last_state(first + second, known) == last_state(second, last_state(first, known)),
    decreases second.len(),
{
    if second.len() == 0 {
        assert(first + second =~= first);
    } else {
        assert((first + second).last() == second.last());
        assert((first + second).drop_last() =~= first + second.drop_last());
        lemma_last_state_of_both(first, second.drop_last(), known);
    }
}

/// Since the start, or since the last command or tick that told a state, no resume found
/// nothing to resume and the backend was not paused behind the player's back.
pub open spec fn regular(inputs: Seq<Input>) -> bool
    decreases inputs.len(),
{
    inputs.len() == 0 || {
        let player = after_all(inputs.drop_last());
        match inputs.last() {
            Input::Command(command, answers) => {
                ||| tells_state(seen_of_command(player, command, answers))
                ||| regular(inputs.drop_last()) && !resumes_nothing(player, command, answers)
            },
            Input::Tick(answers) => {
                ||| tells_state(seen_of_tick(player, answers))
                ||| regular(inputs.drop_last()) && !pauses_silently(player, answers)
            },
        }
    }
}

/// A listener who takes playback for stopped at first and follows the reports knows what the
/// player believes, after every regular history.
pub proof fn law_every_regular_history_is_reported(inputs: Seq<Input>)
    requires
        regular(inputs),
    ensures
        agrees(last_state(seen_of_all(inputs), StateView::Stopped), after_all(inputs)),
    decreases inputs.len(),
{
    if inputs.len() > 0 {
        law_every_history_is_sound(inputs.drop_last());
        let player = after_all(inputs.drop_last());
        let seen = seen_of_all(inputs.drop_last());
        let known = last_state(seen, StateView::Stopped);
        match inputs.last() {
            Input::Command(command, answers) => {
                if tells_state(seen_of_command(player, command, answers)) {
                    law_a_told_state_is_what_is_believed(player, command, answers, known);
                } else {
                    law_every_regular_history_is_reported(inputs.drop_last());
                    law_state_reports_are_in_step(player, command, answers, known);
                }
                lemma_last_state_of_both(
                    seen,
                    seen_of_command(player, command, answers),
                    StateView::Stopped,
                );
            },
            Input::Tick(answers) => {
                if tells_state(seen_of_tick(player, answers)) {
                    law_a_told_state_is_what_is_believed_of_ticks(player, answers, known);
                } else {
                    law_every_regular_history_is_reported(inputs.drop_last());
                    law_state_reports_are_in_step_with_ticks(player, answers, known);
                }
                lemma_last_state_of_both(
                    seen,
                    seen_of_tick(player, answers),
                    StateView::Stopped,
                );
            },
        }
    }
}

/// The track list never lags behind the playback state, whatever happens to a player: when a
/// state is reported that is about a track, the list that was reported last holds the track.
pub proof fn law_no_state_is_ahead_of_the_track_list(inputs: Seq<Input>, i: int)
    requires
        0 <= i < seen_of_all(inputs).len(),
    ensures
        match seen_of_all(inputs)[i] {
            Event::State(state) => state.current_track() matches Some(id) ==> has_id(
                last_queue(seen_of_all(inputs).take(i), Seq::empty()),
                id,
            ),
            _ => true,
        },
    decreases inputs.len(),
{
    let player = after_all(inputs.drop_last());
    let seen = seen_of_all(inputs.drop_last());
    law_every_history_is_sound(inputs.drop_last());
    if i < seen.len() {
        law_no_state_is_ahead_of_the_track_list(inputs.drop_last(), i);
        assert(seen_of_all(inputs).take(i) =~= seen.take(i));
    } else {
        let j = i - seen.len();
        match inputs.last() {
            Input::Command(command, answers) => {
                let more = seen_of_command(player, command, answers);
                assert(seen_of_all(inputs).take(i) =~= seen + more.take(j));
                lemma_last_queue_of_both(seen, more.take(j), Seq::empty());
                if more[j] is State {
                    law_queue_reports_come_before_states(player, command, answers, j);
                }
            },
            Input::Tick(answers) => {
                let more = seen_of_tick(player, answers);
                assert(seen_of_all(inputs).take(i) =~= seen + more.take(j));
                lemma_last_queue_of_both(seen, more.take(j), Seq::empty());
                if more[j] is State {
                    law_queue_reports_come_before_states_of_ticks(player, answers, j);
                }
            },
        }
    }
}

} // verus!
