//! Who hears the player's reports.

use crate::state::PlaybackState;
use crate::track::Track;
use crate::transcript::Event;
use vstd::prelude::*;

verus! {

/// Hears what the player reports.
///
/// Nothing is assumed of an implementation: `hears` stands for whatever its methods do, admits
/// everything unless an implementation says more, and serves to say which reports are made.
pub trait Listener: Sized {
    /// A listener in state `before` that is told of `event` may be in state `after`.
    open spec fn hears(before: Self, event: Event, after: Self) -> bool {
        true
    }

    /// A playback state is reported.
    fn on_state(&mut self, state: PlaybackState)
        ensures
            Self::hears(*old(self), Event::State(state@), *final(self)),
    ;

    /// The track list of the queue is reported.
    fn on_queue_changed(&mut self, tracks: Vec<Track>)
        ensures
            Self::hears(*old(self), Event::Queue(tracks@), *final(self)),
    ;
}

/// The listener was told of the reports among `events`, of each once, in their order, and of
/// nothing else: `listeners` are the states that it went through.
pub open spec fn all_heard<L: Listener>(events: Seq<Event>, listeners: Seq<L>) -> bool {
    &&& listeners.len() == events.len() + 1
    &&& forall|i: int|
        0 <= i < events.len() ==> match #[trigger] events[i] {
            Event::Call(_) => listeners[i + 1] == listeners[i],
            event => L::hears(listeners[i], event, listeners[i + 1]),
        }
}

/// Where nothing is reported, the listener is left alone.
pub proof fn law_silence_is_not_heard<L: Listener>(events: Seq<Event>, listeners: Seq<L>)
    requires
        all_heard(events, listeners),
        forall|i: int| 0 <= i < events.len() ==> (#[trigger] events[i]) is Call,
    ensures
        listeners.last() == listeners[0],
    decreases events.len(),
{
    if events.len() > 0 {
        assert(events.last() is Call);
        assert(all_heard(events.drop_last(), listeners.drop_last())) by {
            assert forall|i: int| 0 <= i < events.len() - 1 implies match (
            #[trigger] events.drop_last()[i]) {
                Event::Call(_) => listeners.drop_last()[i + 1] == listeners.drop_last()[i],
                event => L::hears(
                    listeners.drop_last()[i],
                    event,
                    listeners.drop_last()[i + 1],
                ),
            } by {
                assert(events.drop_last()[i] == events[i]);
            }
        }
        law_silence_is_not_heard(events.drop_last(), listeners.drop_last());
    }
}

/// Hands the states to one callback and the track lists to another.
///
/// That a callback is called with each report is stated. That it is called only once for it is
/// left unsaid: a callback that is an `Fn` keeps no record of its calls.
pub struct Callbacks<F: Fn(PlaybackState), G: Fn(Vec<Track>)> {
    state: F,
    queue: G,
}

impl<F: Fn(PlaybackState), G: Fn(Vec<Track>)> Callbacks<F, G> {
    #[verifier::type_invariant]
    spec fn take_everything(self) -> bool {
        &&& forall|state: PlaybackState| self.state.requires((state,))
        &&& forall|tracks: Vec<Track>| self.queue.requires((tracks,))
    }

    /// What the states are handed to.
    pub closed spec fn state_callback(self) -> F {
        self.state
    }

    /// What the track lists are handed to.
    pub closed spec fn queue_callback(self) -> G {
        self.queue
    }

    pub fn new(on_state: F, on_queue_changed: G) -> (callbacks: Self)
        requires
            forall|state: PlaybackState| on_state.requires((state,)),
            forall|tracks: Vec<Track>| on_queue_changed.requires((tracks,)),
        ensures
            callbacks.state_callback() == on_state,
            callbacks.queue_callback() == on_queue_changed,
    {
        Callbacks { state: on_state, queue: on_queue_changed }
    }
}

impl<F: Fn(PlaybackState), G: Fn(Vec<Track>)> Listener for Callbacks<F, G> {
    /// The callback is called with the report, and both callbacks stay what they are.
    open spec fn hears(before: Self, event: Event, after: Self) -> bool {
        &&& after == before
        &&& match event {
            Event::State(told) => exists|state: PlaybackState| #[trigger]
                state@ == told && before.state_callback().ensures((state,), ()),
            Event::Queue(told) => exists|tracks: Vec<Track>| #[trigger]
                tracks@ == told && before.queue_callback().ensures((tracks,), ()),
            Event::Call(_) => true,
        }
    }

    fn on_state(&mut self, state: PlaybackState) {
        proof {
            use_type_invariant(&*self);
        }
        (self.state)(state);
    }

    fn on_queue_changed(&mut self, tracks: Vec<Track>) {
        proof {
            use_type_invariant(&*self);
        }
        (self.queue)(tracks);
    }
}

} // verus!
