//! Playback positions, and the facts about `std::time::Duration` that they rest on.

use std::cmp::Ordering;
use std::time::Duration;
use vstd::prelude::*;
use vstd::std_specs::cmp::{PartialEqSpec, PartialOrdSpec};

verus! {

/// What `Duration::as_nanos` returns: the length of the duration in nanoseconds.
pub uninterp spec fn duration_nanos(d: Duration) -> u128;

/// `Duration::as_nanos` returns the number that `duration_nanos` names.
pub assume_specification[ Duration::as_nanos ](d: &Duration) -> (nanos: u128)
    ensures
        nanos == duration_nanos(*d),
;

/// `Duration::new` makes a duration of that many whole seconds and additional
/// nanoseconds. Nanoseconds that add up to a second or more would carry over into the
/// seconds, where they can overflow, and are left out.
pub assume_specification[ Duration::new ](secs: u64, nanos: u32) -> (d: Duration)
    requires
        nanos < 1_000_000_000,
    ensures
        duration_nanos(d) == secs * 1_000_000_000 + nanos,
;

/// Playback position within a track. Always non-negative.
#[derive(Debug, Clone, Copy, Eq, Ord)]
pub struct SeekPosition {
    secs: u64,
    nanos: u32,
}

/// A position is seen as its distance from the start of the track, in nanoseconds.
impl View for SeekPosition {
    type V = nat;

    closed spec fn view(&self) -> nat {
        (self.secs * 1_000_000_000 + self.nanos) as nat
    }
}

/// Where a position reported for a play head `nanos` from the start lies: cut to whole
/// milliseconds, of which the low 64 bits are kept.
pub open spec fn reported_position(nanos: nat) -> nat {
    (nanos / 1_000_000) % 0x1_0000_0000_0000_0000 * 1_000_000
}

impl SeekPosition {
    #[verifier::type_invariant]
    spec fn normalized(self) -> bool {
        self.nanos < 1_000_000_000
    }

    pub fn from_secs(secs: u64) -> (position: Self)
        ensures
            position@ == secs * 1_000_000_000,
    {
        SeekPosition { secs, nanos: 0 }
    }

    pub fn from_millis(millis: u64) -> (position: Self)
        ensures
            position@ == millis * 1_000_000,
    {
        let below: u64 = millis % 1_000;
        SeekPosition { secs: millis / 1_000, nanos: below as u32 * 1_000_000 }
    }

    /// The position to report for a play head at `head`.
    pub fn from_play_head(head: Duration) -> (position: Self)
        ensures
            position@ == reported_position(duration_nanos(head) as nat),
            position@ % 1_000_000 == 0,
            position@ < 18_446_744_073_709_551_616_000_000,
            position@ <= duration_nanos(head),
            (duration_nanos(head) - position@) % 18_446_744_073_709_551_616_000_000 < 1_000_000,
            duration_nanos(head) < 18_446_744_073_709_551_616_000_000 ==> position@
                <= duration_nanos(head) < position@ + 1_000_000,
    {
        proof {
            law_reported_positions_are_exact_to_the_millisecond(duration_nanos(head) as nat);
        }
        let millis: u128 = head.as_nanos() / 1_000_000;
        let low: u64 = #[verifier::truncate] (millis as u64);
        assert(low == millis % 0x1_0000_0000_0000_0000) by (bit_vector)
            requires
                low == millis as u64,
        ;
        Self::from_millis(low)
    }

    pub fn as_duration(self) -> (d: Duration)
        ensures
            duration_nanos(d) == self@,
    {
        proof {
            use_type_invariant(&self);
        }
        Duration::new(self.secs, self.nanos)
    }

    /// Whole seconds from the start of the track.
    pub fn as_secs(self) -> (secs: u64)
        ensures
            secs == self@ / 1_000_000_000,
    {
        proof {
            use_type_invariant(&self);
        }
        self.secs
    }

    pub fn zero() -> (position: Self)
        ensures
            position@ == 0,
    {
        SeekPosition { secs: 0, nanos: 0 }
    }
}

impl Default for SeekPosition {
    fn default() -> (position: Self)
        ensures
            position@ == 0,
    {
        Self::zero()
    }
}

/// Positions are equal when they are the same distance from the start of the track.
impl PartialEq for SeekPosition {
    fn eq(&self, other: &Self) -> (r: bool) {
        proof {
            use_type_invariant(self);
            use_type_invariant(other);
        }
        self.secs == other.secs && self.nanos == other.nanos
    }
}

impl vstd::std_specs::cmp::PartialEqSpecImpl for SeekPosition {
    open spec fn obeys_eq_spec() -> bool {
        true
    }

    open spec fn eq_spec(&self, other: &Self) -> bool {
        self@ == other@
    }
}

/// Positions are ordered by their distance from the start of the track.
impl PartialOrd for SeekPosition {
    fn partial_cmp(&self, other: &Self) -> (r: Option<Ordering>) {
        proof {
            use_type_invariant(self);
            use_type_invariant(other);
        }
        if self.secs < other.secs {
            Some(Ordering::Less)
        } else if self.secs > other.secs {
            Some(Ordering::Greater)
        } else if self.nanos < other.nanos {
            Some(Ordering::Less)
        } else if self.nanos == other.nanos {
            Some(Ordering::Equal)
        } else {
            Some(Ordering::Greater)
        }
    }
}

impl vstd::std_specs::cmp::PartialOrdSpecImpl for SeekPosition {
    open spec fn obeys_partial_cmp_spec() -> bool {
        true
    }

    open spec fn partial_cmp_spec(&self, other: &Self) -> Option<Ordering> {
        if self@ < other@ {
            Some(Ordering::Less)
        } else if self@ == other@ {
            Some(Ordering::Equal)
        } else {
            Some(Ordering::Greater)
        }
    }
}

/// A play head is reported to the millisecond: a whole number of milliseconds that it has
/// reached, and by less than one more. Of a play head beyond the milliseconds that 64 bits
/// hold, what goes beyond is dropped in whole rounds of that range.
pub proof fn law_reported_positions_are_exact_to_the_millisecond(nanos: nat)
    ensures
        reported_position(nanos) % 1_000_000 == 0,
        reported_position(nanos) < 18_446_744_073_709_551_616_000_000,
        reported_position(nanos) <= nanos,
        (nanos - reported_position(nanos)) % 18_446_744_073_709_551_616_000_000 < 1_000_000,
        nanos < 18_446_744_073_709_551_616_000_000 ==> reported_position(nanos) <= nanos
            < reported_position(nanos) + 1_000_000,
{
    let millis = nanos / 1_000_000;
    let rounds = millis / 0x1_0000_0000_0000_0000;
    assert(nanos - reported_position(nanos) == rounds * 18_446_744_073_709_551_616_000_000 + nanos
        % 1_000_000);
}

/// Positions can be compared: what `==`, `<` and their kin give is what the laws below say.
pub proof fn law_positions_compare_by_time(a: SeekPosition, b: SeekPosition)
    ensures
        SeekPosition::obeys_eq_spec(),
        SeekPosition::obeys_partial_cmp_spec(),
        a.eq_spec(&b) <==> a@ == b@,
        a.partial_cmp_spec(&b) == Some(Ordering::Less) <==> a@ < b@,
        a.partial_cmp_spec(&b) == Some(Ordering::Equal) <==> a@ == b@,
        a.partial_cmp_spec(&b) == Some(Ordering::Greater) <==> a@ > b@,
{
}

/// Positions made from seconds are ordered as the seconds are, and equal when they are.
pub proof fn law_order_reflects_time(a: SeekPosition, b: SeekPosition, a_secs: u64, b_secs: u64)
    requires
        a@ == a_secs * 1_000_000_000,
        b@ == b_secs * 1_000_000_000,
    ensures
        a.partial_cmp_spec(&b) == Some(Ordering::Less) <==> a_secs < b_secs,
        a.partial_cmp_spec(&b) == Some(Ordering::Equal) <==> a_secs == b_secs,
        a.eq_spec(&b) <==> a_secs == b_secs,
{
}

/// A position made from milliseconds is that many of them and no fraction more; whole seconds
/// of them make the same position as the seconds do.
pub proof fn law_milliseconds_are_exact(
    position: SeekPosition,
    millis: u64,
    from_secs: SeekPosition,
    secs: u64,
)
    requires
        position@ == millis * 1_000_000,
        from_secs@ == secs * 1_000_000_000,
    ensures
        position@ / 1_000_000 == millis,
        position@ % 1_000_000 == 0,
        position@ / 1_000_000_000 == millis / 1_000,
        position.eq_spec(&from_secs) <==> millis == secs * 1_000,
{
}

/// A position and its duration are the same time: durations compare as their positions do,
/// and nothing is rounded away.
pub proof fn law_durations_keep_the_time(
    a: SeekPosition,
    b: SeekPosition,
    a_duration: Duration,
    b_duration: Duration,
)
    requires
        duration_nanos(a_duration) == a@,
        duration_nanos(b_duration) == b@,
    ensures
        a.eq_spec(&b) <==> duration_nanos(a_duration) == duration_nanos(b_duration),
        a.partial_cmp_spec(&b) == Some(Ordering::Less) <==> duration_nanos(a_duration)
            < duration_nanos(b_duration),
        a@ / 1_000_000_000 == duration_nanos(a_duration) / 1_000_000_000,
{
}

/// No position is before the start of the track, and every position at no distance from it
/// is that one.
pub proof fn law_zero_is_the_first_position(zero: SeekPosition, other: SeekPosition)
    requires
        zero@ == 0,
    ensures
        zero.partial_cmp_spec(&other) != Some(Ordering::Greater),
        zero.eq_spec(&other) <==> other@ == 0,
{
}

/// Whole seconds survive the way into a position and back.
pub proof fn law_whole_seconds_round_trip(position: SeekPosition, secs: u64)
    requires
        position@ == secs * 1_000_000_000,
    ensures
        position@ / 1_000_000_000 == secs,
{
}

} // verus!
