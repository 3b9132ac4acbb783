//! Playback volume, held as the bit pattern of an IEEE 754 single-precision number.

use std::cmp::Ordering;
use vstd::arithmetic::power2::{lemma_pow2_adds, lemma_pow2_pos, lemma_pow2_strictly_increases, pow2};
use vstd::prelude::*;
use vstd::std_specs::cmp::{PartialEqSpec, PartialOrdSpec};

verus! {

/// The biased exponent field of a single-precision bit pattern.
pub open spec fn exponent_field(bits: u32) -> int {
    (bits as int / 0x80_0000) % 0x100
}

/// The fraction field of a single-precision bit pattern.
pub open spec fn fraction_field(bits: u32) -> int {
    bits as int % 0x80_0000
}

/// The pattern stands for a number, and not for an infinity or a NaN.
pub open spec fn is_finite(bits: u32) -> bool {
    exponent_field(bits) != 0xff
}

/// The absolute value of a finite pattern, in units of 2^-149, the smallest
/// positive single-precision number.
pub open spec fn magnitude(bits: u32) -> int {
    if exponent_field(bits) == 0 {
        fraction_field(bits)
    } else {
        (0x80_0000 + fraction_field(bits)) * pow2((exponent_field(bits) - 1) as nat)
    }
}

/// The value of a finite pattern, in units of 2^-149.
pub open spec fn scaled_value(bits: u32) -> int {
    if bits >= 0x8000_0000 {
        -magnitude(bits)
    } else {
        magnitude(bits)
    }
}

/// The pattern stands for a number in [0.0, 1.0].
pub open spec fn in_unit_interval(bits: u32) -> bool {
    is_finite(bits) && 0 <= scaled_value(bits) <= pow2(149)
}

/// The patterns in [0.0, 1.0] are those from positive zero up to one, and negative zero.
pub proof fn law_unit_interval_patterns(bits: u32)
    ensures
        in_unit_interval(bits) <==> bits <= 0x3f80_0000 || bits == 0x8000_0000,
{
    let e = exponent_field(bits);
    let m = fraction_field(bits);
    lemma_pow2_adds(23, 126);
    lemma_pow2_pos(126);
    vstd::arithmetic::power2::lemma2_to64();
    assert(pow2(149) == 0x80_0000 * pow2(126));
    if e > 0 {
        let p = pow2((e - 1) as nat);
        lemma_pow2_pos((e - 1) as nat);
        assert((0x80_0000 + m) * p >= 0x80_0000 * p) by (nonlinear_arith)
            requires
                m >= 0,
                p >= 0,
        ;
        if e < 127 {
            assert((0x80_0000 + m) * p < 0x100_0000 * p) by (nonlinear_arith)
                requires
                    m < 0x80_0000,
                    p > 0,
            ;
            vstd::arithmetic::power2::lemma_pow2_unfold(e as nat);
            if e < 126 {
                lemma_pow2_strictly_increases(e as nat, 126);
            }
            assert(0x100_0000 * p == 0x80_0000 * pow2(e as nat));
        } else if e == 127 {
            assert((0x80_0000 + m) * p == 0x80_0000 * p + m * p) by (nonlinear_arith);
            assert(m > 0 ==> m * p > 0) by (nonlinear_arith)
                requires
                    p > 0,
            ;
        } else {
            lemma_pow2_strictly_increases(126, (e - 1) as nat);
        }
    }
}

/// The pattern stands for no number at all.
pub open spec fn is_nan(bits: u32) -> bool {
    exponent_field(bits) == 0xff && fraction_field(bits) != 0
}

/// The patterns compare as equal: they stand for the same number or for the same infinity. A
/// NaN equals nothing, not even itself.
pub open spec fn equal_patterns(a: u32, b: u32) -> bool {
    if is_finite(a) && is_finite(b) {
        scaled_value(a) == scaled_value(b)
    } else {
        a == b && !is_nan(a)
    }
}

/// Among nonnegative finite patterns, the larger pattern is the larger number.
proof fn lemma_patterns_are_ordered(a: u32, b: u32)
    requires
        a < b < 0x7f80_0000,
    ensures
        scaled_value(a) < scaled_value(b),
{
    let ea = exponent_field(a);
    let eb = exponent_field(b);
    let ma = fraction_field(a);
    let mb = fraction_field(b);
    if eb > 0 {
        let pb = pow2((eb - 1) as nat);
        lemma_pow2_pos((eb - 1) as nat);
        assert((0x80_0000 + mb) * pb >= 0x80_0000 * pb) by (nonlinear_arith)
            requires
                mb >= 0,
                pb >= 0,
        ;
        if ea == eb {
            assert((0x80_0000 + ma) * pb < (0x80_0000 + mb) * pb) by (nonlinear_arith)
                requires
                    ma < mb,
                    pb > 0,
            ;
        } else if ea > 0 {
            let pa = pow2((ea - 1) as nat);
            lemma_pow2_pos((ea - 1) as nat);
            assert((0x80_0000 + ma) * pa < 0x100_0000 * pa) by (nonlinear_arith)
                requires
                    ma < 0x80_0000,
                    pa > 0,
            ;
            vstd::arithmetic::power2::lemma_pow2_unfold(ea as nat);
            if ea < eb - 1 {
                lemma_pow2_strictly_increases(ea as nat, (eb - 1) as nat);
            }
        }
    }
}

/// A pattern without its sign.
fn without_sign(bits: u32) -> (r: u32)
    ensures
        r < 0x8000_0000,
        bits == r || bits == r + 0x8000_0000,
        exponent_field(r) == exponent_field(bits),
        fraction_field(r) == fraction_field(bits),
{
    if bits >= 0x8000_0000 {
        bits - 0x8000_0000
    } else {
        bits
    }
}

/// Finite patterns that differ are different numbers, but for the zeros of both signs.
proof fn lemma_finite_patterns_differ(a: u32, a_unsigned: u32, b: u32, b_unsigned: u32)
    requires
        a == a_unsigned || a == a_unsigned + 0x8000_0000,
        b == b_unsigned || b == b_unsigned + 0x8000_0000,
        a_unsigned < 0x7f80_0000,
        b_unsigned < 0x7f80_0000,
    ensures
        scaled_value(a) == scaled_value(b) <==> a == b || (a_unsigned == 0 && b_unsigned == 0),
{
    assert(magnitude(a) == scaled_value(a_unsigned));
    assert(magnitude(b) == scaled_value(b_unsigned));
    if a_unsigned > 0 {
        lemma_patterns_are_ordered(0, a_unsigned);
    }
    if b_unsigned > 0 {
        lemma_patterns_are_ordered(0, b_unsigned);
    }
    if a_unsigned < b_unsigned {
        lemma_patterns_are_ordered(a_unsigned, b_unsigned);
    }
    if b_unsigned < a_unsigned {
        lemma_patterns_are_ordered(b_unsigned, a_unsigned);
    }
}

/// Why a player value was refused.
#[derive(Debug)]
pub enum PlayerError {
    /// The refused volume, as a single-precision bit pattern.
    VolumeOutOfRange(u32),
}

/// Two errors are equal when the refused values compare as equal, which a NaN never does.
impl PartialEq for PlayerError {
    fn eq(&self, other: &Self) -> (r: bool) {
        let PlayerError::VolumeOutOfRange(a) = *self;
        let PlayerError::VolumeOutOfRange(b) = *other;
        let a_unsigned: u32 = without_sign(a);
        let b_unsigned: u32 = without_sign(b);
        proof {
            if a_unsigned < 0x7f80_0000 && b_unsigned < 0x7f80_0000 {
                lemma_finite_patterns_differ(a, a_unsigned, b, b_unsigned);
            }
        }
        (a == b && a_unsigned <= 0x7f80_0000) || (a_unsigned == 0 && b_unsigned == 0)
    }
}

impl vstd::std_specs::cmp::PartialEqSpecImpl for PlayerError {
    open spec fn obeys_eq_spec() -> bool {
        true
    }

    open spec fn eq_spec(&self, other: &Self) -> bool {
        let PlayerError::VolumeOutOfRange(a) = *self;
        let PlayerError::VolumeOutOfRange(b) = *other;
        equal_patterns(a, b)
    }
}

/// Playback volume. Always in [0.0, 1.0].
#[derive(Debug, Clone, Copy)]
pub struct Volume {
    bits: u32,
}

impl View for Volume {
    type V = u32;

    closed spec fn view(&self) -> u32 {
        self.bits
    }
}

impl Volume {
    #[verifier::type_invariant]
    spec fn in_range(self) -> bool {
        in_unit_interval(self.bits)
    }

    /// Takes the bit pattern of a single-precision number. Returns
    /// `Err(VolumeOutOfRange)` if the number is outside [0.0, 1.0] or not a number.
    pub fn new(bits: u32) -> (r: Result<Self, PlayerError>)
        ensures
            in_unit_interval(bits) ==> (r matches Ok(volume) && volume@ == bits),
            !in_unit_interval(bits) ==> r == Err::<Self, PlayerError>(
                PlayerError::VolumeOutOfRange(bits),
            ),
            r is Ok <==> bits <= 0x3f80_0000 || bits == 0x8000_0000,
            r matches Ok(volume) ==> volume@ == bits,
            r matches Err(error) ==> error == PlayerError::VolumeOutOfRange(bits),
    {
        proof {
            law_unit_interval_patterns(bits);
        }
        if bits <= 0x3f80_0000 || bits == 0x8000_0000 {
            Ok(Volume { bits })
        } else {
            Err(PlayerError::VolumeOutOfRange(bits))
        }
    }

    /// The bit pattern of the volume.
    pub fn value(self) -> (bits: u32)
        ensures
            bits == self@,
            in_unit_interval(bits),
            bits <= 0x3f80_0000 || bits == 0x8000_0000,
    {
        proof {
            use_type_invariant(&self);
            law_unit_interval_patterns(self.bits);
        }
        self.bits
    }

    /// The volume 0.0.
    pub fn silent() -> (volume: Self)
        ensures
            volume@ == 0,
            scaled_value(volume@) == 0,
    {
        proof {
            law_unit_interval_patterns(0);
        }
        Volume { bits: 0 }
    }

    /// The volume 1.0.
    pub fn full() -> (volume: Self)
        ensures
            volume@ == 0x3f80_0000,
            scaled_value(volume@) == pow2(149),
    {
        proof {
            law_unit_interval_patterns(0x3f80_0000);
            lemma_pow2_adds(23, 126);
            vstd::arithmetic::power2::lemma2_to64();
        }
        Volume { bits: 0x3f80_0000 }
    }

    /// The pattern with the sign of zero dropped.
    fn unsigned_bits(self) -> (key: u32)
        ensures
            key <= 0x3f80_0000,
            scaled_value(key) == scaled_value(self@),
    {
        proof {
            use_type_invariant(&self);
            law_unit_interval_patterns(self.bits);
        }
        if self.bits == 0x8000_0000 {
            0
        } else {
            self.bits
        }
    }
}

/// Two volumes are equal when they stand for the same number: the zeros of both signs are equal.
impl PartialEq for Volume {
    fn eq(&self, other: &Self) -> (r: bool) {
        let a: u32 = self.unsigned_bits();
        let b: u32 = other.unsigned_bits();
        proof {
            if a < b {
                lemma_patterns_are_ordered(a, b);
            }
            if b < a {
                lemma_patterns_are_ordered(b, a);
            }
        }
        a == b
    }
}

impl vstd::std_specs::cmp::PartialEqSpecImpl for Volume {
    open spec fn obeys_eq_spec() -> bool {
        true
    }

    open spec fn eq_spec(&self, other: &Self) -> bool {
        scaled_value(self@) == scaled_value(other@)
    }
}

/// Volumes are ordered as the numbers they stand for.
impl PartialOrd for Volume {
    fn partial_cmp(&self, other: &Self) -> (r: Option<Ordering>) {
        let a: u32 = self.unsigned_bits();
        let b: u32 = other.unsigned_bits();
        if a < b {
            proof {
                lemma_patterns_are_ordered(a, b);
            }
            Some(Ordering::Less)
        } else if a == b {
            Some(Ordering::Equal)
        } else {
            proof {
                lemma_patterns_are_ordered(b, a);
            }
            Some(Ordering::Greater)
        }
    }
}

impl vstd::std_specs::cmp::PartialOrdSpecImpl for Volume {
    open spec fn obeys_partial_cmp_spec() -> bool {
        true
    }

    open spec fn partial_cmp_spec(&self, other: &Self) -> Option<Ordering> {
        if scaled_value(self@) < scaled_value(other@) {
            Some(Ordering::Less)
        } else if scaled_value(self@) == scaled_value(other@) {
            Some(Ordering::Equal)
        } else {
            Some(Ordering::Greater)
        }
    }
}

/// Volumes compare as their patterns do, with the zeros of both signs as one.
pub proof fn law_volumes_compare_by_pattern(a: Volume, b: Volume)
    requires
        a@ <= 0x3f80_0000 || a@ == 0x8000_0000,
        b@ <= 0x3f80_0000 || b@ == 0x8000_0000,
    ensures
        Volume::obeys_eq_spec(),
        Volume::obeys_partial_cmp_spec(),
        a.eq_spec(&b) <==> a@ % 0x8000_0000 == b@ % 0x8000_0000,
        a.partial_cmp_spec(&b) == Some(Ordering::Less) <==> a@ % 0x8000_0000 < b@ % 0x8000_0000,
        a.partial_cmp_spec(&b) == Some(Ordering::Equal) <==> a@ % 0x8000_0000 == b@ % 0x8000_0000,
        a.partial_cmp_spec(&b) == Some(Ordering::Greater) <==> a@ % 0x8000_0000 > b@ % 0x8000_0000,
{
    let a_key: u32 = a@ % 0x8000_0000;
    let b_key: u32 = b@ % 0x8000_0000;
    assert(scaled_value(a@) == scaled_value(a_key));
    assert(scaled_value(b@) == scaled_value(b_key));
    if a_key < b_key {
        lemma_patterns_are_ordered(a_key, b_key);
    }
    if b_key < a_key {
        lemma_patterns_are_ordered(b_key, a_key);
    }
}

/// Errors are equal when they hold the same pattern, or zeros of both signs; but one that holds
/// a NaN equals none.
pub proof fn law_errors_compare_by_pattern(a: u32, b: u32)
    ensures
        PlayerError::obeys_eq_spec(),
        PlayerError::VolumeOutOfRange(a).eq_spec(&PlayerError::VolumeOutOfRange(b)) <==> (a == b
            && a % 0x8000_0000 <= 0x7f80_0000) || (a % 0x8000_0000 == 0 && b % 0x8000_0000 == 0),
{
    let a_unsigned: u32 = a % 0x8000_0000;
    let b_unsigned: u32 = b % 0x8000_0000;
    assert(exponent_field(a) == exponent_field(a_unsigned));
    assert(exponent_field(b) == exponent_field(b_unsigned));
    if a_unsigned < 0x7f80_0000 && b_unsigned < 0x7f80_0000 {
        lemma_finite_patterns_differ(a, a_unsigned, b, b_unsigned);
    }
}

/// No volume is below silence or above full.
pub proof fn law_silent_and_full_are_the_extremes(silent: Volume, volume: Volume, full: Volume)
    requires
        silent@ == 0,
        in_unit_interval(volume@),
        full@ == 0x3f80_0000,
    ensures
        scaled_value(silent@) <= scaled_value(volume@) <= scaled_value(full@),
{
    lemma_pow2_adds(23, 126);
    vstd::arithmetic::power2::lemma2_to64();
}

} // verus!
