//! Affect scores (arousal, valence, probabilities, voice features) as the speech services send
//! them: IEEE 754 single-precision numbers, held by their bit patterns.
use vstd::arithmetic::power2::{lemma_pow2_pos, lemma_pow2_strictly_increases, lemma_pow2_unfold, pow2};
use vstd::prelude::*;

verus! {

/// The sign bit.
pub const SIGN_BIT: u32 = 0x8000_0000;

/// The bit pattern of positive infinity; what lies above it, up to the sign bit, is not a number.
pub const INFINITY_BITS: u32 = 0x7f80_0000;

/// One more than the largest fraction field.
pub const FRACTION_RANGE: u32 = 0x80_0000;

/// The bit pattern of 0.15, the size of an arousal change that counts as a change of mood.
pub const MOOD_THRESHOLD_BITS: u32 = 0x3e19_999a;

/// A single-precision number, by its bit pattern.
#[derive(Debug, Clone, Copy, PartialEq, Eq, Structural)]
pub struct Score {
    pub bits: u32,
}

/// The size of the finite number with the sign-less bit pattern `m`, counted in units of 2^-149
/// (the smallest positive single).
pub open spec fn units_of(m: int) -> int {
    let exponent = m / FRACTION_RANGE as int;
    let fraction = m % FRACTION_RANGE as int;
    if exponent == 0 {
        fraction
    } else {
        (FRACTION_RANGE + fraction) * pow2((exponent - 1) as nat)
    }
}

/// The single nearest to 0.15, counted in units of 2^-149: it is 10066330 / 2^26.
pub open spec fn mood_threshold_units() -> int {
    10066330int * pow2(123)
}

impl Score {
    pub open spec fn negative(self) -> bool {
        self.bits >= SIGN_BIT
    }

    /// The bit pattern without its sign.
    pub open spec fn unsigned_bits(self) -> int {
        if self.negative() {
            self.bits - SIGN_BIT
        } else {
            self.bits as int
        }
    }

    pub open spec fn nan(self) -> bool {
        self.unsigned_bits() > INFINITY_BITS
    }

    pub open spec fn infinite(self) -> bool {
        self.unsigned_bits() == INFINITY_BITS
    }

    /// The size of a finite score, in units of 2^-149.
    pub open spec fn units(self) -> int {
        units_of(self.unsigned_bits())
    }

    /// Whether the number is greater than zero.
    pub open spec fn positive(self) -> bool {
        &&& !self.nan()
        &&& !self.negative()
        &&& self.infinite() || self.units() > 0
    }

    /// Whether the number, its sign apart, is greater than 0.15.
    pub open spec fn beyond_mood_threshold(self) -> bool {
        &&& !self.nan()
        &&& self.infinite() || self.units() > mood_threshold_units()
    }

    /// The score with the given bit pattern.
    pub fn from_bits(bits: u32) -> (r: Score)
        ensures
            r.bits == bits,
    {
        Score { bits }
    }

    /// Zero.
    pub fn zero() -> (r: Score)
        ensures
            r == zero_score(),
    {
        Score { bits: 0 }
    }

    /// Tells whether the score is greater than zero.
    pub fn is_positive(self) -> (r: bool)
        ensures
            r == self.positive(),
    {
        proof {
            if 0 < self.bits < INFINITY_BITS {
                lemma_units_increase(0, self.bits as int);
            }
        }
        0 < self.bits && self.bits <= INFINITY_BITS
    }

    /// Tells whether the score, its sign apart, is greater than 0.15.
    pub fn is_beyond_mood_threshold(self) -> (r: bool)
        ensures
            r == self.beyond_mood_threshold(),
    {
        let size: u32 = if self.bits >= SIGN_BIT {
            self.bits - SIGN_BIT
        } else {
            self.bits
        };
        proof {
            let m = size as int;
            let t = MOOD_THRESHOLD_BITS as int;
            assert(units_of(t) == mood_threshold_units());
            if m < INFINITY_BITS {
                if m < t {
                    lemma_units_increase(m, t);
                } else if m > t {
                    lemma_units_increase(t, m);
                }
            }
        }
        MOOD_THRESHOLD_BITS < size && size <= INFINITY_BITS
    }
}

/// Zero, as a model value.
pub open spec fn zero_score() -> Score {
    Score { bits: 0 }
}

/// Among the finite numbers without a sign, a larger bit pattern is a larger number.
pub proof fn lemma_units_increase(a: int, b: int)
    requires
        0 <= a < b < INFINITY_BITS,
    ensures
        units_of(a) < units_of(b),
{
    let w = FRACTION_RANGE as int;
    let ea = a / w;
    let eb = b / w;
    let fa = a % w;
    let fb = b % w;
    assert(0 <= ea <= eb && 0 <= fa < w && 0 <= fb < w && a == ea * w + fa && b == eb * w + fb)
        by (nonlinear_arith)
        requires
            0 <= a < b,
            w == 0x80_0000,
            ea == a / w,
            eb == b / w,
            fa == a % w,
            fb == b % w,
    ;
    if eb == 0 {
    } else {
        let pb = pow2((eb - 1) as nat) as int;
        lemma_pow2_pos((eb - 1) as nat);
        assert((w + fb) * pb >= w * pb) by (nonlinear_arith)
            requires
                fb >= 0,
                pb > 0,
        ;
        if ea == eb {
            assert((w + fa) * pb < (w + fb) * pb) by (nonlinear_arith)
                requires
                    fa < fb,
                    pb > 0,
            ;
        } else if ea == 0 {
            assert(w * pb >= w) by (nonlinear_arith)
                requires
                    w == 0x80_0000,
                    pb >= 1,
            ;
        } else {
            let pa = pow2((ea - 1) as nat) as int;
            lemma_pow2_pos((ea - 1) as nat);
            lemma_pow2_unfold(ea as nat);
            if ea < eb - 1 {
                lemma_pow2_strictly_increases(ea as nat, (eb - 1) as nat);
            }
            assert((w + fa) * pa < w * (2 * pa)) by (nonlinear_arith)
                requires
                    fa < w,
                    pa > 0,
            ;
            assert(w * (2 * pa) <= w * pb) by (nonlinear_arith)
                requires
                    w == 0x80_0000,
                    2 * pa <= pb,
            ;
        }
    }
}

/// A number is greater than zero exactly where its bit pattern lies above that of zero, up to that
/// of positive infinity.
pub proof fn lemma_positive_by_bits(s: Score)
    ensures
        s.positive() <==> 0 < s.bits <= 0x7f80_0000,
{
    if 0 < s.bits < INFINITY_BITS {
        lemma_units_increase(0, s.bits as int);
    }
}

/// A number is, its sign apart, greater than 0.15 exactly where its bit pattern without the sign
/// lies above that of 0.15, up to that of infinity.
pub proof fn lemma_threshold_by_bits(s: Score)
    ensures
        s.beyond_mood_threshold() <==> 0x3e19_999a < s.bits as int % 0x8000_0000 <= 0x7f80_0000,
{
    let m = s.unsigned_bits();
    let t = MOOD_THRESHOLD_BITS as int;
    assert(m == s.bits as int % 0x8000_0000);
    assert(units_of(t) == mood_threshold_units());
    if m < INFINITY_BITS {
        if m < t {
            lemma_units_increase(m, t);
        } else if m > t {
            lemma_units_increase(t, m);
        }
    }
}

/// A rise and a fall of the same size count alike.
pub proof fn lemma_threshold_ignores_sign(rise: Score, fall: Score)
    requires
        fall.bits == rise.bits + 0x8000_0000,
    ensures
        rise.beyond_mood_threshold() == fall.beyond_mood_threshold(),
{
    lemma_threshold_by_bits(rise);
    lemma_threshold_by_bits(fall);
}

/// What lies further from zero than something that counts, counts too; a shift of no size does not.
pub proof fn lemma_threshold_is_monotone(near: Score, far: Score)
    requires
        near.bits as int % 0x8000_0000 <= far.bits as int % 0x8000_0000 <= 0x7f80_0000,
    ensures
        near.beyond_mood_threshold() ==> far.beyond_mood_threshold(),
        near.bits as int % 0x8000_0000 == 0 ==> !near.beyond_mood_threshold(),
{
    lemma_threshold_by_bits(near);
    lemma_threshold_by_bits(far);
}

}
