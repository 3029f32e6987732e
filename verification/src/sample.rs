//! Samples in the canonical format and the two conversions at its edges.
//!
//! A canonical sample is an IEEE-754 single-precision number, nominally in
//! [-1.0, 1.0]. It is held by its bit pattern, and everything said about it
//! is said of the exact rational that the pattern denotes:
//! `significand * 2^exponent`, negated where the sign bit is set.

use vstd::arithmetic::power2::{
    lemma2_to64, lemma2_to64_rest, lemma_pow2_pos, lemma_pow2_strictly_increases,
    lemma_pow2_unfold, pow2,
};
use vstd::prelude::*;

verus! {

/// Full scale of a 16-bit sample: the integer that stands for amplitude 1.0.
pub const PCM_FULL_SCALE: u32 = 32767;

/// 2^23, the weight of the implicit leading bit of a normal significand.
pub const IMPLICIT_BIT: u32 = 0x80_0000;

/// 2^31, the weight of the sign bit.
pub const SIGN_BIT: u32 = 0x8000_0000;

/// True for patterns with the sign bit set.
pub open spec fn is_negative(bits: u32) -> bool {
    bits >= SIGN_BIT
}

/// The eight exponent bits, as stored.
pub open spec fn biased_exponent(bits: u32) -> nat {
    ((bits / IMPLICIT_BIT) % 256) as nat
}

/// The twenty-three fraction bits.
pub open spec fn fraction(bits: u32) -> nat {
    (bits % IMPLICIT_BIT) as nat
}

pub open spec fn is_nan(bits: u32) -> bool {
    biased_exponent(bits) == 255 && fraction(bits) != 0
}

pub open spec fn is_infinite(bits: u32) -> bool {
    biased_exponent(bits) == 255 && fraction(bits) == 0
}

/// Zero, subnormal or normal: the pattern denotes a rational.
pub open spec fn is_finite(bits: u32) -> bool {
    biased_exponent(bits) < 255
}

/// Neither zero nor subnormal: the significand carries the implicit bit.
pub open spec fn is_normal(bits: u32) -> bool {
    0 < biased_exponent(bits) < 255
}

/// The integer part of the magnitude `significand * 2^exponent`.
pub open spec fn significand(bits: u32) -> nat {
    if biased_exponent(bits) == 0 {
        fraction(bits)
    } else {
        IMPLICIT_BIT as nat + fraction(bits)
    }
}

/// The power of two that scales the significand.
pub open spec fn exponent(bits: u32) -> int {
    if biased_exponent(bits) == 0 {
        -149
    } else {
        biased_exponent(bits) - 150
    }
}

/// `n / d` rounded to the nearest integer, a half rounding away from zero.
pub open spec fn round_ratio(n: nat, d: nat) -> nat {
    ((2 * n + d) / (2 * d)) as nat
}

/// The magnitude of a finite sample times full scale, rounded to the nearest
/// integer.
pub open spec fn scaled_magnitude(bits: u32) -> nat {
    if exponent(bits) >= 0 {
        significand(bits) * PCM_FULL_SCALE as nat * pow2(exponent(bits) as nat)
    } else {
        round_ratio(significand(bits) * PCM_FULL_SCALE as nat, pow2((-exponent(bits)) as nat))
    }
}

/// The 16-bit value of a canonical sample: the sample times 32767, rounded
/// to the nearest integer and clamped to the 16-bit range. Infinities clamp
/// like any other out-of-range value; a NaN, which denotes no amplitude,
/// gives silence.
pub open spec fn pcm16_of(bits: u32) -> int {
    if is_nan(bits) {
        0
    } else if is_infinite(bits) {
        if is_negative(bits) {
            i16::MIN as int
        } else {
            i16::MAX as int
        }
    } else if is_negative(bits) {
        if scaled_magnitude(bits) >= 32768 {
            i16::MIN as int
        } else {
            -(scaled_magnitude(bits) as int)
        }
    } else {
        if scaled_magnitude(bits) >= 32767 {
            i16::MAX as int
        } else {
            scaled_magnitude(bits) as int
        }
    }
}

/// The 16-bit values of a run of samples, one for one.
pub open spec fn pcm16_block(samples: Seq<Sample>) -> Seq<i16> {
    Seq::new(samples.len(), |i: int| pcm16_of(samples[i].bits) as i16)
}

/// `bits` is the normal float nearest to `num / den`, with the given sign:
/// the quotient lies in the binade of `bits` and at most half a unit in the
/// last place away from it, and where it lies exactly half-way the
/// significand is even.
pub open spec fn is_nearest_float(bits: u32, negative: bool, num: nat, den: nat) -> bool {
    let m = significand(bits) as int;
    let shift = (-exponent(bits)) as nat;
    let scaled = num * pow2(shift);
    &&& is_negative(bits) == negative
    &&& is_normal(bits)
    &&& exponent(bits) <= 0
    &&& IMPLICIT_BIT * den <= scaled
    &&& 2 * (m * den - scaled) <= den
    &&& 2 * (scaled - m * den) <= den
    &&& (2 * (m * den - scaled) == den || 2 * (scaled - m * den) == den) ==> m % 2 == 0
}

/// What the normaliser makes of a 16-bit hardware sample `v`: the float
/// nearest to `v / 32767`, and positive zero for silence.
pub open spec fn normalizes_to(v: i16, bits: u32) -> bool {
    if v == 0 {
        bits == 0
    } else if v < 0 {
        is_nearest_float(bits, true, (-v) as nat, PCM_FULL_SCALE as nat)
    } else {
        is_nearest_float(bits, false, v as nat, PCM_FULL_SCALE as nat)
    }
}

/// One amplitude value in the canonical format.
#[derive(Clone, Copy, Debug, PartialEq, Eq, Structural)]
pub struct Sample {
    /// The IEEE-754 single-precision bit pattern.
    pub bits: u32,
}

/// 2^k as a machine integer.
fn power_of_two(k: u32) -> (p: u64)
    requires
        k <= 40,
    ensures
        p == pow2(k as nat),
        1 <= p <= 0x100_0000_0000,
{
    let mut p: u64 = 1;
    let mut i: u32 = 0;
    proof {
        lemma2_to64();
        lemma2_to64_rest();
    }
    while i < k
        invariant
            i <= k <= 40,
            p == pow2(i as nat),
            p <= pow2(40),
            pow2(40) == 0x100_0000_0000,
        decreases k - i,
    {
        proof {
            lemma_pow2_unfold((i + 1) as nat);
            if i + 1 < 40 {
                lemma_pow2_strictly_increases((i + 1) as nat, 40);
            }
        }
        p = p * 2;
        i = i + 1;
    }
    proof {
        lemma_pow2_pos(k as nat);
    }
    p
}

impl Sample {
    /// The sample with the given bit pattern.
    pub fn from_bits(bits: u32) -> (s: Sample)
        ensures
            s.bits == bits,
    {
        Sample { bits }
    }

    /// The bit pattern of the sample.
    pub fn to_bits(self) -> (bits: u32)
        ensures
            bits == self.bits,
    {
        self.bits
    }

    /// Normalises a 16-bit hardware sample: `v / 32767`, correctly rounded
    /// to single precision.
    pub fn from_i16(v: i16) -> (s: Sample)
        ensures
            normalizes_to(v, s.bits),
    {
        if v == 0 {
            return Sample { bits: 0 };
        }
        let negative = v < 0;
        let a: u64 = if negative {
            (-(v as i32)) as u64
        } else {
            v as u64
        };
        // Double until the quotient a / 32767 reaches [1, 2).
        let mut units: u64 = a;
        let mut doublings: u32 = 0;
        proof {
            lemma2_to64();
        }
        while units < 32767
            invariant
                1 <= a <= 32768,
                units == a * pow2(doublings as nat),
                pow2(doublings as nat) <= units <= 65533,
                1 <= units,
                doublings <= 15,
                pow2(15) == 32768,
            decreases 15 - doublings,
        {
            proof {
                lemma_pow2_unfold((doublings + 1) as nat);
                assert(a * (2 * pow2(doublings as nat)) == 2 * (a * pow2(doublings as nat)))
                    by (nonlinear_arith);
            }
            units = units * 2;
            doublings = doublings + 1;
        }
        let m: u64 = (units * 0x100_0000 + 32767) / 65534;
        let biased: u32 = 127 - doublings;
        let sign: u32 = if negative {
            SIGN_BIT
        } else {
            0
        };
        let bits: u32 = sign + biased * IMPLICIT_BIT + (m as u32 - IMPLICIT_BIT);
        proof {
            let shift = (23 + doublings) as nat;
            vstd::arithmetic::power2::lemma_pow2_adds(23, doublings as nat);
            assert(a * (pow2(23) * pow2(doublings as nat)) == (a * pow2(doublings as nat)) * pow2(
                23,
            )) by (nonlinear_arith);
            assert(a * pow2(shift) == units * 0x80_0000);
            assert(biased_exponent(bits) == biased);
            assert(fraction(bits) == m - IMPLICIT_BIT);
            assert(significand(bits) == m);
            assert(exponent(bits) == -(shift as int));
            assert((65534 * m - units * 0x100_0000) % 2 == 0);
        }
        Sample { bits }
    }

    /// Scales the sample to 16 bits: times 32767, rounded to the nearest
    /// integer, clamped to the 16-bit range.
    pub fn to_pcm16(self) -> (q: i16)
        ensures
            q == pcm16_of(self.bits),
    {
        let bits = self.bits;
        let negative = bits >= SIGN_BIT;
        let biased = (bits / IMPLICIT_BIT) % 256;
        let frac = bits % IMPLICIT_BIT;
        if biased == 255 {
            if frac != 0 {
                0
            } else if negative {
                i16::MIN
            } else {
                i16::MAX
            }
        } else {
            let m: u64 = if biased == 0 {
                frac as u64
            } else {
                IMPLICIT_BIT as u64 + frac as u64
            };
            let n: u64 = m * 32767;
            let magnitude: u64 = if biased >= 150 {
                proof {
                    lemma_pow2_pos((biased - 150) as nat);
                    assert(n * pow2((biased - 150) as nat) >= 32768) by (nonlinear_arith)
                        requires
                            n >= 32768,
                            pow2((biased - 150) as nat) >= 1,
                    ;
                }
                32768
            } else {
                let shift: u32 = if biased == 0 {
                    149
                } else {
                    150 - biased
                };
                if shift >= 40 {
                    proof {
                        lemma2_to64_rest();
                        if shift > 40 {
                            lemma_pow2_strictly_increases(40, shift as nat);
                        }
                        lemma_round_small(n as nat, pow2(shift as nat));
                    }
                    0
                } else {
                    let d = power_of_two(shift);
                    (2 * n + d) / (2 * d)
                }
            };
            assert(magnitude >= 32768 <==> scaled_magnitude(bits) >= 32768);
            assert(magnitude < 32768 ==> magnitude == scaled_magnitude(bits));
            if negative {
                if magnitude >= 32768 {
                    i16::MIN
                } else {
                    -(magnitude as i16)
                }
            } else {
                if magnitude >= 32767 {
                    i16::MAX
                } else {
                    magnitude as i16
                }
            }
        }
    }
}

/// The samples with the given bit patterns, one for one.
pub open spec fn samples_of_patterns(data: Seq<u32>) -> Seq<Sample> {
    Seq::new(data.len(), |i: int| Sample { bits: data[i] })
}

/// `block` is `data` normalised: as many samples, each what the normaliser
/// makes of its 16-bit value.
pub open spec fn is_normalized(data: Seq<i16>, block: Seq<Sample>) -> bool {
    &&& block.len() == data.len()
    &&& forall|i: int| 0 <= i < data.len() ==> normalizes_to(data[i], (#[trigger] block[i]).bits)
}

/// Normalises a block that the hardware delivers as 32-bit floats, given
/// by their bit patterns: input that is canonical already passes through
/// unchanged, bit for bit.
pub fn normalize_f32(data: &[u32]) -> (block: Vec<Sample>)
    ensures
        block@ == samples_of_patterns(data@),
{
    let mut block: Vec<Sample> = Vec::new();
    let mut i: usize = 0;
    while i < data.len()
        invariant
            i <= data@.len(),
            block@.len() == i,
            forall|j: int| 0 <= j < i ==> (#[trigger] block@[j]).bits == data@[j],
        decreases data@.len() - i,
    {
        block.push(Sample::from_bits(data[i]));
        i = i + 1;
    }
    assert(block@ =~= samples_of_patterns(data@));
    block
}

/// Normalises a block that the hardware delivers as 16-bit signed integers:
/// each value `v` becomes `v / 32767`.
pub fn normalize_i16(data: &[i16]) -> (block: Vec<Sample>)
    ensures
        is_normalized(data@, block@),
{
    let mut block: Vec<Sample> = Vec::new();
    let mut i: usize = 0;
    while i < data.len()
        invariant
            i <= data@.len(),
            block@.len() == i,
            forall|j: int| 0 <= j < i ==> normalizes_to(data@[j], (#[trigger] block@[j]).bits),
        decreases data@.len() - i,
    {
        block.push(Sample::from_i16(data[i]));
        i = i + 1;
    }
    block
}

/// A quotient under one half rounds to zero.
proof fn lemma_round_small(n: nat, d: nat)
    requires
        2 * n < d,
    ensures
        round_ratio(n, d) == 0,
{
    vstd::arithmetic::div_mod::lemma_basic_div((2 * n + d) as int, (2 * d) as int);
}

/// The rounded quotient is at most half a unit away from the quotient.
proof fn lemma_round_ratio_bounds(n: nat, d: nat)
    requires
        d > 0,
    ensures
        2 * (round_ratio(n, d) * d - n) <= d,
        2 * (n - round_ratio(n, d) * d) < d,
{
    let x = (2 * n + d) as int;
    let y = (2 * d) as int;
    vstd::arithmetic::div_mod::lemma_fundamental_div_mod(x, y);
    vstd::arithmetic::div_mod::lemma_mod_bound(x, y);
    vstd::arithmetic::div_mod::lemma_div_pos_is_pos(x, y);
    let q = x / y;
    assert(y * q == 2 * (q * d)) by (nonlinear_arith)
        requires
            y == 2 * d,
    ;
}

/// An integer that the quotient is less than half a unit away from is what
/// the quotient rounds to.
proof fn lemma_round_ratio_unique(n: nat, d: nat, q: nat)
    requires
        d > 0,
        2 * (q * d - n) <= d,
        2 * (n - q * d) < d,
    ensures
        round_ratio(n, d) == q,
{
    let x = (2 * n + d) as int;
    let y = (2 * d) as int;
    let r = x - q * y;
    assert(q * y == 2 * (q * d)) by (nonlinear_arith)
        requires
            y == 2 * d,
    ;
    vstd::arithmetic::div_mod::lemma_fundamental_div_mod_converse(x, y, q as int, r);
}

/// A pattern is made of its sign, its exponent bits and its fraction.
proof fn lemma_pattern_parts(bits: u32)
    ensures
        bits == (if is_negative(bits) {
            SIGN_BIT as int
        } else {
            0
        }) + biased_exponent(bits) * IMPLICIT_BIT + fraction(bits),
{
}

/// A quotient in the binade of one shift cannot be in that of a larger one.
proof fn lemma_shift_is_determined(a: u32, b: u32, negative: bool, num: nat, den: nat)
    requires
        den > 0,
        is_nearest_float(a, negative, num, den),
        is_nearest_float(b, negative, num, den),
    ensures
        exponent(a) >= exponent(b),
{
    let sa = (-exponent(a)) as nat;
    let sb = (-exponent(b)) as nat;
    if sa > sb {
        let gap = (sa - sb) as nat;
        vstd::arithmetic::power2::lemma_pow2_adds(sb, gap);
        lemma_pow2_unfold(gap);
        lemma_pow2_pos((gap - 1) as nat);
        lemma_pow2_pos(sb);
        let low = num * pow2(sb);
        let high = num * pow2(sa);
        let m = significand(a) as int;
        assert(high >= 2 * low) by (nonlinear_arith)
            requires
                high == num * pow2(sa),
                low == num * pow2(sb),
                pow2(sa) == pow2(sb) * pow2(gap),
                pow2(gap) >= 2,
                pow2(sb) > 0,
        ;
        assert(m < 0x100_0000);
        assert(false) by (nonlinear_arith)
            requires
                high >= 2 * low,
                0x80_0000 * den <= low,
                2 * (high - m * den) <= den,
                m < 0x100_0000,
                den > 0,
        ;
    }
}

/// At most one pattern is the nearest float of a quotient: what the
/// normaliser promises of its result leaves no choice.
pub proof fn nearest_float_is_unique(a: u32, b: u32, negative: bool, num: nat, den: nat)
    requires
        den > 0,
        is_nearest_float(a, negative, num, den),
        is_nearest_float(b, negative, num, den),
    ensures
        a == b,
{
    lemma_shift_is_determined(a, b, negative, num, den);
    lemma_shift_is_determined(b, a, negative, num, den);
    let shift = (-exponent(a)) as nat;
    let scaled = num * pow2(shift);
    let ma = significand(a) as int;
    let mb = significand(b) as int;
    assert(ma - mb <= 1 && mb - ma <= 1) by (nonlinear_arith)
        requires
            den > 0,
            2 * (ma * den - scaled) <= den,
            2 * (scaled - ma * den) <= den,
            2 * (mb * den - scaled) <= den,
            2 * (scaled - mb * den) <= den,
    ;
    if ma == mb + 1 {
        assert(2 * (ma * den - scaled) == den && 2 * (scaled - mb * den) == den)
            by (nonlinear_arith)
            requires
                ma == mb + 1,
                2 * (ma * den - scaled) <= den,
                2 * (scaled - mb * den) <= den,
        ;
    }
    if mb == ma + 1 {
        assert(2 * (mb * den - scaled) == den && 2 * (scaled - ma * den) == den)
            by (nonlinear_arith)
            requires
                mb == ma + 1,
                2 * (mb * den - scaled) <= den,
                2 * (scaled - ma * den) <= den,
        ;
    }
    assert(ma == mb);
    lemma_pattern_parts(a);
    lemma_pattern_parts(b);
}

/// The sample denotes an amplitude in [-1.0, 1.0].
pub open spec fn is_canonical(bits: u32) -> bool {
    &&& is_finite(bits)
    &&& exponent(bits) < 0
    &&& significand(bits) <= pow2((-exponent(bits)) as nat)
}

/// The 16-bit value of any sample is a 16-bit value.
pub proof fn pcm16_in_range(bits: u32)
    ensures
        i16::MIN <= pcm16_of(bits) <= i16::MAX,
{
}

/// Normalising a 16-bit hardware sample and scaling the result back to 16
/// bits gives the hardware sample again, whatever its value.
pub proof fn normalize_then_quantize_is_identity(v: i16, bits: u32)
    requires
        normalizes_to(v, bits),
    ensures
        pcm16_of(bits) == v,
{
    if v == 0 {
        assert(biased_exponent(0u32) == 0);
        assert(fraction(0u32) == 0);
        lemma_pow2_pos(149);
        lemma_round_small(0, pow2(149));
    } else {
        let a: nat = if v < 0 {
            (-v) as nat
        } else {
            v as nat
        };
        let m = significand(bits);
        let shift = (-exponent(bits)) as nat;
        let d = pow2(shift);
        lemma_pow2_pos(shift);
        assert(is_nearest_float(bits, v < 0, a, PCM_FULL_SCALE as nat));
        assert(d > 32767) by (nonlinear_arith)
            requires
                0x80_0000 * 32767 <= a * d,
                1 <= a <= 32768,
                d >= 1,
        ;
        if exponent(bits) == 0 {
            lemma2_to64();
        }
        lemma_round_ratio_unique(m * 32767, d, a);
    }
}

/// Scaling a sample in [-1.0, 1.0] to 16 bits moves it by at most half a
/// 16-bit step: with `x` the amplitude and `q` the 16-bit value,
/// `|q - 32767 * x| <= 1/2`, so that `q / 32767` is within `1/32767` of `x`.
/// Both sides are stated times `2^-exponent`, which makes them integers.
pub proof fn quantization_error_is_within_half_a_step(bits: u32)
    requires
        is_canonical(bits),
    ensures
        ({
            let d = pow2((-exponent(bits)) as nat) as int;
            let scaled = significand(bits) * PCM_FULL_SCALE as int;
            let q = pcm16_of(bits);
            if is_negative(bits) {
                -d <= 2 * (q * d + scaled) <= d
            } else {
                -d <= 2 * (q * d - scaled) <= d
            }
        }),
        -(PCM_FULL_SCALE as int) <= pcm16_of(bits) <= PCM_FULL_SCALE as int,
{
    let d = pow2((-exponent(bits)) as nat);
    let n = significand(bits) * PCM_FULL_SCALE as nat;
    lemma_pow2_pos((-exponent(bits)) as nat);
    lemma_round_ratio_bounds(n, d);
    let r = round_ratio(n, d);
    assert(r <= 32767) by (nonlinear_arith)
        requires
            d > 0,
            n <= 32767 * d,
            2 * (r * d - n) <= d,
    ;
    assert((-(r as int)) * d == -(r * d)) by (nonlinear_arith);
}

} // verus!
