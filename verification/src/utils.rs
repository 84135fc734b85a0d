//! Small numeric helpers shared by the simulation.

use vstd::prelude::*;
use vstd::string::StringExecFns;
use crate::rng::TickBasedRng;

verus! {

/// One step of the 32-bit linear-feedback shift register with taps at bits
/// 0, 1, 2 and 22: the register shifts right by one and the tap parity enters
/// at bit 31.
pub open spec fn spec_lfsr(s: u32) -> u32 {
    (s >> 1) | (((s ^ (s >> 1) ^ (s >> 2) ^ (s >> 22)) & 1) << 31)
}

/// Advances the shift register by one step.
pub fn lfsr(state: u32) -> (next: u32)
    ensures
        next == spec_lfsr(state),
{
    let bit: u32 = (state ^ (state >> 1) ^ (state >> 2) ^ (state >> 22)) & 1;
    (state >> 1) | (bit << 31)
}

/// The register never leaves zero and never reaches it from another state.
pub proof fn lemma_lfsr_zero(s: u32)
    ensures
        spec_lfsr(s) == 0 <==> s == 0,
{
    assert(((s >> 1) | (((s ^ (s >> 1) ^ (s >> 2) ^ (s >> 22)) & 1) << 31)) == 0 <==> s == 0)
        by (bit_vector);
}

/// A step changes every state but zero: the register has no other fixed point.
pub proof fn lemma_lfsr_moves(s: u32)
    ensures
        s != 0 ==> spec_lfsr(s) != s,
{
    assert(s != 0 ==> ((s >> 1) | (((s ^ (s >> 1) ^ (s >> 2) ^ (s >> 22)) & 1) << 31)) != s)
        by (bit_vector);
}

/// A step is injective: two different states never step to the same state.
pub proof fn lemma_lfsr_injective(a: u32, b: u32)
    ensures
        spec_lfsr(a) == spec_lfsr(b) ==> a == b,
{
    assert(((a >> 1) | (((a ^ (a >> 1) ^ (a >> 2) ^ (a >> 22)) & 1) << 31)) == ((b >> 1) | (((b ^ (b
        >> 1) ^ (b >> 2) ^ (b >> 22)) & 1) << 31)) ==> a == b) by (bit_vector);
}

/// The index of the first item of `s` that `pred` holds of, if there is one.
pub open spec fn first_index<A>(s: Seq<A>, pred: spec_fn(A) -> bool) -> Option<int>
    decreases s.len(),
{
    if s.len() == 0 {
        None
    } else if pred(s[0]) {
        Some(0)
    } else {
        match first_index(s.drop_first(), pred) {
            Some(i) => Some(i + 1),
            None => None,
        }
    }
}

/// What `first_index` gives: an index of an item that `pred` holds of where
/// it holds of none before, or nothing where it holds of no item at all.
pub proof fn lemma_first_index<A>(s: Seq<A>, pred: spec_fn(A) -> bool)
    ensures
        match first_index(s, pred) {
            Some(i) => 0 <= i < s.len() && pred(s[i]) && forall|j: int|
                0 <= j < i ==> !pred(#[trigger] s[j]),
            None => forall|j: int| 0 <= j < s.len() ==> !pred(#[trigger] s[j]),
        },
    decreases s.len(),
{
    if s.len() > 0 && !pred(s[0]) {
        let rest = s.drop_first();
        lemma_first_index(rest, pred);
        match first_index(rest, pred) {
            Some(i) => {
                assert forall|j: int| 0 <= j < i + 1 implies !pred(#[trigger] s[j]) by {
                    if j > 0 {
                        assert(s[j] == rest[j - 1]);
                    }
                }
            },
            None => {
                assert forall|j: int| 0 <= j < s.len() implies !pred(#[trigger] s[j]) by {
                    if j > 0 {
                        assert(s[j] == rest[j - 1]);
                    }
                }
            },
        }
    }
}

/// An index of an item that `pred` holds of, with none before it that it
/// holds of, is the first index.
pub proof fn lemma_first_index_is<A>(s: Seq<A>, pred: spec_fn(A) -> bool, i: int)
    requires
        0 <= i < s.len(),
        pred(s[i]),
        forall|j: int| 0 <= j < i ==> !pred(#[trigger] s[j]),
    ensures
        first_index(s, pred) == Some(i),
{
    lemma_first_index(s, pred);
}

/// Where `pred` holds of no item, there is no first index.
pub proof fn lemma_first_index_none<A>(s: Seq<A>, pred: spec_fn(A) -> bool)
    requires
        forall|j: int| 0 <= j < s.len() ==> !pred(#[trigger] s[j]),
    ensures
        first_index(s, pred) is None,
{
    lemma_first_index(s, pred);
}

/// One, as a weight: weights are counted in millionths.
pub const WEIGHT_ONE: u64 = 1_000_000;

/// The product of weights, each counted in millionths and each product
/// rounded down to a millionth; `None` where a product along the way does
/// not fit.
pub open spec fn spec_product(vals: Seq<u64>) -> Option<u64>
    decreases vals.len(),
{
    if vals.len() == 0 {
        Some(WEIGHT_ONE)
    } else {
        match spec_product(vals.drop_last()) {
            None => None,
            Some(acc) => if acc * vals.last() / 1_000_000 <= u64::MAX {
                Some((acc * vals.last() / 1_000_000) as u64)
            } else {
                None
            },
        }
    }
}

/// The product of weights that are at most one is a weight that is at most
/// one.
pub proof fn lemma_product_of_weights(vals: Seq<u64>)
    requires
        forall|i: int| 0 <= i < vals.len() ==> vals[i] <= WEIGHT_ONE,
    ensures
        spec_product(vals) is Some,
        spec_product(vals)->0 <= WEIGHT_ONE,
    decreases vals.len(),
{
    if vals.len() > 0 {
        lemma_product_of_weights(vals.drop_last());
        let acc = spec_product(vals.drop_last())->0;
        let v = vals.last();
        assert(acc * v <= 1_000_000 * 1_000_000) by (nonlinear_arith)
            requires
                acc <= 1_000_000,
                v <= 1_000_000,
        ;
    }
}

/// Multiplies weights counted in millionths.
pub fn product(vals: &Vec<u64>) -> (result: Option<u64>)
    ensures
        result == spec_product(vals@),
{
    let mut acc: u64 = WEIGHT_ONE;
    let mut k: usize = 0;
    while k < vals.len()
        invariant
            k <= vals.len(),
            spec_product(vals@.take(k as int)) == Some(acc),
        decreases vals.len() - k,
    {
        proof {
            assert(vals@.take(k + 1).drop_last() =~= vals@.take(k as int));
            assert(acc * vals@[k as int] <= u64::MAX * u64::MAX) by (nonlinear_arith)
                requires
                    acc <= u64::MAX,
                    vals@[k as int] <= u64::MAX,
            ;
        }
        let wide: u128 = (acc as u128) * (vals[k] as u128) / 1_000_000;
        if wide > u64::MAX as u128 {
            proof {
                lemma_product_overflow_stays(vals@, k + 1);
            }
            return None;
        }
        acc = wide as u64;
        k += 1;
    }
    assert(vals@.take(k as int) =~= vals@);
    Some(acc)
}

/// Once the product of the first `n` weights does not fit, the product of
/// all does not fit.
pub proof fn lemma_product_overflow_stays(vals: Seq<u64>, n: int)
    requires
        0 <= n <= vals.len(),
        spec_product(vals.take(n)) is None,
    ensures
        spec_product(vals) is None,
    decreases vals.len() - n,
{
    if n == vals.len() {
        assert(vals.take(n) =~= vals);
    } else {
        assert(vals.take(n + 1).drop_last() =~= vals.take(n));
        lemma_product_overflow_stays(vals, n + 1);
    }
}

/// A value with noise: the value moved by the remainder of `draw` over the
/// width of the noise, which lies between `-max_noise` and `max_noise`. A
/// weight stays a weight, between zero and one; a value above one is only
/// kept from falling below zero and from leaving the range of its type.
pub open spec fn spec_noisy(val: u64, max_noise: u32, draw: u32) -> u64 {
    let moved = val + (draw as int) % (2 * max_noise + 1) - max_noise;
    if moved < 0 {
        0
    } else if val <= WEIGHT_ONE && moved > WEIGHT_ONE {
        WEIGHT_ONE
    } else if moved > u64::MAX {
        u64::MAX
    } else {
        moved as u64
    }
}

/// The values with noise: each value is moved by a draw of its own, the
/// first value by the next draw of the generator.
pub open spec fn spec_insert_noise(vals: Seq<u64>, max_noise: u32, rng: TickBasedRng) -> Seq<u64> {
    Seq::new(
        vals.len(),
        |i: int| spec_noisy(vals[i], max_noise, rng.spec_advance_by(i as nat).spec_next()),
    )
}

/// Moves each value by noise of at most `max_noise`, drawn from `rng`: one
/// draw for each value. The same generator gives the same noise.
pub fn insert_noise(vals: &mut Vec<u64>, max_noise: u32, rng: &mut TickBasedRng)
    ensures
        final(vals)@ == spec_insert_noise(old(vals)@, max_noise, *old(rng)),
        *final(rng) == old(rng).spec_advance_by(old(vals)@.len()),
        final(rng).seed == old(rng).seed,
        final(rng).tick == old(rng).tick,
{
    let width: u64 = 2 * (max_noise as u64) + 1;
    let mut k: usize = 0;
    while k < vals.len()
        invariant
            k <= vals.len(),
            vals@.len() == old(vals)@.len(),
            width == 2 * max_noise + 1,
            *rng == old(rng).spec_advance_by(k as nat),
            rng.seed == old(rng).seed,
            rng.tick == old(rng).tick,
            forall|i: int|
                0 <= i < k ==> #[trigger] vals@[i] == spec_insert_noise(
                    old(vals)@,
                    max_noise,
                    *old(rng),
                )[i],
            forall|i: int| k <= i < vals@.len() ==> #[trigger] vals@[i] == old(vals)@[i],
        decreases vals.len() - k,
    {
        let val: u64 = vals[k];
        let draw: u32 = rng.rand();
        let moved: u128 = val as u128 + ((draw as u64) % width) as u128;
        let noisy: u64 = if moved < max_noise as u128 {
            0
        } else if val <= WEIGHT_ONE && moved - max_noise as u128 > WEIGHT_ONE as u128 {
            WEIGHT_ONE
        } else if moved - max_noise as u128 > u64::MAX as u128 {
            u64::MAX
        } else {
            (moved - max_noise as u128) as u64
        };
        vals[k] = noisy;
        k += 1;
    }
    assert(vals@ =~= spec_insert_noise(old(vals)@, max_noise, *old(rng)));
}

/// Noise of no width changes no weight.
pub proof fn lemma_no_noise(vals: Seq<u64>, rng: TickBasedRng)
    ensures
        spec_insert_noise(vals, 0, rng) == vals,
{
    assert(spec_insert_noise(vals, 0, rng) =~= vals);
}

/// Noise moves a weight by no more than its width, and a weight stays
/// between zero and one.
pub proof fn lemma_noise_bounded(val: u64, max_noise: u32, draw: u32)
    ensures
        val - max_noise <= spec_noisy(val, max_noise, draw) <= val + max_noise,
        val <= WEIGHT_ONE ==> spec_noisy(val, max_noise, draw) <= WEIGHT_ONE,
{
}

/// The whole part of the square root of `n`.
pub open spec fn spec_isqrt(n: nat) -> nat
    decreases n,
{
    if n == 0 {
        0
    } else {
        let r = spec_isqrt((n - 1) as nat);
        if (r + 1) * (r + 1) <= n {
            r + 1
        } else {
            r
        }
    }
}

/// The whole root is the largest number whose square is at most `n`.
pub proof fn lemma_isqrt(n: nat)
    ensures
        spec_isqrt(n) * spec_isqrt(n) <= n < (spec_isqrt(n) + 1) * (spec_isqrt(n) + 1),
    decreases n,
{
    let q = spec_isqrt(n);
    if n == 0 {
        assert(q * q == 0 && (q + 1) * (q + 1) == 1) by (nonlinear_arith)
            requires
                q == 0,
        ;
    } else {
        lemma_isqrt((n - 1) as nat);
        let r = spec_isqrt((n - 1) as nat);
        if (r + 1) * (r + 1) <= n {
            assert(q * q == (r + 1) * (r + 1) && (q + 1) * (q + 1) > (r + 1) * (r + 1))
                by (nonlinear_arith)
                requires
                    q == r + 1,
            ;
        } else {
            assert(q == r);
        }
    }
}

/// Only the whole root has its square at most `n` and the next square above.
pub proof fn lemma_isqrt_unique(n: nat, r: nat)
    requires
        r * r <= n < (r + 1) * (r + 1),
    ensures
        r == spec_isqrt(n),
{
    lemma_isqrt(n);
    let q = spec_isqrt(n);
    if r < q {
        assert((r + 1) * (r + 1) <= q * q) by (nonlinear_arith)
            requires
                r + 1 <= q,
        ;
    } else if q < r {
        assert((q + 1) * (q + 1) <= r * r) by (nonlinear_arith)
            requires
                q + 1 <= r,
        ;
    }
}

/// The whole part of the square root of `n`.
pub fn isqrt(n: u128) -> (root: u64)
    ensures
        root == spec_isqrt(n as nat),
{
    let mut lo: u128 = 0;
    let mut hi: u128 = 0x1_0000_0000_0000_0000;
    assert(0x1_0000_0000_0000_0000u128 * 0x1_0000_0000_0000_0000u128 > u128::MAX)
        by (nonlinear_arith);
    while hi - lo > 1
        invariant
            lo < hi <= 0x1_0000_0000_0000_0000,
            lo * lo <= n < hi * hi,
        decreases hi - lo,
    {
        let mid: u128 = lo + (hi - lo) / 2;
        assert(mid * mid <= 0xffff_ffff_ffff_ffff * 0xffff_ffff_ffff_ffff) by (nonlinear_arith)
            requires
                0 <= mid <= 0xffff_ffff_ffff_ffff,
        ;
        if mid * mid <= n {
            lo = mid;
        } else {
            hi = mid;
        }
    }
    proof {
        lemma_isqrt_unique(n as nat, lo as nat);
    }
    lo as u64
}

/// The character of a digit.
pub open spec fn spec_digit(d: int) -> char {
    if d == 0 {
        '0'
    } else if d == 1 {
        '1'
    } else if d == 2 {
        '2'
    } else if d == 3 {
        '3'
    } else if d == 4 {
        '4'
    } else if d == 5 {
        '5'
    } else if d == 6 {
        '6'
    } else if d == 7 {
        '7'
    } else if d == 8 {
        '8'
    } else {
        '9'
    }
}

/// The digits of a number written to the base ten, the highest first.
pub open spec fn spec_digits(n: nat) -> Seq<char>
    decreases n,
{
    if n < 10 {
        seq![spec_digit(n as int)]
    } else {
        spec_digits(n / 10).push(spec_digit((n % 10) as int))
    }
}

/// A whole number written to the base ten, with a minus sign before a
/// negative one.
pub open spec fn spec_decimal(v: int) -> Seq<char> {
    if v < 0 {
        seq!['-'] + spec_digits((-v) as nat)
    } else {
        spec_digits(v as nat)
    }
}

fn digit_text(d: u64) -> (text: &'static str)
    requires
        d < 10,
    ensures
        text@ == seq![spec_digit(d as int)],
{
    proof {
        reveal_strlit("0");
        reveal_strlit("1");
        reveal_strlit("2");
        reveal_strlit("3");
        reveal_strlit("4");
        reveal_strlit("5");
        reveal_strlit("6");
        reveal_strlit("7");
        reveal_strlit("8");
        reveal_strlit("9");
    }
    let text = if d == 0 {
        "0"
    } else if d == 1 {
        "1"
    } else if d == 2 {
        "2"
    } else if d == 3 {
        "3"
    } else if d == 4 {
        "4"
    } else if d == 5 {
        "5"
    } else if d == 6 {
        "6"
    } else if d == 7 {
        "7"
    } else if d == 8 {
        "8"
    } else {
        "9"
    };
    assert(text@ =~= seq![spec_digit(d as int)]);
    text
}

fn digits(n: u64) -> (text: String)
    ensures
        text@ == spec_digits(n as nat),
    decreases n,
{
    if n < 10 {
        digit_text(n).to_owned()
    } else {
        let mut text = digits(n / 10);
        text.append(digit_text(n % 10));
        assert(text@ =~= spec_digits((n / 10) as nat).push(spec_digit((n % 10) as int)));
        text
    }
}

/// Writes a whole number to the base ten.
pub fn decimal(v: i64) -> (text: String)
    ensures
        text@ == spec_decimal(v as int),
{
    if v < 0 {
        let magnitude: u64 = if v == i64::MIN {
            0x8000_0000_0000_0000
        } else {
            (-v) as u64
        };
        proof {
            reveal_strlit("-");
            assert("-"@ =~= seq!['-']);
        }
        "-".to_owned().concat(digits(magnitude).as_str())
    } else {
        digits(v as u64)
    }
}

/// The period in milliseconds of something that happens `f` times a second,
/// rounded down; of something that never happens, the longest period there is.
pub open spec fn spec_frequency_to_period(f: u32) -> u64 {
    if f == 0 {
        u64::MAX
    } else {
        (1000int / (f as int)) as u64
    }
}

/// The period in milliseconds of something that happens `f` times a second.
pub fn frequency_to_period(f: u32) -> (millis: u64)
    ensures
        millis == spec_frequency_to_period(f),
{
    if f == 0 {
        u64::MAX
    } else {
        1000 / (f as u64)
    }
}

} // verus!
