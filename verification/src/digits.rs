//! Whole numbers of any size, written in digits to the base of a hundred,
//! the lowest digit first.

use vstd::prelude::*;

verus! {

/// A hundred to the power of `n`.
pub open spec fn spec_hundred_pow(n: nat) -> int
    decreases n,
{
    if n == 0 {
        1
    } else {
        100 * spec_hundred_pow((n - 1) as nat)
    }
}

/// Whether every digit is below a hundred.
pub open spec fn spec_digits_ok(digits: Seq<u64>) -> bool {
    forall|i: int| 0 <= i < digits.len() ==> #[trigger] digits[i] < 100
}

/// The number that the digits write.
pub open spec fn spec_digits_value(digits: Seq<u64>) -> int
    decreases digits.len(),
{
    if digits.len() == 0 {
        0
    } else {
        spec_digits_value(digits.drop_last()) + digits.last() * spec_hundred_pow(
            (digits.len() - 1) as nat,
        )
    }
}

/// A power of a hundred is positive.
pub proof fn lemma_hundred_pow_positive(n: nat)
    ensures
        spec_hundred_pow(n) > 0,
    decreases n,
{
    if n > 0 {
        lemma_hundred_pow_positive((n - 1) as nat);
    }
}

/// A number of `n` digits is below a hundred to the power of `n`, and it is
/// zero only where every digit is.
pub proof fn lemma_digits_bound(digits: Seq<u64>)
    requires
        spec_digits_ok(digits),
    ensures
        0 <= spec_digits_value(digits) < spec_hundred_pow(digits.len()),
        spec_digits_value(digits) == 0 <==> forall|i: int|
            0 <= i < digits.len() ==> #[trigger] digits[i] == 0,
    decreases digits.len(),
{
    if digits.len() > 0 {
        let rest = digits.drop_last();
        let last = digits.last() as int;
        let p = spec_hundred_pow((digits.len() - 1) as nat);
        let v = spec_digits_value(rest);
        assert(digits[digits.len() - 1] < 100);
        assert forall|i: int| 0 <= i < rest.len() implies #[trigger] rest[i] < 100 by {
            assert(rest[i] == digits[i]);
        }
        lemma_digits_bound(rest);
        lemma_hundred_pow_positive((digits.len() - 1) as nat);
        assert(0 <= last * p <= 99 * p && (last * p == 0 <==> last == 0)) by (nonlinear_arith)
            requires
                0 <= last <= 99,
                p > 0,
        ;
        if spec_digits_value(digits) == 0 {
            assert forall|i: int| 0 <= i < digits.len() implies #[trigger] digits[i] == 0 by {
                if i < rest.len() {
                    assert(rest[i] == 0);
                }
            }
        }
        if forall|i: int| 0 <= i < digits.len() ==> #[trigger] digits[i] == 0 {
            assert forall|i: int| 0 <= i < rest.len() implies #[trigger] rest[i] == 0 by {
                assert(rest[i] == digits[i]);
            }
        }
    }
}

/// The number times `m`, written with one digit more.
pub fn times(digits: &Vec<u64>, m: u64) -> (product: Vec<u64>)
    requires
        spec_digits_ok(digits@),
        m <= 100,
    ensures
        spec_digits_ok(product@),
        product@.len() == digits@.len() + 1,
        spec_digits_value(product@) == m * spec_digits_value(digits@),
{
    let mut out: Vec<u64> = Vec::new();
    let mut carry: u64 = 0;
    let mut j: usize = 0;
    while j < digits.len()
        invariant
            j <= digits.len(),
            m <= 100,
            carry < 100,
            spec_digits_ok(digits@),
            spec_digits_ok(out@),
            out@.len() == j,
            spec_digits_value(out@) + carry * spec_hundred_pow(j as nat) == m * spec_digits_value(
                digits@.take(j as int),
            ),
        decreases digits.len() - j,
    {
        let d: u64 = digits[j];
        assert(d * m <= 9900) by (nonlinear_arith)
            requires
                d < 100,
                m <= 100,
        ;
        let t: u64 = d * m + carry;
        let ghost before = out@;
        out.push(t % 100);
        proof {
            let p = spec_hundred_pow(j as nat);
            let v = spec_digits_value(digits@.take(j as int));
            let w = spec_digits_value(before);
            let low = (t % 100) as int;
            let high = (t / 100) as int;
            assert(out@.drop_last() =~= before);
            assert(digits@.take(j + 1).drop_last() =~= digits@.take(j as int));
            assert(spec_digits_value(out@) == w + low * p);
            assert(spec_digits_value(digits@.take(j + 1)) == v + d * p);
            assert(w + low * p + high * (100 * p) == m * (v + d * p)) by (nonlinear_arith)
                requires
                    w + carry * p == m * v,
                    t == d * m + carry,
                    t == 100 * high + low,
            ;
        }
        carry = t / 100;
        j += 1;
    }
    let ghost before = out@;
    out.push(carry);
    proof {
        assert(out@.drop_last() =~= before);
        assert(digits@.take(j as int) =~= digits@);
    }
    out
}

/// Whether the number is larger than a hundred to the power of the place of
/// its highest digit.
pub fn exceeds_top_place(digits: &Vec<u64>) -> (larger: bool)
    requires
        spec_digits_ok(digits@),
        digits@.len() >= 1,
    ensures
        larger == (spec_digits_value(digits@) > spec_hundred_pow((digits@.len() - 1) as nat)),
{
    let n: usize = digits.len() - 1;
    let top: u64 = digits[n];
    let ghost low = digits@.drop_last();
    let ghost p = spec_hundred_pow(n as nat);
    proof {
        assert forall|i: int| 0 <= i < low.len() implies #[trigger] low[i] < 100 by {
            assert(low[i] == digits@[i]);
        }
        lemma_digits_bound(low);
        lemma_hundred_pow_positive(n as nat);
        assert(top >= 2 ==> top * p >= 2 * p) by (nonlinear_arith)
            requires
                p > 0,
        ;
        assert(top == 1 ==> top * p == p) by (nonlinear_arith);
        assert(top == 0 ==> top * p == 0) by (nonlinear_arith);
    }
    if top >= 2 {
        return true;
    }
    if top == 0 {
        return false;
    }
    let mut k: usize = 0;
    while k < n
        invariant
            k <= n,
            n == digits@.len() - 1,
            low == digits@.drop_last(),
            p == spec_hundred_pow((digits@.len() - 1) as nat),
            spec_digits_value(digits@) == spec_digits_value(low) + p,
            0 <= spec_digits_value(low),
            spec_digits_value(low) == 0 <==> forall|i: int|
                0 <= i < low.len() ==> #[trigger] low[i] == 0,
            forall|i: int| 0 <= i < k ==> #[trigger] low[i] == 0,
        decreases n - k,
    {
        if digits[k] != 0 {
            assert(low[k as int] != 0);
            return true;
        }
        k += 1;
    }
    false
}

} // verus!
