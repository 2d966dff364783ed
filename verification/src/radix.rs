//! Positional numerals: the mathematics shared by the text encodings.
//!
//! A numeral is a big-endian sequence of digits. Re-expressing a numeral in
//! another base keeps its value and the number of its leading zero digits;
//! that is all a base-58 codec does.

use vstd::prelude::*;
use vstd::arithmetic::div_mod::{
    lemma_div_decreases, lemma_fundamental_div_mod, lemma_fundamental_div_mod_converse,
    lemma_basic_div, lemma_mod_bound, lemma_small_mod,
};
use vstd::arithmetic::mul::lemma_mul_strictly_positive;

verus! {

/// The value of a big-endian digit sequence in `base`.
pub open spec fn value_be(digits: Seq<nat>, base: nat) -> nat
    decreases digits.len(),
{
    if digits.len() == 0 {
        0
    } else {
        value_be(digits.drop_last(), base) * base + digits.last()
    }
}

/// The shortest big-endian digit sequence in `base` whose value is `n`;
/// zero is the empty sequence.
pub open spec fn digits_be(n: nat, base: nat) -> Seq<nat>
    decreases n,
    when base >= 2
    via digits_be_terminates
{
    if n == 0 {
        Seq::empty()
    } else {
        digits_be(n / base, base).push(n % base)
    }
}

#[via_fn]
proof fn digits_be_terminates(n: nat, base: nat) {
    if n != 0 {
        lemma_div_decreases(n as int, base as int);
    }
}

/// How many zero digits stand at the front of `digits`.
pub open spec fn leading_zeros(digits: Seq<nat>) -> nat
    decreases digits.len(),
{
    if digits.len() == 0 || digits[0] != 0 {
        0
    } else {
        1 + leading_zeros(digits.drop_first())
    }
}

/// A run of `n` zero digits.
pub open spec fn zeros(n: nat) -> Seq<nat> {
    Seq::new(n, |i: int| 0nat)
}

/// Every digit is below `base`.
pub open spec fn all_below(digits: Seq<nat>, base: nat) -> bool {
    forall|i: int| 0 <= i < digits.len() ==> #[trigger] digits[i] < base
}

/// No zero digit stands at the front.
pub open spec fn no_leading_zero(digits: Seq<nat>) -> bool {
    digits.len() == 0 || digits[0] != 0
}

/// The numeral `digits`, read in base `from`, written in base `to`:
/// as many leading zeros as before, then the shortest digits of the value.
pub open spec fn convert(digits: Seq<nat>, from: nat, to: nat) -> Seq<nat> {
    zeros(leading_zeros(digits)) + digits_be(value_be(digits, from), to)
}

/// One more digit at the end: the value so far times the base, plus the
/// digit.
pub broadcast proof fn lemma_value_push(digits: Seq<nat>, digit: nat, base: nat)
    ensures
        #[trigger] value_be(digits.push(digit), base) == value_be(digits, base) * base + digit,
{
    assert(digits.push(digit).drop_last() =~= digits);
}

/// The digits of a number give that number back.
pub proof fn lemma_value_of_digits(n: nat, base: nat)
    requires
        base >= 2,
    ensures
        value_be(digits_be(n, base), base) == n,
    decreases n,
{
    if n != 0 {
        lemma_div_decreases(n as int, base as int);
        lemma_value_of_digits(n / base, base);
        let d = digits_be(n / base, base).push(n % base);
        assert(d.drop_last() =~= digits_be(n / base, base));
        lemma_fundamental_div_mod(n as int, base as int);
        assert(value_be(d, base) == (n / base) * base + n % base);
        assert((n / base) * base == base * (n / base)) by (nonlinear_arith);
    }
}

/// The digits of a number are below the base and do not start with zero.
pub proof fn lemma_digits_canonical(n: nat, base: nat)
    requires
        base >= 2,
    ensures
        all_below(digits_be(n, base), base),
        no_leading_zero(digits_be(n, base)),
        n > 0 ==> digits_be(n, base).len() > 0,
    decreases n,
{
    if n != 0 {
        lemma_div_decreases(n as int, base as int);
        lemma_digits_canonical(n / base, base);
        lemma_mod_bound(n as int, base as int);
        let q = digits_be(n / base, base);
        let d = q.push(n % base);
        assert(digits_be(n, base) == d);
        assert forall|i: int| 0 <= i < d.len() implies #[trigger] d[i] < base by {
            if i < q.len() {
                assert(d[i] == q[i]);
            }
        }
        if n / base == 0 {
            assert(q.len() == 0);
            lemma_fundamental_div_mod(n as int, base as int);
            assert(base * (n / base) == 0) by (nonlinear_arith)
                requires
                    n / base == 0,
            ;
            assert(d[0] == n % base);
        } else {
            assert(d[0] == q[0]);
        }
    }
}

/// A numeral that starts with a non-zero digit is worth more than zero.
pub proof fn lemma_value_positive(digits: Seq<nat>, base: nat)
    requires
        base >= 2,
        digits.len() > 0,
        digits[0] != 0,
    ensures
        value_be(digits, base) > 0,
    decreases digits.len(),
{
    if digits.len() > 1 {
        let front = digits.drop_last();
        assert(front[0] == digits[0]);
        lemma_value_positive(front, base);
        lemma_mul_strictly_positive(value_be(front, base) as int, base as int);
    }
}

/// A numeral without a leading zero is the digit sequence of its value.
pub proof fn lemma_digits_of_value(digits: Seq<nat>, base: nat)
    requires
        base >= 2,
        all_below(digits, base),
        no_leading_zero(digits),
    ensures
        digits_be(value_be(digits, base), base) == digits,
    decreases digits.len(),
{
    if digits.len() == 0 {
    } else {
        let front = digits.drop_last();
        let last = digits.last();
        let n = value_be(digits, base);
        assert(last < base);
        assert(all_below(front, base)) by {
            assert forall|i: int| 0 <= i < front.len() implies #[trigger] front[i] < base by {
                assert(front[i] == digits[i]);
            }
        }
        if front.len() == 0 {
            assert(value_be(front, base) == 0);
            assert(0 * base == 0) by (nonlinear_arith);
            assert(n == last);
            lemma_basic_div(last as int, base as int);
            lemma_small_mod(last, base);
            assert(n / base == 0);
            assert(n % base == last);
            assert(n > 0);
            assert(digits_be(0, base) == Seq::<nat>::empty());
            assert(digits_be(n, base) == Seq::<nat>::empty().push(last));
            assert(digits_be(n, base) =~= digits);
        } else {
            assert(front[0] == digits[0]);
            lemma_value_positive(front, base);
            lemma_digits_of_value(front, base);
            let q = value_be(front, base);
            assert(q * base == base * q) by (nonlinear_arith);
            lemma_fundamental_div_mod_converse(n as int, base as int, q as int, last as int);
            assert(n / base == q);
            assert(n % base == last);
            assert(n > 0);
            assert(digits_be(n, base) == digits_be(q, base).push(last));
            assert(front.push(last) =~= digits);
        }
    }
}

/// Zero digits at the front add nothing to the value.
pub proof fn lemma_value_ignores_leading_zeros(count: nat, digits: Seq<nat>, base: nat)
    ensures
        value_be(zeros(count) + digits, base) == value_be(digits, base),
    decreases digits.len(), count,
{
    let whole = zeros(count) + digits;
    if digits.len() > 0 {
        assert(whole.drop_last() =~= zeros(count) + digits.drop_last());
        assert(whole.last() == digits.last());
        lemma_value_ignores_leading_zeros(count, digits.drop_last(), base);
    } else if count > 0 {
        assert(whole.drop_last() =~= zeros((count - 1) as nat) + digits);
        assert(whole.last() == 0);
        lemma_value_ignores_leading_zeros((count - 1) as nat, digits, base);
        assert(value_be(digits, base) == 0);
        assert(0 * base == 0) by (nonlinear_arith);
    } else {
        assert(whole =~= digits);
    }
}

/// A numeral is worth at least as much as any of its prefixes.
pub proof fn lemma_value_of_prefix(digits: Seq<nat>, len: int, base: nat)
    requires
        base >= 1,
        0 <= len <= digits.len(),
    ensures
        value_be(digits.take(len), base) <= value_be(digits, base),
    decreases digits.len() - len,
{
    if len == digits.len() {
        assert(digits.take(len) =~= digits);
    } else {
        let front = digits.drop_last();
        assert(front.take(len) =~= digits.take(len));
        lemma_value_of_prefix(front, len, base);
        let v = value_be(front, base);
        assert(v * base >= v) by (nonlinear_arith)
            requires
                base >= 1,
                v >= 0,
        ;
    }
}

/// Zeros put before a numeral without a leading zero are its leading zeros.
pub proof fn lemma_leading_zeros_of_padded(count: nat, digits: Seq<nat>)
    requires
        no_leading_zero(digits),
    ensures
        leading_zeros(zeros(count) + digits) == count,
    decreases count,
{
    let whole = zeros(count) + digits;
    if count == 0 {
        assert(whole =~= digits);
    } else {
        assert(whole[0] == 0);
        assert(whole.drop_first() =~= zeros((count - 1) as nat) + digits);
        lemma_leading_zeros_of_padded((count - 1) as nat, digits);
    }
}

/// A numeral is its leading zeros followed by a numeral without one.
pub proof fn lemma_leading_zeros_split(digits: Seq<nat>)
    ensures
        leading_zeros(digits) <= digits.len(),
        digits == zeros(leading_zeros(digits)) + digits.skip(leading_zeros(digits) as int),
        no_leading_zero(digits.skip(leading_zeros(digits) as int)),
    decreases digits.len(),
{
    let count = leading_zeros(digits);
    if digits.len() == 0 || digits[0] != 0 {
        assert(digits.skip(0) =~= digits);
        assert(zeros(0) + digits =~= digits);
    } else {
        let rest = digits.drop_first();
        lemma_leading_zeros_split(rest);
        let inner = leading_zeros(rest);
        assert(count == inner + 1);
        assert(digits.skip(count as int) =~= rest.skip(inner as int));
        assert(zeros(count) + digits.skip(count as int) =~= digits) by {
            let joined = zeros(count) + digits.skip(count as int);
            assert(rest =~= zeros(inner) + rest.skip(inner as int));
            assert(joined.len() == digits.len());
            assert forall|i: int| 0 <= i < digits.len() implies joined[i] == digits[i] by {
                if i == 0 {
                } else if i < count {
                    assert(rest[i - 1] == zeros(inner)[i - 1]);
                } else {
                }
            }
        }
    }
}

/// The digits that `convert` writes are below the target base.
pub proof fn lemma_convert_below(digits: Seq<nat>, from: nat, to: nat)
    requires
        to >= 2,
    ensures
        all_below(convert(digits, from, to), to),
{
    lemma_digits_canonical(value_be(digits, from), to);
    let lead = zeros(leading_zeros(digits));
    let tail = digits_be(value_be(digits, from), to);
    let out = convert(digits, from, to);
    assert forall|i: int| 0 <= i < out.len() implies #[trigger] out[i] < to by {
        if i < lead.len() {
            assert(out[i] == 0);
        } else {
            assert(out[i] == tail[i - lead.len()]);
        }
    }
}

/// Converting a numeral to another base and back gives the numeral again.
pub proof fn lemma_convert_round_trip(digits: Seq<nat>, from: nat, to: nat)
    requires
        from >= 2,
        to >= 2,
        all_below(digits, from),
    ensures
        convert(convert(digits, from, to), to, from) == digits,
{
    let count = leading_zeros(digits);
    let n = value_be(digits, from);
    let tail = digits_be(n, to);
    let there = convert(digits, from, to);
    lemma_digits_canonical(n, to);
    lemma_leading_zeros_of_padded(count, tail);
    lemma_value_ignores_leading_zeros(count, tail, to);
    lemma_value_of_digits(n, to);
    assert(leading_zeros(there) == count);
    assert(value_be(there, to) == n);
    lemma_leading_zeros_split(digits);
    let body = digits.skip(count as int);
    lemma_value_ignores_leading_zeros(count, body, from);
    assert(value_be(body, from) == n);
    assert(all_below(body, from)) by {
        assert forall|i: int| 0 <= i < body.len() implies #[trigger] body[i] < from by {
            assert(body[i] == digits[i + count]);
        }
    }
    lemma_digits_of_value(body, from);
    assert(convert(there, to, from) == zeros(count) + digits_be(n, from));
}

} // verus!
