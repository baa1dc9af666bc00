//! Amounts behave like the integers.
use vstd::prelude::*;

use crate::amount::{magnitude, TokenAmount, TOKEN_PRECISION};

verus! {

/// Taking away what was added gives the amount back, in either order. The opposite of an amount is
/// nothing less the amount, and twice the opposite is the amount.
pub proof fn differences_undo_sums(
    a: TokenAmount,
    b: TokenAmount,
    ab: TokenAmount,
    ba: TokenAmount,
    back: TokenAmount,
    zero: TokenAmount,
    less: TokenAmount,
    opposite: TokenAmount,
    again: TokenAmount,
)
    requires
        call_ensures(TokenAmount::plus, (&a, &b), ab),
        call_ensures(TokenAmount::plus, (&b, &a), ba),
        call_ensures(TokenAmount::minus, (&ab, &b), back),
        call_ensures(TokenAmount::zero, (), zero),
        call_ensures(TokenAmount::minus, (&zero, &a), less),
        call_ensures(TokenAmount::neg, (&a,), opposite),
        call_ensures(TokenAmount::neg, (&opposite,), again),
    ensures
        ab@ == ba@,
        back@ == a@,
        opposite@ == less@,
        again@ == a@,
        a@ + opposite@ == 0,
{
}

/// Of two amounts just one holds: the first is less, the second is less, or they are the same. An amount
/// is negative where it is less than zero, and zero where it is the same as zero. The larger of the two
/// is one of them, and neither is more. Adding the same to both keeps their order.
pub proof fn amounts_are_in_order(
    a: TokenAmount,
    b: TokenAmount,
    c: TokenAmount,
    zero: TokenAmount,
    ab: bool,
    ba: bool,
    same: bool,
    negative: bool,
    below: bool,
    nothing: bool,
    most: TokenAmount,
    x: TokenAmount,
    y: TokenAmount,
    xy: bool,
)
    requires
        call_ensures(TokenAmount::lt, (&a, &b), ab),
        call_ensures(TokenAmount::lt, (&b, &a), ba),
        call_ensures(TokenAmount::same, (&a, &b), same),
        call_ensures(TokenAmount::zero, (), zero),
        call_ensures(TokenAmount::is_negative, (&a,), negative),
        call_ensures(TokenAmount::lt, (&a, &zero), below),
        call_ensures(TokenAmount::is_zero, (&a,), nothing),
        call_ensures(TokenAmount::max, (&a, &b), most),
        call_ensures(TokenAmount::plus, (&a, &c), x),
        call_ensures(TokenAmount::plus, (&b, &c), y),
        call_ensures(TokenAmount::lt, (&x, &y), xy),
    ensures
        ab ==> !ba && !same,
        ba ==> !same,
        ab || ba || same,
        negative == below,
        nothing == (a@ == zero@),
        most@ == a@ || most@ == b@,
        a@ <= most@ && b@ <= most@,
        xy == ab,
{
}

/// An amount is its quotient times the divisor and its remainder, which is smaller than the divisor and
/// not of the other sign. It is a multiple of the divisor just where nothing remains.
pub proof fn amounts_are_divided(
    a: TokenAmount,
    divisor: u64,
    parts: (TokenAmount, TokenAmount),
    whole: bool,
)
    requires
        divisor > 0,
        call_ensures(TokenAmount::div_rem, (&a, divisor), parts),
        call_ensures(TokenAmount::is_multiple_of, (&a, divisor), whole),
    ensures
        parts.0@ * divisor + parts.1@ == a@,
        -divisor < parts.1@ < divisor,
        a@ > 0 ==> parts.1@ >= 0,
        a@ < 0 ==> parts.1@ <= 0,
        whole == (parts.1@ == 0),
{
    let (q, r, d) = (parts.0@, parts.1@, divisor as int);
    assert((r == 0) == (a@ % d == 0)) by (nonlinear_arith)
        requires
            d > 0,
            a@ == q * d + r,
            -d < r < d,
    {
        if r == 0 {
            assert((q * d) % d == 0);
        } else if r > 0 {
            assert((q * d + r) % d == r);
        } else {
            assert(q * d + r == (q - 1) * d + (r + d));
            assert(((q - 1) * d + (r + d)) % d == r + d);
        }
    }
}

/// Whole tokens are so many times the precision: they divide by it without a remainder into the number
/// that was given, and they add up as the numbers do.
pub proof fn whole_tokens_divide_by_the_precision(
    m: i64,
    n: i64,
    a: TokenAmount,
    b: TokenAmount,
    sum: TokenAmount,
    parts: (TokenAmount, TokenAmount),
    all: (TokenAmount, TokenAmount),
)
    requires
        call_ensures(TokenAmount::from_whole, (m,), a),
        call_ensures(TokenAmount::from_whole, (n,), b),
        call_ensures(TokenAmount::plus, (&a, &b), sum),
        call_ensures(TokenAmount::div_rem, (&a, TOKEN_PRECISION), parts),
        call_ensures(TokenAmount::div_rem, (&sum, TOKEN_PRECISION), all),
    ensures
        parts.0@ == m && parts.1@ == 0,
        all.0@ == m + n && all.1@ == 0,
{
    let d = TOKEN_PRECISION as int;
    lemma_divides(m as int, parts.0@, parts.1@, d);
    assert(sum@ == (m + n) * d) by (nonlinear_arith)
        requires
            sum@ == m * d + n * d,
    ;
    lemma_divides(m + n, all.0@, all.1@, d);
}

proof fn lemma_divides(k: int, q: int, r: int, d: int)
    requires
        d > 0,
        k * d == q * d + r,
        -d < r < d,
    ensures
        q == k,
        r == 0,
{
    assert(q == k) by (nonlinear_arith)
        requires
            d > 0,
            k * d == q * d + r,
            -d < r < d,
    ;
}

/// An amount is made of its digits again, where its sign is given with them. Amounts given in the
/// smallest unit are what was given.
pub proof fn amounts_are_made_of_their_digits(
    a: TokenAmount,
    digits: &Vec<u32>,
    negative: bool,
    copy: Vec<u32>,
    back: TokenAmount,
    n: i128,
    given: TokenAmount,
)
    requires
        call_ensures(TokenAmount::digits, (&a,), digits),
        call_ensures(TokenAmount::is_negative, (&a,), negative),
        copy@ == digits@,
        call_ensures(TokenAmount::from_digits, (negative, copy), back),
        call_ensures(TokenAmount::from_atto, (n,), given),
    ensures
        back@ == a@,
        given@ == n,
{
    assert(magnitude(digits@) >= 0);
}

} // verus!
