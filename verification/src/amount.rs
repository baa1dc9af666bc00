//! Token amounts: integers of any size, counted in the smallest unit.
use fvm_shared::bigint::{BigInt, BigUint, Sign};
use fvm_shared::econ::TokenAmount as Atto;
use vstd::prelude::*;

verus! {

/// How many of the smallest units make one whole token.
pub const TOKEN_PRECISION: u64 = 1_000_000_000_000_000_000;

/// The natural number that base-2^32 digits stand for, the lowest digit first.
pub open spec fn magnitude(digits: Seq<u32>) -> nat
    decreases digits.len(),
{
    if digits.len() == 0 {
        0
    } else {
        digits[0] as nat + 0x1_0000_0000 * magnitude(digits.drop_first())
    }
}

/// A quantity of tokens in the smallest unit. It may be negative, and it has no largest value.
#[derive(Debug, PartialEq, Eq, Hash)]
pub struct TokenAmount {
    /// Whether the amount is below zero.
    pub(crate) negative: bool,
    /// The digits of its absolute value.
    pub(crate) digits: Vec<u32>,
}

impl View for TokenAmount {
    type V = int;

    closed spec fn view(&self) -> int {
        if self.negative {
            -magnitude(self.digits@)
        } else {
            magnitude(self.digits@) as int
        }
    }
}

/// A number whose highest digit is not zero is not zero.
proof fn lemma_magnitude_positive(digits: Seq<u32>)
    requires
        digits.len() > 0,
        digits.last() != 0,
    ensures
        magnitude(digits) > 0,
    decreases digits.len(),
{
    if digits.len() > 1 {
        assert(digits.drop_first().last() == digits.last());
        lemma_magnitude_positive(digits.drop_first());
    }
}

/// A highest digit of zero stands for nothing.
proof fn lemma_magnitude_drops_zero(digits: Seq<u32>)
    requires
        digits.len() > 0,
        digits.last() == 0,
    ensures
        magnitude(digits.drop_last()) == magnitude(digits),
    decreases digits.len(),
{
    reveal_with_fuel(magnitude, 2);
    if digits.len() > 1 {
        lemma_magnitude_drops_zero(digits.drop_first());
        assert(digits.drop_last().drop_first() =~= digits.drop_first().drop_last());
    }
}

/// What four digits stand for.
proof fn lemma_magnitude_of_digits(digits: Seq<u32>)
    requires
        digits.len() <= 4,
    ensures
        digits.len() == 0 ==> magnitude(digits) == 0,
        digits.len() == 1 ==> magnitude(digits) == digits[0],
        digits.len() == 2 ==> magnitude(digits) == digits[0] + 0x1_0000_0000 * digits[1],
        digits.len() == 3 ==> magnitude(digits) == digits[0] + 0x1_0000_0000 * digits[1]
            + 0x1_0000_0000_0000_0000 * digits[2],
        digits.len() == 4 ==> magnitude(digits) == digits[0] + 0x1_0000_0000 * digits[1]
            + 0x1_0000_0000_0000_0000 * digits[2] + 0x1_0000_0000_0000_0000_0000_0000 * digits[3],
{
    reveal_with_fuel(magnitude, 5);
}

/// The sum of two amounts, by the `+` of `fvm_shared`'s `TokenAmount`. It claims that the result
/// is the exact sum: the outside type has no upper bound.
#[verifier::external_body]
fn atto_sum(a: &TokenAmount, b: &TokenAmount) -> (r: TokenAmount)
    ensures
        r@ == a@ + b@,
{
    let s = if a.negative { Sign::Minus } else { Sign::Plus };
    let t = if b.negative { Sign::Minus } else { Sign::Plus };
    let x = Atto::from_atto(BigInt::from_biguint(s, BigUint::new(a.digits.clone())));
    let y = Atto::from_atto(BigInt::from_biguint(t, BigUint::new(b.digits.clone())));
    let sum = x + y;
    TokenAmount { negative: sum.is_negative(), digits: sum.atto().magnitude().to_u32_digits() }
}

/// Whether the first amount is below the second, by the order of `fvm_shared`'s `TokenAmount`,
/// which is the order of the integers.
#[verifier::external_body]
fn atto_below(a: &TokenAmount, b: &TokenAmount) -> (r: bool)
    ensures
        r == (a@ < b@),
{
    let s = if a.negative { Sign::Minus } else { Sign::Plus };
    let t = if b.negative { Sign::Minus } else { Sign::Plus };
    let x = Atto::from_atto(BigInt::from_biguint(s, BigUint::new(a.digits.clone())));
    let y = Atto::from_atto(BigInt::from_biguint(t, BigUint::new(b.digits.clone())));
    x.lt(&y)
}

/// Quotient and remainder by a positive number, by `TokenAmount::div_rem` of `fvm_shared`. It
/// claims that the quotient is rounded towards zero: the remainder has the amount's sign and is
/// smaller than the divisor.
#[verifier::external_body]
fn atto_div_rem(a: &TokenAmount, divisor: u64) -> (r: (TokenAmount, TokenAmount))
    requires
        divisor > 0,
    ensures
        a@ == r.0@ * divisor + r.1@,
        -divisor < r.1@ < divisor,
        a@ >= 0 ==> r.1@ >= 0,
        a@ <= 0 ==> r.1@ <= 0,
{
    let s = if a.negative { Sign::Minus } else { Sign::Plus };
    let x = Atto::from_atto(BigInt::from_biguint(s, BigUint::new(a.digits.clone())));
    let (q, m) = x.div_rem(divisor);
    let quotient =
        TokenAmount { negative: q.is_negative(), digits: q.atto().magnitude().to_u32_digits() };
    let remainder =
        TokenAmount { negative: m.is_negative(), digits: m.atto().magnitude().to_u32_digits() };
    (quotient, remainder)
}

impl TokenAmount {
    /// The digits have no leading zero, and zero carries no sign: equal amounts are equal values.
    #[verifier::type_invariant]
    pub closed spec fn normal(&self) -> bool {
        if self.digits@.len() == 0 {
            !self.negative
        } else {
            self.digits@.last() != 0
        }
    }

    /// Zero tokens.
    pub fn zero() -> (r: Self)
        ensures
            r@ == 0,
    {
        TokenAmount { negative: false, digits: Vec::new() }
    }

    /// An amount given in the smallest unit.
    pub fn from_atto(atto: i128) -> (r: Self)
        ensures
            r@ == atto,
    {
        let negative = atto < 0;
        let n: u128 = if atto == i128::MIN {
            0x8000_0000_0000_0000_0000_0000_0000_0000
        } else if negative {
            (-atto) as u128
        } else {
            atto as u128
        };
        let base: u128 = 0x1_0000_0000;
        let n1: u128 = n / base;
        let n2: u128 = n1 / base;
        let n3: u128 = n2 / base;
        let mut digits: Vec<u32> = Vec::new();
        if n > 0 {
            digits.push((n % base) as u32);
        }
        if n1 > 0 {
            digits.push((n1 % base) as u32);
        }
        if n2 > 0 {
            digits.push((n2 % base) as u32);
        }
        if n3 > 0 {
            digits.push(n3 as u32);
        }
        proof {
            lemma_magnitude_of_digits(digits@);
        }
        TokenAmount { negative, digits }
    }

    /// An amount given by the base-2^32 digits of its absolute value, the lowest digit first, and
    /// its sign.
    pub fn from_digits(negative: bool, digits: Vec<u32>) -> (r: Self)
        ensures
            r@ == (if negative {
                -magnitude(digits@)
            } else {
                magnitude(digits@) as int
            }),
    {
        let ghost given = digits@;
        let mut digits = digits;
        while digits.len() > 0 && digits[digits.len() - 1] == 0
            invariant
                magnitude(digits@) == magnitude(given),
            decreases digits.len(),
        {
            proof {
                lemma_magnitude_drops_zero(digits@);
            }
            let _ = digits.pop();
        }
        let negative = negative && digits.len() > 0;
        TokenAmount { negative, digits }
    }

    /// The base-2^32 digits of the absolute value, the lowest digit first, without leading zeros.
    pub fn digits(&self) -> (r: &Vec<u32>)
        ensures
            self@ == magnitude(r@) || self@ == -magnitude(r@),
            r@.len() > 0 ==> r@.last() != 0,
    {
        proof {
            use_type_invariant(self);
        }
        &self.digits
    }

    /// An amount given in whole tokens.
    pub fn from_whole(tokens: i64) -> (r: Self)
        ensures
            r@ == tokens * TOKEN_PRECISION,
    {
        TokenAmount::from_atto(tokens as i128 * 1_000_000_000_000_000_000i128)
    }

    /// Whether the amount is zero.
    pub fn is_zero(&self) -> (r: bool)
        ensures
            r == (self@ == 0),
    {
        proof {
            use_type_invariant(self);
            if self.digits@.len() > 0 {
                lemma_magnitude_positive(self.digits@);
            }
        }
        self.digits.len() == 0
    }

    /// Whether the amount is below zero.
    pub fn is_negative(&self) -> (r: bool)
        ensures
            r == (self@ < 0),
    {
        proof {
            use_type_invariant(self);
            if self.digits@.len() > 0 {
                lemma_magnitude_positive(self.digits@);
            }
        }
        self.negative
    }

    /// The amount with the opposite sign.
    pub fn neg(&self) -> (r: Self)
        ensures
            r@ == -self@,
    {
        proof {
            use_type_invariant(self);
        }
        let digits = self.digits.clone();
        assert(digits@ =~= self.digits@);
        let negative = if self.digits.len() == 0 { false } else { !self.negative };
        TokenAmount { negative, digits }
    }

    /// The sum of two amounts.
    pub fn plus(&self, other: &TokenAmount) -> (r: Self)
        ensures
            r@ == self@ + other@,
    {
        atto_sum(self, other)
    }

    /// Whether this amount is below the other one.
    pub fn lt(&self, other: &TokenAmount) -> (r: bool)
        ensures
            r == (self@ < other@),
    {
        atto_below(self, other)
    }

    /// Quotient and remainder by a positive number, rounded towards zero.
    pub fn div_rem(&self, divisor: u64) -> (r: (TokenAmount, TokenAmount))
        requires
            divisor > 0,
        ensures
            self@ == r.0@ * divisor + r.1@,
            -divisor < r.1@ < divisor,
            self@ >= 0 ==> r.1@ >= 0,
            self@ <= 0 ==> r.1@ <= 0,
    {
        atto_div_rem(self, divisor)
    }

    /// The larger of two amounts.
    pub fn max(&self, other: &TokenAmount) -> (r: TokenAmount)
        ensures
            r@ == if self@ < other@ { other@ } else { self@ },
    {
        if self.lt(other) {
            other.clone()
        } else {
            self.clone()
        }
    }

    /// The difference of two amounts.
    pub fn minus(&self, other: &TokenAmount) -> (r: Self)
        ensures
            r@ == self@ - other@,
    {
        self.plus(&other.neg())
    }

    /// Whether two amounts are the same.
    pub fn same(&self, other: &TokenAmount) -> (r: bool)
        ensures
            r == (self@ == other@),
    {
        self.minus(other).is_zero()
    }

    /// Whether the amount is a multiple of the divisor.
    pub fn is_multiple_of(&self, divisor: u64) -> (r: bool)
        requires
            divisor > 0,
        ensures
            r == (self@ % (divisor as int) == 0),
    {
        let (quotient, remainder) = self.div_rem(divisor);
        proof {
            lemma_remainder(self@, quotient@, remainder@, divisor as int);
        }
        remainder.is_zero()
    }
}

/// A remainder towards zero vanishes exactly when the divisor divides.
proof fn lemma_remainder(a: int, q: int, r: int, d: int)
    requires
        d > 0,
        a == q * d + r,
        -d < r < d,
    ensures
        (r == 0) == (a % d == 0),
{
    if r >= 0 {
        vstd::arithmetic::div_mod::lemma_fundamental_div_mod_converse(a, d, q, r);
    } else {
        assert(a == (q - 1) * d + (r + d)) by (nonlinear_arith)
            requires
                a == q * d + r,
        ;
        vstd::arithmetic::div_mod::lemma_fundamental_div_mod_converse(a, d, q - 1, r + d);
    }
}

impl Clone for TokenAmount {
    fn clone(&self) -> (r: Self)
        ensures
            r@ == self@,
    {
        proof {
            use_type_invariant(self);
        }
        let digits = self.digits.clone();
        assert(digits@ =~= self.digits@);
        TokenAmount { negative: self.negative, digits }
    }
}

impl Default for TokenAmount {
    fn default() -> (r: Self)
        ensures
            r@ == 0,
    {
        TokenAmount::zero()
    }
}

} // verus!
