//! Amounts of money: a currency code and a decimal amount.

use std::str::FromStr;

use rust_decimal::Decimal;
use vstd::prelude::*;
use vstd::string::StringSliceAdditionalSpecFns;

verus! {

/// The largest mantissa of an [`Amount`]: 2^96 - 1.
pub const MAX_MANTISSA: i128 = 79228162514264337593543950335;

/// The largest scale of an [`Amount`].
pub const MAX_SCALE: u32 = 28;

/// A decimal number `mantissa / 10^scale`, in the range rust_decimal
/// represents: a mantissa of at most 96 bits and a scale of at most 28.
#[derive(Clone, Copy, Debug, PartialEq, Eq, Structural)]
pub struct Amount {
    mantissa: i128,
    scale: u32,
}

/// An amount as (mantissa, scale).
pub open spec fn amt(a: Amount) -> (int, int) {
    (a.mantissa_of(), a.scale_of())
}

/// The number rust_decimal reads a text as, as (mantissa, scale).
pub uninterp spec fn decimal_parsed(s: Seq<char>) -> Option<(int, int)>;

/// Whether rust_decimal reads the text as a number.
pub open spec fn parses_as_decimal(s: Seq<char>) -> bool {
    decimal_parsed(s) is Some
}

/// rust_decimal's checked product of two amounts (it rounds where the scale
/// would pass 28).
pub uninterp spec fn decimal_product(a: (int, int), b: (int, int)) -> Option<(int, int)>;

/// rust_decimal's checked quotient of two amounts.
pub uninterp spec fn decimal_quotient(a: (int, int), b: (int, int)) -> Option<(int, int)>;

/// rust_decimal's checked difference of two amounts.
pub uninterp spec fn decimal_difference(a: (int, int), b: (int, int)) -> Option<(int, int)>;

/// rust_decimal's rounding of an amount to `dp` decimal places.
pub uninterp spec fn decimal_rounded(a: (int, int), dp: int) -> (int, int);

/// The text rust_decimal writes an amount as.
pub uninterp spec fn decimal_text_of(a: (int, int)) -> Seq<char>;

pub open spec fn pow10(n: nat) -> int
    decreases n,
{
    if n == 0 {
        1
    } else {
        10 * pow10((n - 1) as nat)
    }
}

/// Whether the value of `a` is larger than that of `b`.
pub open spec fn value_gt(a: (int, int), b: (int, int)) -> bool {
    a.0 * pow10(b.1 as nat) > b.0 * pow10(a.1 as nat)
}

pub open spec fn abs_amt(a: (int, int)) -> (int, int) {
    (if a.0 < 0 {
        -a.0
    } else {
        a.0
    }, a.1)
}

impl Amount {
    #[verifier::type_invariant]
    spec fn inv(self) -> bool {
        -MAX_MANTISSA <= self.mantissa <= MAX_MANTISSA && self.scale <= MAX_SCALE
    }

    pub closed spec fn mantissa_of(self) -> int {
        self.mantissa as int
    }

    pub closed spec fn scale_of(self) -> int {
        self.scale as int
    }

    /// The amount `mantissa / 10^scale`, where it is in range.
    pub fn new(mantissa: i128, scale: u32) -> (r: Option<Amount>)
        ensures
            r is Some == (-MAX_MANTISSA <= mantissa <= MAX_MANTISSA && scale <= MAX_SCALE),
            r matches Some(a) ==> amt(a) == (mantissa as int, scale as int),
    {
        if -MAX_MANTISSA <= mantissa && mantissa <= MAX_MANTISSA && scale <= MAX_SCALE {
            Some(Amount { mantissa, scale })
        } else {
            None
        }
    }

    pub fn mantissa(&self) -> (r: i128)
        ensures
            r == self.mantissa_of(),
    {
        self.mantissa
    }

    pub fn scale(&self) -> (r: u32)
        ensures
            r == self.scale_of(),
    {
        self.scale
    }

    /// The number a text reads as.
    pub fn parse(s: &str) -> (r: Option<Amount>)
        ensures
            r is Some == parses_as_decimal(s@),
            r matches Some(a) ==> decimal_parsed(s@) == Some(amt(a)),
    {
        parse_decimal(s)
    }
}

/// Relies on rust_decimal's `Decimal::from_str`: the number a text reads as,
/// with its mantissa and scale.
#[verifier::external_body]
pub(crate) fn parse_decimal(s: &str) -> (r: Option<Amount>)
    ensures
        match r {
            Some(a) => decimal_parsed(s@) == Some(amt(a)),
            None => decimal_parsed(s@) is None,
        },
{
    Decimal::from_str(s).ok().map(|d| Amount { mantissa: d.mantissa(), scale: d.scale() })
}

/// Relies on rust_decimal's `Decimal::checked_mul`: the product, or nothing
/// where it overflows.
#[verifier::external_body]
pub(crate) fn decimal_mul(a: Amount, b: Amount) -> (r: Option<Amount>)
    ensures
        match r {
            Some(p) => decimal_product(amt(a), amt(b)) == Some(amt(p)),
            None => decimal_product(amt(a), amt(b)) is None,
        },
{
    Decimal::from_i128_with_scale(a.mantissa, a.scale).checked_mul(
        Decimal::from_i128_with_scale(b.mantissa, b.scale),
    ).map(|d| Amount { mantissa: d.mantissa(), scale: d.scale() })
}

/// Relies on rust_decimal's `Decimal::checked_div`: the quotient, or nothing
/// where the divisor is zero or it overflows.
#[verifier::external_body]
pub(crate) fn decimal_div(a: Amount, b: Amount) -> (r: Option<Amount>)
    ensures
        match r {
            Some(q) => decimal_quotient(amt(a), amt(b)) == Some(amt(q)),
            None => decimal_quotient(amt(a), amt(b)) is None,
        },
        amt(b).0 == 0 ==> r is None,
{
    Decimal::from_i128_with_scale(a.mantissa, a.scale).checked_div(
        Decimal::from_i128_with_scale(b.mantissa, b.scale),
    ).map(|d| Amount { mantissa: d.mantissa(), scale: d.scale() })
}

/// Relies on rust_decimal's `Decimal::checked_sub`: the difference, or
/// nothing where it overflows.
#[verifier::external_body]
pub(crate) fn decimal_sub(a: Amount, b: Amount) -> (r: Option<Amount>)
    ensures
        match r {
            Some(d) => decimal_difference(amt(a), amt(b)) == Some(amt(d)),
            None => decimal_difference(amt(a), amt(b)) is None,
        },
{
    Decimal::from_i128_with_scale(a.mantissa, a.scale).checked_sub(
        Decimal::from_i128_with_scale(b.mantissa, b.scale),
    ).map(|d| Amount { mantissa: d.mantissa(), scale: d.scale() })
}

/// Relies on rust_decimal's `Decimal::round_dp`: the amount rounded to `dp`
/// decimal places.
#[verifier::external_body]
pub(crate) fn decimal_round(a: Amount, dp: u32) -> (r: Amount)
    ensures
        amt(r) == decimal_rounded(amt(a), dp as int),
{
    let d = Decimal::from_i128_with_scale(a.mantissa, a.scale).round_dp(dp);
    Amount { mantissa: d.mantissa(), scale: d.scale() }
}

/// Relies on rust_decimal's `Decimal::abs`: the same scale, the mantissa's
/// magnitude.
#[verifier::external_body]
pub(crate) fn decimal_abs(a: Amount) -> (r: Amount)
    ensures
        amt(r) == abs_amt(amt(a)),
{
    let d = Decimal::from_i128_with_scale(a.mantissa, a.scale).abs();
    Amount { mantissa: d.mantissa(), scale: d.scale() }
}

/// Relies on rust_decimal's ordering of `Decimal`, which compares values.
#[verifier::external_body]
pub(crate) fn decimal_gt(a: Amount, b: Amount) -> (r: bool)
    ensures
        r == value_gt(amt(a), amt(b)),
{
    Decimal::from_i128_with_scale(a.mantissa, a.scale) > Decimal::from_i128_with_scale(
        b.mantissa,
        b.scale,
    )
}

/// Relies on rust_decimal's `Decimal::from(i64)`: the integer with scale 0.
#[verifier::external_body]
pub(crate) fn decimal_from_int(i: i64) -> (r: Amount)
    ensures
        amt(r) == (i as int, 0int),
{
    let d = Decimal::from(i);
    Amount { mantissa: d.mantissa(), scale: d.scale() }
}

/// Relies on rust_decimal's `Display` of `Decimal`: its decimal text.
#[verifier::external_body]
pub(crate) fn decimal_text(a: Amount) -> (r: String)
    ensures
        r@ == decimal_text_of(amt(a)),
{
    Decimal::from_i128_with_scale(a.mantissa, a.scale).to_string()
}

/// The bytes of characters that are all ASCII.
pub open spec fn ascii_bytes(cs: Seq<char>) -> Seq<u8> {
    cs.map_values(|c: char| c as u8)
}

pub open spec fn is_ascii_chars(cs: Seq<char>) -> bool {
    forall|i: int| 0 <= i < cs.len() ==> (#[trigger] cs[i]) < 128 as char
}

/// The bytes of a currency code of three ASCII characters.
pub fn code_of_chars(code: &[char]) -> (r: [u8; 3])
    requires
        code@.len() == 3,
        is_ascii_chars(code@),
    ensures
        r@ == ascii_bytes(code@),
{
    let c0 = code[0];
    let c1 = code[1];
    let c2 = code[2];
    assert(c0 < 128 as char && c1 < 128 as char && c2 < 128 as char) by {
        assert(code@[0] < 128 as char);
        assert(code@[1] < 128 as char);
        assert(code@[2] < 128 as char);
    }
    let currency = [c0 as u8, c1 as u8, c2 as u8];
    assert(currency@ =~= ascii_bytes(code@));
    currency
}

/// An amount in a currency given by its three-letter code.
#[derive(Clone, Copy, Debug)]
pub struct Money {
    pub currency: [u8; 3],
    pub amount: Amount,
}

/// The code of the Swiss franc.
pub const CHF: [u8; 3] = [0x43, 0x48, 0x46];

impl Money {
    /// An amount in the currency whose code is the three bytes of `currency`.
    pub fn new(currency: &str, amount: Amount) -> (r: Money)
        requires
            currency.spec_bytes().len() == 3,
        ensures
            r.currency@ == currency.spec_bytes(),
            r.amount == amount,
    {
        let b = currency.as_bytes();
        let code = [b[0], b[1], b[2]];
        assert(code@ =~= currency.spec_bytes());
        Money { currency: code, amount }
    }

    /// An amount in the currency whose code is three ASCII characters.
    pub fn from_code_chars(code: &[char], amount: Amount) -> (r: Money)
        requires
            code@.len() == 3,
            is_ascii_chars(code@),
        ensures
            r.currency@ == ascii_bytes(code@),
            r.amount == amount,
    {
        Money { currency: code_of_chars(code), amount }
    }

    /// Whether the two amounts are in the same currency.
    pub fn same_currency(&self, other: &Money) -> (r: bool)
        ensures
            r == (self.currency@ == other.currency@),
    {
        let r = self.currency[0] == other.currency[0] && self.currency[1] == other.currency[1]
            && self.currency[2] == other.currency[2];
        assert(r ==> self.currency@ =~= other.currency@);
        assert(self.currency@ == other.currency@ ==> self.currency@[2] == other.currency@[2]);
        r
    }

    /// Whether the currency is the Swiss franc.
    pub fn is_chf(&self) -> (r: bool)
        ensures
            r == (self.currency@ == CHF@),
    {
        let r = self.currency[0] == 0x43 && self.currency[1] == 0x48 && self.currency[2] == 0x46;
        assert(r ==> self.currency@ =~= CHF@);
        r
    }
}

} // verus!
