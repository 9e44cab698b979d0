//! The ISIN-to-currency pairs given on the command line.

use vstd::prelude::*;

use crate::money::{ascii_bytes, code_of_chars, is_ascii_chars};
use crate::outside::{chars_of, string_of};
use crate::statement::{all_ascii, first_where};

verus! {

#[verifier::external_type_specification]
#[verifier::external_body]
pub struct ExIsin(isin::ISIN);

#[verifier::external_type_specification]
#[verifier::external_body]
pub struct ExIsinError(isin::Error);

/// Whether the isin crate reads the text as a valid ISIN (it allows
/// surrounding space and lower case).
pub uninterp spec fn isin_valid(s: Seq<char>) -> bool;

/// Relies on isin's `ISIN::from_str` (its `parse_loose`): an ISIN exactly
/// where the text is a valid one.
#[verifier::external_body]
fn parse_isin(s: &str) -> (r: Result<isin::ISIN, isin::Error>)
    ensures
        r is Ok == isin_valid(s@),
{
    s.parse::<isin::ISIN>()
}

/// A security and the currency its prices are to be given in.
pub struct IsinCurrency {
    pub isin: isin::ISIN,
    pub currency: [u8; 3],
}

/// Why a pair could not be read.
#[derive(Debug)]
pub enum IsinCurrencyError {
    IsinError(isin::Error),
    CurrencyNotThreeChar,
    IsinAndCurrencyNotFound,
}

pub open spec fn comma_pred(s: Seq<char>) -> spec_fn(int) -> bool {
    |i: int| s[i] == ','
}

/// The position of the first comma.
pub open spec fn first_comma(s: Seq<char>) -> Option<int> {
    first_where(s.len() as int, comma_pred(s))
}

fn find_comma(s: &Vec<char>) -> (r: Option<usize>)
    ensures
        match r {
            Some(i) => i < s@.len() && first_comma(s@) == Some(i as int),
            None => first_comma(s@) is None,
        },
{
    let mut i: usize = 0;
    while i < s.len()
        invariant
            i <= s@.len(),
            first_where(i as int, comma_pred(s@)) is None,
        decreases s@.len() - i,
    {
        if s[i] == ',' {
            proof {
                crate::statement::lemma_first_where_stays(
                    s@.len() as int,
                    i + 1,
                    comma_pred(s@),
                );
            }
            return Some(i);
        }
        i = i + 1;
    }
    None
}

fn slice_chars(s: &Vec<char>, from: usize, to: usize) -> (r: Vec<char>)
    requires
        from <= to <= s@.len(),
    ensures
        r@ == s@.subrange(from as int, to as int),
{
    let mut r: Vec<char> = Vec::new();
    let mut i: usize = from;
    while i < to
        invariant
            from <= i <= to <= s@.len(),
            r@ == s@.subrange(from as int, i as int),
        decreases to - i,
    {
        r.push(s[i]);
        i = i + 1;
        assert(r@ =~= s@.subrange(from as int, i as int));
    }
    r
}

impl IsinCurrency {
    /// Reads `ISIN,CUR`: an ISIN, a comma, and a currency code of three
    /// ASCII characters.
    pub fn parse(s: &str) -> (r: Result<IsinCurrency, IsinCurrencyError>)
        ensures
            match first_comma(s@) {
                None => r matches Err(IsinCurrencyError::IsinAndCurrencyNotFound),
                Some(i) => if !isin_valid(s@.take(i)) {
                    r matches Err(IsinCurrencyError::IsinError(_))
                } else if !(s@.skip(i + 1).len() == 3 && is_ascii_chars(s@.skip(i + 1))) {
                    r matches Err(IsinCurrencyError::CurrencyNotThreeChar)
                } else {
                    r matches Ok(p) && p.currency@ == ascii_bytes(s@.skip(i + 1))
                },
            },
    {
        let cs = chars_of(s);
        let i = match find_comma(&cs) {
            Some(i) => i,
            None => return Err(IsinCurrencyError::IsinAndCurrencyNotFound),
        };
        let head = slice_chars(&cs, 0, i);
        let tail = slice_chars(&cs, i + 1, cs.len());
        assert(head@ =~= s@.take(i as int));
        assert(tail@ =~= s@.skip(i + 1));
        let isin_text = string_of(head.as_slice());
        let isin = match parse_isin(isin_text.as_str()) {
            Ok(v) => v,
            Err(e) => return Err(IsinCurrencyError::IsinError(e)),
        };
        if tail.len() != 3 {
            return Err(IsinCurrencyError::CurrencyNotThreeChar);
        }
        if !all_ascii(tail.as_slice()) {
            return Err(IsinCurrencyError::CurrencyNotThreeChar);
        }
        let currency = code_of_chars(tail.as_slice());
        Ok(IsinCurrency { isin, currency })
    }
}

impl std::str::FromStr for IsinCurrency {
    type Err = IsinCurrencyError;

    fn from_str(s: &str) -> Result<IsinCurrency, IsinCurrencyError> {
        IsinCurrency::parse(s)
    }
}

} // verus!
