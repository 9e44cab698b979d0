//! The records exported for a portfolio: one per share, one per booking.

use vstd::prelude::*;

use crate::date::Date;
use crate::document::{DocumentKind, ViacDocument};
use crate::money::{decimal_div, decimal_from_int, Amount};
use crate::outside::utf8_decode;
use crate::summary::{
    has_valuta, isin_of, order_type_name, title_of, total_currency_of, ViacSummary,
};

verus! {

/// A share as the share list gives it.
pub struct ShareInfo {
    pub isin: String,
    pub name: String,
    pub currency: String,
    pub comment: String,
}

/// The text of a digit below ten.
pub open spec fn digit(n: int) -> char {
    (48 + n) as char
}

/// The decimal digits of a number.
pub open spec fn digits_of(n: nat) -> Seq<char>
    decreases n,
{
    if n < 10 {
        seq![digit(n as int)]
    } else {
        digits_of(n / 10).push(digit((n % 10) as int))
    }
}

/// The digits of a number, with zeros before them up to `width`.
pub open spec fn padded(n: nat, width: nat) -> Seq<char> {
    let d = digits_of(n);
    if d.len() < width {
        Seq::new((width - d.len()) as nat, |i: int| '0') + d
    } else {
        d
    }
}

/// A year as four digits, or, outside 0 to 9999, as a sign and at least four
/// digits.
pub open spec fn year_seq(y: int) -> Seq<char> {
    if 0 <= y <= 9999 {
        padded(y as nat, 4)
    } else if y < 0 {
        seq!['-'] + padded((-y) as nat, 4)
    } else {
        seq!['+'] + padded(y as nat, 4)
    }
}

/// A date as `YYYY-MM-DD 00:00:00`, the form its bookings are exported in.
pub open spec fn date_seq(d: Date) -> Seq<char> {
    year_seq(d.year as int) + seq!['-'] + padded(d.month as nat, 2) + seq!['-'] + padded(
        d.day as nat,
        2,
    ) + seq![' ', '0', '0', ':', '0', '0', ':', '0', '0']
}

fn digit_char(n: u64) -> (r: char)
    requires
        n < 10,
    ensures
        r == digit(n as int),
{
    ((48 + n) as u8) as char
}

fn digits(n: u64) -> (r: Vec<char>)
    ensures
        r@ == digits_of(n as nat),
    decreases n,
{
    if n < 10 {
        let r = vec![digit_char(n)];
        assert(r@ =~= seq![digit(n as int)]);
        r
    } else {
        let mut r = digits(n / 10);
        r.push(digit_char(n % 10));
        r
    }
}

fn push_padded(out: &mut Vec<char>, n: u64, width: usize)
    ensures
        final(out)@ == old(out)@ + padded(n as nat, width as nat),
{
    let d = digits(n);
    if d.len() < width {
        let mut k: usize = 0;
        let zeros = width - d.len();
        while k < zeros
            invariant
                k <= zeros,
                out@ == old(out)@ + Seq::new(k as nat, |i: int| '0'),
            decreases zeros - k,
        {
            out.push('0');
            k = k + 1;
            assert(out@ =~= old(out)@ + Seq::new(k as nat, |i: int| '0'));
        }
    }
    let ghost before = out@;
    let mut i: usize = 0;
    while i < d.len()
        invariant
            i <= d@.len(),
            out@ == before + d@.take(i as int),
        decreases d@.len() - i,
    {
        out.push(d[i]);
        i = i + 1;
        assert(out@ =~= before + d@.take(i as int));
    }
    assert(d@.take(d@.len() as int) =~= d@);
    assert(out@ =~= old(out)@ + padded(n as nat, width as nat));
}

/// The text of a date (see [`date_seq`]).
pub fn date_text(d: Date) -> (r: String)
    ensures
        r@ == date_seq(d),
{
    let mut cs: Vec<char> = Vec::new();
    if 0 <= d.year && d.year <= 9999 {
        push_padded(&mut cs, d.year as u64, 4);
    } else if d.year < 0 {
        cs.push('-');
        push_padded(&mut cs, (-(d.year as i64)) as u64, 4);
    } else {
        cs.push('+');
        push_padded(&mut cs, d.year as u64, 4);
    }
    assert(cs@ =~= year_seq(d.year as int));
    cs.push('-');
    push_padded(&mut cs, d.month as u64, 2);
    cs.push('-');
    push_padded(&mut cs, d.day as u64, 2);
    let tail = [' ', '0', '0', ':', '0', '0', ':', '0', '0'];
    let ghost before = cs@;
    let mut i: usize = 0;
    while i < 9
        invariant
            i <= 9,
            cs@ == before + tail@.take(i as int),
        decreases 9 - i,
    {
        cs.push(tail[i]);
        i = i + 1;
        assert(cs@ =~= before + tail@.take(i as int));
    }
    assert(tail@ =~= seq![' ', '0', '0', ':', '0', '0', ':', '0', '0']);
    assert(tail@.take(9) =~= tail@);
    assert(cs@ =~= date_seq(d));
    crate::outside::string_of(cs.as_slice())
}

/// The currency that a security's prices are to be given in, if one is set.
pub open spec fn currency_for(pairs: Seq<(String, [u8; 3])>, isin: Seq<char>) -> Option<[u8; 3]>
    decreases pairs.len(),
{
    if pairs.len() == 0 {
        None
    } else {
        match currency_for(pairs.drop_last(), isin) {
            Some(c) => Some(c),
            None => if pairs.last().0@ == isin {
                Some(pairs.last().1)
            } else {
                None
            },
        }
    }
}

fn find_currency(pairs: &Vec<(String, [u8; 3])>, isin: &String) -> (r: Option<[u8; 3]>)
    ensures
        r == currency_for(pairs@, isin@),
{
    let mut i: usize = 0;
    assert(pairs@.take(0) =~= Seq::<(String, [u8; 3])>::empty());
    while i < pairs.len()
        invariant
            i <= pairs@.len(),
            currency_for(pairs@.take(i as int), isin@) is None,
        decreases pairs@.len() - i,
    {
        assert(pairs@.take(i + 1).drop_last() =~= pairs@.take(i as int));
        if pairs[i].0 == *isin {
            proof {
                lemma_currency_for_stays(pairs@, isin@, i + 1);
            }
            return Some(pairs[i].1);
        }
        i = i + 1;
    }
    assert(pairs@.take(pairs@.len() as int) =~= pairs@);
    None
}

proof fn lemma_currency_for_stays(pairs: Seq<(String, [u8; 3])>, isin: Seq<char>, k: int)
    requires
        0 <= k <= pairs.len(),
        currency_for(pairs.take(k), isin) is Some,
    ensures
        currency_for(pairs, isin) == currency_for(pairs.take(k), isin),
    decreases pairs.len(),
{
    if pairs.len() == k {
        assert(pairs.take(k) =~= pairs);
    } else {
        assert(pairs.drop_last().take(k) =~= pairs.take(k));
        lemma_currency_for_stays(pairs.drop_last(), isin, k);
    }
}

pub open spec fn is_gbx(code: [u8; 3]) -> bool {
    code@ == seq![0x47u8, 0x42u8, 0x58u8]
}

fn code_is_gbx(code: &[u8; 3]) -> (r: bool)
    ensures
        r == is_gbx(*code),
{
    let r = code[0] == 0x47 && code[1] == 0x42 && code[2] == 0x58;
    assert(r ==> code@ =~= seq![0x47u8, 0x42u8, 0x58u8]);
    assert(is_gbx(*code) ==> code@[0] == 0x47u8 && code@[1] == 0x42u8 && code@[2] == 0x58u8);
    r
}

/// The factor to the currency a security's prices are given in: 100 from
/// pounds to pence where the security is set to GBX, else 1.
pub fn conversion_rate(isin: &String, pairs: &Vec<(String, [u8; 3])>) -> (r: (Amount, bool))
    ensures
        r.1 == (currency_for(pairs@, isin@) matches Some(c) && is_gbx(c)),
{
    match find_currency(pairs, isin) {
        Some(c) => if code_is_gbx(&c) {
            (decimal_from_int(100), true)
        } else {
            (decimal_from_int(1), false)
        },
        None => (decimal_from_int(1), false),
    }
}

fn code_text(code: &[u8; 3]) -> String {
    match utf8_decode(code.as_slice()) {
        Some(t) => t,
        None => String::new(),
    }
}

/// A share as (ISIN, name, currency, note).
pub open spec fn share_view(s: ShareInfo) -> (Seq<char>, Seq<char>, Seq<char>, Seq<char>) {
    (s.isin@, s.name@, s.currency@, s.comment@)
}

pub open spec fn share_views(v: Seq<ShareInfo>) -> Seq<(Seq<char>, Seq<char>, Seq<char>, Seq<char>)> {
    v.map_values(|s: ShareInfo| share_view(s))
}

/// The position of a share in the list.
pub open spec fn share_index(
    shares: Seq<(Seq<char>, Seq<char>, Seq<char>, Seq<char>)>,
    isin: Seq<char>,
) -> Option<int>
    decreases shares.len(),
{
    if shares.len() == 0 {
        None
    } else {
        match share_index(shares.drop_last(), isin) {
            Some(i) => Some(i),
            None => if shares.last().0 == isin {
                Some(shares.len() - 1)
            } else {
                None
            },
        }
    }
}

proof fn lemma_share_index_stays(
    shares: Seq<(Seq<char>, Seq<char>, Seq<char>, Seq<char>)>,
    isin: Seq<char>,
    k: int,
)
    requires
        0 <= k <= shares.len(),
        share_index(shares.take(k), isin) is Some,
    ensures
        share_index(shares, isin) == share_index(shares.take(k), isin),
    decreases shares.len(),
{
    if shares.len() == k {
        assert(shares.take(k) =~= shares);
    } else {
        assert(shares.drop_last().take(k) =~= shares.take(k));
        lemma_share_index_stays(shares.drop_last(), isin, k);
    }
}

proof fn lemma_share_index_none(shares: Seq<(Seq<char>, Seq<char>, Seq<char>, Seq<char>)>, isin: Seq<char>)
    ensures
        share_index(shares, isin) is None <==> forall|i: int|
            0 <= i < shares.len() ==> #[trigger] shares[i].0 != isin,
    decreases shares.len(),
{
    if shares.len() > 0 {
        lemma_share_index_none(shares.drop_last(), isin);
        if share_index(shares, isin) is None {
            assert forall|i: int| 0 <= i < shares.len() implies #[trigger] shares[i].0 != isin by {
                if i < shares.len() - 1 {
                    assert(shares.drop_last()[i] == shares[i]);
                }
            }
        } else {
            if share_index(shares.drop_last(), isin) is None {
                assert(shares[shares.len() - 1].0 == isin);
            } else {
                let j = choose|j: int|
                    0 <= j < shares.drop_last().len() && #[trigger] shares.drop_last()[j].0
                        == isin;
                assert(shares[j].0 == isin);
            }
        }
    }
}

fn find_share(shares: &Vec<ShareInfo>, isin: &String) -> (r: Option<usize>)
    ensures
        match r {
            Some(i) => i < shares@.len() && share_index(share_views(shares@), isin@) == Some(
                i as int,
            ),
            None => share_index(share_views(shares@), isin@) is None,
        },
{
    let ghost v = share_views(shares@);
    let mut i: usize = 0;
    assert(v.take(0) =~= Seq::<(Seq<char>, Seq<char>, Seq<char>, Seq<char>)>::empty());
    while i < shares.len()
        invariant
            v == share_views(shares@),
            i <= shares@.len(),
            share_index(v.take(i as int), isin@) is None,
        decreases shares@.len() - i,
    {
        assert(v.take(i + 1).drop_last() =~= v.take(i as int));
        assert(v[i as int].0 == shares@[i as int].isin@);
        if shares[i].isin == *isin {
            proof {
                lemma_share_index_stays(v, isin@, i + 1);
            }
            return Some(i);
        }
        i = i + 1;
    }
    assert(v.take(v.len() as int) =~= v);
    None
}

/// The share list after one summary: a purchase or sale of an ISIN that the
/// list does not hold yet adds it, with its title, the currency of its total,
/// and a note.
pub open spec fn with_share(
    shares: Seq<(Seq<char>, Seq<char>, Seq<char>, Seq<char>)>,
    s: ViacSummary,
) -> Seq<(Seq<char>, Seq<char>, Seq<char>, Seq<char>)> {
    let isin = isin_of(s.document_type);
    if is_trade(s.document_type.kind()) && isin.len() > 0 && share_index(shares, isin) is None {
        shares.push(
            (isin, title_of(s.document_type), total_currency_of(s.document_type), "viac_pdf_import"@),
        )
    } else {
        shares
    }
}

pub open spec fn with_shares(
    shares: Seq<(Seq<char>, Seq<char>, Seq<char>, Seq<char>)>,
    summaries: Seq<ViacSummary>,
) -> Seq<(Seq<char>, Seq<char>, Seq<char>, Seq<char>)>
    decreases summaries.len(),
{
    if summaries.len() == 0 {
        shares
    } else {
        with_share(with_shares(shares, summaries.drop_last()), summaries.last())
    }
}

/// Whether no two shares of a list have the same ISIN.
pub open spec fn distinct_isins(shares: Seq<(Seq<char>, Seq<char>, Seq<char>, Seq<char>)>) -> bool {
    forall|i: int, j: int| 0 <= i < j < shares.len() ==> #[trigger] shares[i].0 != #[trigger] shares[j].0
}

/// Adding the traded shares of summaries to a list without two shares of one
/// ISIN gives a list without two shares of one ISIN.
pub proof fn lemma_shares_stay_distinct(
    shares: Seq<(Seq<char>, Seq<char>, Seq<char>, Seq<char>)>,
    summaries: Seq<ViacSummary>,
)
    requires
        distinct_isins(shares),
    ensures
        distinct_isins(with_shares(shares, summaries)),
    decreases summaries.len(),
{
    if summaries.len() > 0 {
        lemma_shares_stay_distinct(shares, summaries.drop_last());
        let before = with_shares(shares, summaries.drop_last());
        let isin = isin_of(summaries.last().document_type);
        lemma_share_index_none(before, isin);
    }
}

pub open spec fn is_trade(kind: DocumentKind) -> bool {
    kind == DocumentKind::Purchase || kind == DocumentKind::Sale
}

fn trade(s: &ViacSummary) -> (r: bool)
    ensures
        r == is_trade(s.document_type.kind()),
{
    match &s.document_type {
        ViacDocument::Purchase(_) | ViacDocument::Sale(_) => true,
        _ => false,
    }
}

/// Adds the shares that the purchases and sales of `summaries` trade and the
/// list does not hold yet, in order (see [`with_shares`]).
pub fn add_shares(shares: &mut Vec<ShareInfo>, summaries: &Vec<ViacSummary>)
    ensures
        share_views(final(shares)@) == with_shares(share_views(old(shares)@), summaries@),
{
    let ghost start = share_views(shares@);
    let mut k: usize = 0;
    assert(summaries@.take(0) =~= Seq::<ViacSummary>::empty());
    while k < summaries.len()
        invariant
            k <= summaries@.len(),
            share_views(shares@) == with_shares(start, summaries@.take(k as int)),
        decreases summaries@.len() - k,
    {
        assert(summaries@.take(k + 1).drop_last() =~= summaries@.take(k as int));
        let s = &summaries[k];
        if trade(s) {
            let isin = s.isin();
            if !isin.as_str().is_empty() && find_share(shares, &isin).is_none() {
                let ghost before = share_views(shares@);
                let info = ShareInfo {
                    isin,
                    name: s.share_title(),
                    currency: s.total_currency(),
                    comment: "viac_pdf_import".to_owned(),
                };
                shares.push(info);
                assert(share_views(shares@) =~= before.push(share_view(info)));
            }
        }
        k = k + 1;
    }
    assert(summaries@.take(summaries@.len() as int) =~= summaries@);
}

/// The record of a share: ISIN, WKN, ticker, name, currency, note.
pub fn share_record(share: &ShareInfo) -> (r: Vec<String>)
    ensures
        r@.len() == 6,
        r@[0]@ == share.isin@,
        r@[1]@.len() == 0,
        r@[2]@.len() == 0,
        r@[3]@ == share.name@,
        r@[4]@ == share.currency@,
        r@[5]@ == share.comment@,
{
    vec![
        share.isin.clone(),
        String::new(),
        String::new(),
        share.name.clone(),
        share.currency.clone(),
        share.comment.clone(),
    ]
}

/// The record of a booking that is not a trade, for the account's file:
/// date, type, value, its currency, gross amount, its currency, exchange
/// rate, fees, taxes, shares, ISIN, note. The gross amount's currency is the
/// one set for the share, else the share's own. Empty where the share of a
/// booking with an ISIN is not in the list or a computation fails.
pub fn account_record(
    summary: &ViacSummary,
    pairs: &Vec<(String, [u8; 3])>,
    shares: &Vec<ShareInfo>,
) -> (r: Option<Vec<String>>)
    requires
        has_valuta(summary.document_type.kind()),
        !is_trade(summary.document_type.kind()),
    ensures
        r matches Some(rec) ==> {
            &&& rec@.len() == 12
            &&& rec@[0]@ == date_seq(crate::summary::valuta_of(summary.document_type).0)
            &&& rec@[1]@ == order_type_name(summary.document_type.kind())
            &&& rec@[10]@ == isin_of(summary.document_type)
            &&& rec@[11]@ == summary.comment@
        },
{
    let (valuta_price, valuta_currency) = summary.valuta_price();
    let isin = summary.isin();
    let (rate, _) = if !isin.as_str().is_empty() {
        conversion_rate(&isin, pairs)
    } else {
        (decimal_from_int(1), false)
    };
    let (total_price, mut total_currency) = summary.total_price(rate)?;
    let exchange_rate = if !isin.as_str().is_empty() {
        match find_currency(pairs, &isin) {
            Some(code) => {
                total_currency = code_text(&code);
                let inverse = decimal_div(decimal_from_int(1), rate)?;
                summary.exchange_rate_compute(inverse)?
            },
            None => {
                let i = find_share(shares, &isin)?;
                if !(shares[i].currency == total_currency) {
                    total_currency = shares[i].currency.clone();
                }
                summary.exchange_rate_compute(decimal_from_int(1))?
            },
        }
    } else {
        summary.exchange_rate(decimal_from_int(1))?
    };
    let shares_text = summary.shares()?;
    Some(
        vec![
            date_text(summary.valuta_date()),
            summary.order_type(),
            valuta_price,
            valuta_currency,
            total_price,
            total_currency,
            exchange_rate,
            summary.fees(),
            summary.taxes(),
            shares_text,
            isin,
            summary.comment.clone(),
        ],
    )
}

/// The record of a trade, for the portfolio's file, in the same columns as
/// [`account_record`]; the gross amount's currency is the one set for the
/// share, if any. Empty where a computation fails.
pub fn portfolio_record(summary: &ViacSummary, pairs: &Vec<(String, [u8; 3])>) -> (r: Option<
    Vec<String>,
>)
    requires
        is_trade(summary.document_type.kind()),
    ensures
        r matches Some(rec) ==> {
            &&& rec@.len() == 12
            &&& rec@[0]@ == date_seq(crate::summary::valuta_of(summary.document_type).0)
            &&& rec@[1]@ == order_type_name(summary.document_type.kind())
            &&& rec@[10]@ == isin_of(summary.document_type)
            &&& rec@[11]@ == summary.comment@
        },
{
    let (valuta_price, valuta_currency) = summary.valuta_price();
    let isin = summary.isin();
    let (rate, _) = conversion_rate(&isin, pairs);
    let (total_price, mut total_currency) = summary.total_price(rate)?;
    if let Some(code) = find_currency(pairs, &isin) {
        total_currency = code_text(&code);
    }
    let inverse = decimal_div(decimal_from_int(1), rate)?;
    let exchange_rate = summary.exchange_rate(inverse)?;
    let shares_text = summary.shares()?;
    Some(
        vec![
            date_text(summary.valuta_date()),
            summary.order_type(),
            valuta_price,
            valuta_currency,
            total_price,
            total_currency,
            exchange_rate,
            summary.fees(),
            summary.taxes(),
            shares_text,
            isin,
            summary.comment.clone(),
        ],
    )
}

/// Whether summary `i` with value date `a` comes before summary `j` with
/// value date `b`: by date, and by position where the dates are equal.
pub open spec fn comes_before(a: Date, i: int, b: Date, j: int) -> bool {
    a.year < b.year || (a.year == b.year && (a.month < b.month || (a.month == b.month && (a.day
        < b.day || (a.day == b.day && i < j)))))
}

pub open spec fn date_of(s: ViacSummary) -> Date {
    crate::summary::valuta_of(s.document_type).0
}

/// Whether `order` lists positions of `summaries` by value date, equal dates
/// in their given order.
pub open spec fn ordered_by_date(summaries: Seq<ViacSummary>, order: Seq<usize>) -> bool {
    &&& forall|j: int| 0 <= j < order.len() ==> #[trigger] order[j] < summaries.len()
    &&& forall|j: int, k: int|
        0 <= j < k < order.len() ==> comes_before(
            date_of(summaries[#[trigger] order[j] as int]),
            order[j] as int,
            date_of(summaries[#[trigger] order[k] as int]),
            order[k] as int,
        )
}

fn earlier(a: Date, i: usize, b: Date, j: usize) -> (r: bool)
    ensures
        r == comes_before(a, i as int, b, j as int),
{
    a.year < b.year || (a.year == b.year && (a.month < b.month || (a.month == b.month && (a.day
        < b.day || (a.day == b.day && i < j)))))
}

/// The positions of the summaries ordered by value date, summaries of one
/// date in their given order: each position once (strictly increasing in
/// date and position, so no position twice, and as many as there are
/// summaries).
pub fn valuta_order(summaries: &Vec<ViacSummary>) -> (r: Vec<usize>)
    requires
        forall|i: int| 0 <= i < summaries@.len() ==> has_valuta(#[trigger] summaries@[i].document_type.kind()),
    ensures
        r@.len() == summaries@.len(),
        ordered_by_date(summaries@, r@),
{
    let mut order: Vec<usize> = Vec::new();
    let mut i: usize = 0;
    while i < summaries.len()
        invariant
            forall|k: int| 0 <= k < summaries@.len() ==> has_valuta(#[trigger] summaries@[k].document_type.kind()),
            i <= summaries@.len(),
            order@.len() == i,
            forall|j: int| 0 <= j < order@.len() ==> #[trigger] order@[j] < i,
            ordered_by_date(summaries@, order@),
        decreases summaries@.len() - i,
    {
        let d = summaries[i].valuta_date();
        let mut p: usize = 0;
        while p < order.len() && earlier(summaries[order[p]].valuta_date(), order[p], d, i)
            invariant
                forall|k: int| 0 <= k < summaries@.len() ==> has_valuta(#[trigger] summaries@[k].document_type.kind()),
                i < summaries@.len(),
                d == date_of(summaries@[i as int]),
                p <= order@.len(),
                order@.len() == i,
                forall|j: int| 0 <= j < order@.len() ==> #[trigger] order@[j] < i,
                ordered_by_date(summaries@, order@),
                forall|j: int|
                    0 <= j < p ==> comes_before(
                        date_of(summaries@[#[trigger] order@[j] as int]),
                        order@[j] as int,
                        d,
                        i as int,
                    ),
            decreases order@.len() - p,
        {
            p = p + 1;
        }
        let ghost old_order = order@;
        proof {
            if p < old_order.len() {
                assert(!comes_before(
                    date_of(summaries@[old_order[p as int] as int]),
                    old_order[p as int] as int,
                    d,
                    i as int,
                ));
                assert(old_order[p as int] < i);
            }
        }
        order.insert(p, i);
        proof {
            assert(order@ == old_order.insert(p as int, i));
            assert forall|j: int| 0 <= j < order@.len() implies #[trigger] order@[j] < i + 1 by {
                if j < p {
                    assert(order@[j] == old_order[j]);
                } else if j > p {
                    assert(order@[j] == old_order[j - 1]);
                }
            }
            assert forall|j: int, k: int| 0 <= j < k < order@.len() implies comes_before(
                date_of(summaries@[#[trigger] order@[j] as int]),
                order@[j] as int,
                date_of(summaries@[#[trigger] order@[k] as int]),
                order@[k] as int,
            ) by {
                if k < p {
                    assert(order@[j] == old_order[j] && order@[k] == old_order[k]);
                } else if k == p {
                    assert(order@[j] == old_order[j]);
                } else if j > p {
                    assert(order@[j] == old_order[j - 1] && order@[k] == old_order[k - 1]);
                } else if j == p {
                    assert(order@[k] == old_order[k - 1]);
                    if k - 1 > p {
                        assert(comes_before(
                            date_of(summaries@[old_order[p as int] as int]),
                            old_order[p as int] as int,
                            date_of(summaries@[old_order[k - 1] as int]),
                            old_order[k - 1] as int,
                        ));
                    }
                } else {
                    assert(order@[j] == old_order[j] && order@[k] == old_order[k - 1]);
                    assert(comes_before(
                        date_of(summaries@[old_order[j] as int]),
                        old_order[j] as int,
                        d,
                        i as int,
                    ));
                    if k - 1 > p {
                        assert(comes_before(
                            date_of(summaries@[old_order[p as int] as int]),
                            old_order[p as int] as int,
                            date_of(summaries@[old_order[k - 1] as int]),
                            old_order[k - 1] as int,
                        ));
                    }
                }
            }
        }
        i = i + 1;
    }
    order
}

/// The records of a portfolio's two files, in the order of [`valuta_order`]:
/// bookings other than trades for the account file, trades for the portfolio
/// file, one record for each summary. Empty where a record cannot be built
/// (see [`account_record`] and [`portfolio_record`]).
pub fn export_records(
    summaries: &Vec<ViacSummary>,
    pairs: &Vec<(String, [u8; 3])>,
    shares: &Vec<ShareInfo>,
) -> (r: Option<(Vec<Vec<String>>, Vec<Vec<String>>)>)
    requires
        forall|i: int| 0 <= i < summaries@.len() ==> has_valuta(#[trigger] summaries@[i].document_type.kind()),
    ensures
        r matches Some((account, portfolio)) ==> {
            &&& account@.len() + portfolio@.len() == summaries@.len()
            &&& forall|j: int| 0 <= j < account@.len() ==> (#[trigger] account@[j])@.len() == 12
            &&& forall|j: int| 0 <= j < portfolio@.len() ==> (#[trigger] portfolio@[j])@.len() == 12
        },
{
    let order = valuta_order(summaries);
    let mut account: Vec<Vec<String>> = Vec::new();
    let mut portfolio: Vec<Vec<String>> = Vec::new();
    let mut k: usize = 0;
    while k < order.len()
        invariant
            forall|i: int| 0 <= i < summaries@.len() ==> has_valuta(#[trigger] summaries@[i].document_type.kind()),
            order@.len() == summaries@.len(),
            ordered_by_date(summaries@, order@),
            k <= order@.len(),
            account@.len() + portfolio@.len() == k,
            forall|j: int| 0 <= j < account@.len() ==> (#[trigger] account@[j])@.len() == 12,
            forall|j: int| 0 <= j < portfolio@.len() ==> (#[trigger] portfolio@[j])@.len() == 12,
        decreases order@.len() - k,
    {
        let s = &summaries[order[k]];
        if trade(s) {
            let record = portfolio_record(s, pairs)?;
            portfolio.push(record);
        } else {
            let record = account_record(s, pairs, shares)?;
            account.push(record);
        }
        k = k + 1;
    }
    Some((account, portfolio))
}

} // verus!
