//! Computations on documents, and the summary of a statement that the
//! exported records are written from.

use vstd::prelude::*;

use crate::date::Date;
use crate::document::{
    DocumentKind, ExchangeRate, ViacDividend, ViacDocument, ViacTransaction,
};
use crate::money::{
    abs_amt, amt, decimal_difference, decimal_product, decimal_quotient, decimal_rounded,
    value_gt, Amount,
    decimal_abs, decimal_div, decimal_from_int, decimal_gt, decimal_mul, decimal_round,
    decimal_sub, decimal_text, Money, CHF,
};
use crate::outside::{utf8_decode, utf8_text};

verus! {

/// The text of a currency code; empty where its bytes are not UTF-8.
pub open spec fn currency_text(code: Seq<u8>) -> Seq<char> {
    match utf8_text(code) {
        Some(t) => t,
        None => Seq::empty(),
    }
}

fn currency_string(code: &[u8; 3]) -> (r: String)
    ensures
        r@ == currency_text(code@),
{
    match utf8_decode(code.as_slice()) {
        Some(t) => t,
        None => String::new(),
    }
}

fn chf(amount: Amount) -> (r: Money)
    ensures
        r.currency@ == CHF@,
        r.amount == amount,
{
    let m = Money { currency: [0x43, 0x48, 0x46], amount };
    assert(m.currency@ =~= CHF@);
    m
}

/// The total and the price per share a purchase or sale is checked with:
/// converted to Swiss francs at the exchange rate where there is one, as
/// printed otherwise; none where the two are not in one currency or a
/// product fails.
pub open spec fn share_prices(t: ViacTransaction) -> Option<((int, int), (int, int))> {
    match t.exchange_rate {
        Some(er) => if er.total_price.currency@ == CHF@ {
            None
        } else {
            match (
                decimal_product(amt(er.total_price.amount), amt(er.rate)),
                decimal_product(amt(t.share_price.amount), amt(er.rate)),
            ) {
                (Some(total), Some(price)) => Some((total, price)),
                _ => None,
            }
        },
        None => if t.total_price.currency@ == t.share_price.currency@ {
            Some((amt(t.total_price.amount), amt(t.share_price.amount)))
        } else {
            None
        },
    }
}

/// The number of shares a total buys at a price: the quotient where the price
/// per share the printed count gives differs from the price by more than one
/// percent (rounded to four places), else the printed count.
pub open spec fn corrected_count(total: (int, int), price: (int, int), shares: (int, int)) -> Option<
    (int, int),
> {
    match (decimal_quotient(total, shares), decimal_quotient(total, price)) {
        (Some(per_share), Some(count)) => match decimal_quotient(per_share, price) {
            Some(ratio) => match decimal_difference((1, 0), abs_amt(ratio)) {
                Some(gap) => match decimal_product(gap, (100, 0)) {
                    Some(percent) => if value_gt(decimal_rounded(percent, 4), (1, 0)) {
                        Some(count)
                    } else {
                        Some(shares)
                    },
                    None => None,
                },
                None => None,
            },
            None => None,
        },
        _ => None,
    }
}

impl ExchangeRate {
    /// The total converted to Swiss francs at the rate, with more decimal
    /// places than the statement prints; empty where the product overflows.
    pub fn total_price_chf(&self) -> (r: Option<Money>)
        requires
            self.total_price.currency@ != CHF@,
        ensures
            match decimal_product(amt(self.total_price.amount), amt(self.rate)) {
                Some(p) => r matches Some(m) && m.currency@ == CHF@ && amt(m.amount) == p,
                None => r is None,
            },
    {
        match decimal_mul(self.total_price.amount, self.rate) {
            Some(amount) => Some(chf(amount)),
            None => None,
        }
    }
}

impl ViacTransaction {
    /// The value paid or received with the taxes taken out; empty where the
    /// difference overflows.
    pub fn valuta_without_taxes(&self) -> (r: Option<Money>)
        requires
            self.taxes matches Some(t) ==> t.currency@ == self.valuta_price.currency@,
        ensures
            self.taxes is None ==> r == Some(self.valuta_price),
            self.taxes is Some ==> (r matches Some(m) ==> m.currency@ == CHF@),
    {
        match &self.taxes {
            Some(taxes) => match decimal_sub(self.valuta_price.amount, taxes.amount) {
                Some(amount) => Some(chf(amount)),
                None => None,
            },
            None => Some(self.valuta_price),
        }
    }

    /// The number of shares, corrected from the total where the price per
    /// share it gives diverges from the printed price by more than one
    /// percent; empty where the prices are in different currencies or an
    /// operation fails.
    pub fn real_shares_count(&self) -> (r: Option<Amount>)
        ensures
            match share_prices(*self) {
                Some((total, price)) => match corrected_count(total, price, amt(self.shares)) {
                    Some(c) => r matches Some(a) && amt(a) == c,
                    None => r is None,
                },
                None => r is None,
            },
    {
        let prices = match &self.exchange_rate {
            Some(er) => {
                if er.total_price.is_chf() {
                    return None;
                }
                match (er.total_price_chf(), decimal_mul(self.share_price.amount, er.rate)) {
                    (Some(total), Some(share)) => Some((total, chf(share))),
                    _ => None,
                }
            },
            None => Some((self.total_price, self.share_price)),
        };
        let (total_price, share_price) = match prices {
            Some(p) => p,
            None => return None,
        };
        if !total_price.same_currency(&share_price) {
            return None;
        }
        let pp_share_price = decimal_div(total_price.amount, self.shares)?;
        let real_count = decimal_div(total_price.amount, share_price.amount)?;
        let ratio = decimal_div(pp_share_price, share_price.amount)?;
        let one = decimal_from_int(1);
        let gap = decimal_sub(one, decimal_abs(ratio))?;
        let percent = decimal_mul(gap, decimal_from_int(100))?;
        let share_price_diff = decimal_round(percent, 4);
        if decimal_gt(share_price_diff, one) {
            Some(real_count)
        } else {
            Some(self.shares)
        }
    }
}

impl ViacDividend {
    /// The number of shares the total pays for at the dividend per share;
    /// empty where the two are in different currencies or the division fails.
    pub fn real_shares_count(&self) -> (r: Option<Amount>)
        ensures
            if self.total_price.currency@ == self.dividend_price.currency@ {
                match decimal_quotient(amt(self.total_price.amount), amt(self.dividend_price.amount)) {
                    Some(q) => r matches Some(a) && amt(a) == q,
                    None => r is None,
                }
            } else {
                r is None
            },
    {
        if !self.total_price.same_currency(&self.dividend_price) {
            return None;
        }
        decimal_div(self.total_price.amount, self.dividend_price.amount)
    }
}

/// The name of a kind of booking in the exported records.
pub open spec fn order_type_name(kind: DocumentKind) -> Seq<char> {
    match kind {
        DocumentKind::Interest => "INTEREST"@,
        DocumentKind::InterestCharge => "INTEREST_CHARGE"@,
        DocumentKind::Fees => "FEES"@,
        DocumentKind::FeesRefund => "FEES_REFUND"@,
        DocumentKind::Incoming => "DEPOSIT"@,
        DocumentKind::Outgoing => "REMOVAL"@,
        DocumentKind::Purchase => "BUY"@,
        DocumentKind::Sale => "SELL"@,
        DocumentKind::Dividend => "DIVIDENDS"@,
        DocumentKind::TaxReturn => "TAX_REFUND"@,
        DocumentKind::Tax => "TAXES"@,
        DocumentKind::TransferIn => "TRANSFER_IN"@,
        DocumentKind::TransferOut => "TRANSFER_OUT"@,
        DocumentKind::DeliveryIn => "DELIVERY_INBOUND"@,
        DocumentKind::DeliveryOut => "DELIVERY_OUTBOUND"@,
        _ => Seq::empty(),
    }
}

/// The ISIN of a document with shares; empty for any other.
pub open spec fn isin_of(d: ViacDocument) -> Seq<char> {
    match d {
        ViacDocument::Purchase(s) | ViacDocument::Sale(s) => s.isin@,
        ViacDocument::Dividend(s) | ViacDocument::TaxReturn(s) => s.isin@,
        _ => Seq::empty(),
    }
}

/// Whether a kind of document carries a value date and amount.
pub open spec fn has_valuta(kind: DocumentKind) -> bool {
    match kind {
        DocumentKind::Interest | DocumentKind::Fees | DocumentKind::Incoming
        | DocumentKind::Purchase | DocumentKind::Sale | DocumentKind::Dividend
        | DocumentKind::TaxReturn => true,
        _ => false,
    }
}

/// Whether a kind of document is about shares.
pub open spec fn has_shares(kind: DocumentKind) -> bool {
    match kind {
        DocumentKind::Purchase | DocumentKind::Sale | DocumentKind::Dividend
        | DocumentKind::TaxReturn => true,
        _ => false,
    }
}

/// The title of the share of a document with shares.
pub open spec fn title_of(d: ViacDocument) -> Seq<char> {
    match d {
        ViacDocument::Purchase(s) | ViacDocument::Sale(s) => s.share_title@,
        ViacDocument::Dividend(s) | ViacDocument::TaxReturn(s) => s.share_title@,
        _ => Seq::empty(),
    }
}

/// The currency of the total of a document with shares, as text.
pub open spec fn total_currency_of(d: ViacDocument) -> Seq<char> {
    match d {
        ViacDocument::Purchase(s) | ViacDocument::Sale(s) => currency_text(s.total_price.currency@),
        ViacDocument::Dividend(s) | ViacDocument::TaxReturn(s) => currency_text(
            s.total_price.currency@,
        ),
        _ => Seq::empty(),
    }
}

/// The value date and amount of a document that has them.
pub open spec fn valuta_of(d: ViacDocument) -> (Date, Money) {
    match d {
        ViacDocument::Interest(s) | ViacDocument::Fees(s) | ViacDocument::Incoming(s) => (
            s.valuta_date,
            s.valuta_price,
        ),
        ViacDocument::Purchase(s) | ViacDocument::Sale(s) => (s.valuta_date, s.valuta_price),
        ViacDocument::Dividend(s) | ViacDocument::TaxReturn(s) => (s.valuta_date, s.valuta_price),
        _ => arbitrary(),
    }
}

/// A statement's document with the accounts it belongs to.
#[derive(Debug)]
pub struct ViacSummary {
    /// Whether to correct the number of shares from the totals.
    pub deduce: bool,
    pub account_number: String,
    pub portfolio_number: String,
    pub comment: String,
    pub document_type: ViacDocument,
}

impl ViacSummary {
    pub fn valuta_date(&self) -> (r: Date)
        requires
            has_valuta(self.document_type.kind()),
        ensures
            r == valuta_of(self.document_type).0,
    {
        match &self.document_type {
            ViacDocument::Interest(s) | ViacDocument::Fees(s) | ViacDocument::Incoming(s) => {
                s.valuta_date
            },
            ViacDocument::Purchase(s) | ViacDocument::Sale(s) => s.valuta_date,
            ViacDocument::Dividend(s) | ViacDocument::TaxReturn(s) => s.valuta_date,
            _ => {
                assert(false);
                Date { year: 0, month: 0, day: 0 }
            },
        }
    }

    /// The name of the booking in the exported records.
    pub fn order_type(&self) -> (r: String)
        requires
            self.document_type.kind() != DocumentKind::Unknown,
            self.document_type.kind() != DocumentKind::NotViac,
        ensures
            r@ == order_type_name(self.document_type.kind()),
    {
        let name = match &self.document_type {
            ViacDocument::Interest(_) => "INTEREST",
            ViacDocument::InterestCharge(_) => "INTEREST_CHARGE",
            ViacDocument::Fees(_) => "FEES",
            ViacDocument::FeesRefund(_) => "FEES_REFUND",
            ViacDocument::Incoming(_) => "DEPOSIT",
            ViacDocument::Outgoing(_) => "REMOVAL",
            ViacDocument::Purchase(_) => "BUY",
            ViacDocument::Sale(_) => "SELL",
            ViacDocument::Dividend(_) => "DIVIDENDS",
            ViacDocument::TaxReturn(_) => "TAX_REFUND",
            ViacDocument::Tax(_) => "TAXES",
            ViacDocument::TransferIn(_) => "TRANSFER_IN",
            ViacDocument::TransferOut(_) => "TRANSFER_OUT",
            ViacDocument::DeliveryIn(_) => "DELIVERY_INBOUND",
            ViacDocument::DeliveryOut(_) => "DELIVERY_OUTBOUND",
            _ => "",
        };
        name.to_owned()
    }

    /// The value amount's number and currency, as text.
    pub fn valuta_price(&self) -> (r: (String, String))
        requires
            has_valuta(self.document_type.kind()),
        ensures
            r.1@ == currency_text(valuta_of(self.document_type).1.currency@),
    {
        let v = match &self.document_type {
            ViacDocument::Interest(s) | ViacDocument::Fees(s) | ViacDocument::Incoming(s) => {
                s.valuta_price
            },
            ViacDocument::Purchase(s) | ViacDocument::Sale(s) => s.valuta_price,
            ViacDocument::Dividend(s) | ViacDocument::TaxReturn(s) => s.valuta_price,
            _ => {
                assert(false);
                return (String::new(), String::new());
            },
        };
        (decimal_text(v.amount), currency_string(&v.currency))
    }

    /// The total times `conversion_rate` and the total's currency, as text;
    /// two empty texts for bookings without shares; empty where the product
    /// overflows.
    pub fn total_price(&self, conversion_rate: Amount) -> (r: Option<(String, String)>)
        requires
            has_valuta(self.document_type.kind()),
        ensures
            !has_shares(self.document_type.kind()) ==> (r matches Some(p) && p.0@.len() == 0
                && p.1@.len() == 0),
    {
        let total = match &self.document_type {
            ViacDocument::Purchase(s) | ViacDocument::Sale(s) => s.total_price,
            ViacDocument::Dividend(s) | ViacDocument::TaxReturn(s) => s.total_price,
            _ => return Some((String::new(), String::new())),
        };
        match decimal_mul(total.amount, conversion_rate) {
            Some(amount) => Some((decimal_text(amount), currency_string(&total.currency))),
            None => None,
        }
    }

    /// The rate between the value amount and the total, times
    /// `conversion_rate`, to five decimal places: the statements round to two
    /// places, which the printed rate does not reproduce. Empty where an
    /// operation fails.
    pub fn exchange_rate_compute(&self, conversion_rate: Amount) -> (r: Option<String>)
        requires
            has_shares(self.document_type.kind()),
    {
        let (v, t) = match &self.document_type {
            ViacDocument::Purchase(s) | ViacDocument::Sale(s) => (s.valuta_price, s.total_price),
            ViacDocument::Dividend(s) | ViacDocument::TaxReturn(s) => (
                s.valuta_price,
                s.total_price,
            ),
            _ => return None,
        };
        let ratio = decimal_div(v.amount, t.amount)?;
        let rate = decimal_mul(ratio, conversion_rate)?;
        Some(decimal_text(decimal_round(rate, 5)))
    }

    /// The statement's exchange rate times `conversion_rate`, as text; empty
    /// text where there is none; nothing where the product overflows.
    pub fn exchange_rate(&self, conversion_rate: Amount) -> (r: Option<String>)
        ensures
            !has_shares(self.document_type.kind()) ==> (r matches Some(t) && t@.len() == 0),
    {
        let er = match &self.document_type {
            ViacDocument::Purchase(s) | ViacDocument::Sale(s) => &s.exchange_rate,
            ViacDocument::Dividend(s) | ViacDocument::TaxReturn(s) => &s.exchange_rate,
            _ => return Some(String::new()),
        };
        match er {
            Some(x) => match decimal_mul(x.rate, conversion_rate) {
                Some(v) => Some(decimal_text(v)),
                None => None,
            },
            None => Some(String::new()),
        }
    }

    /// The fee amount of a fee booking; "0.00" for any other.
    pub fn fees(&self) -> (r: String)
        ensures
            self.document_type.kind() != DocumentKind::Fees ==> r@ == "0.00"@,
    {
        match &self.document_type {
            ViacDocument::Fees(s) => decimal_text(s.valuta_price.amount),
            _ => "0.00".to_owned(),
        }
    }

    /// The taxes of a purchase or sale; "0.00" where there are none.
    pub fn taxes(&self) -> (r: String)
        ensures
            match self.document_type {
                ViacDocument::Purchase(s) | ViacDocument::Sale(s) => s.taxes is None ==> r@
                    == "0.00"@,
                _ => r@ == "0.00"@,
            },
    {
        match &self.document_type {
            ViacDocument::Purchase(s) | ViacDocument::Sale(s) => match &s.taxes {
                Some(t) => decimal_text(t.amount),
                None => "0.00".to_owned(),
            },
            _ => "0.00".to_owned(),
        }
    }

    /// The number of shares, corrected from the totals to five decimal places
    /// where the summary deduces it; "0.00" for bookings without shares;
    /// nothing where the correction fails.
    pub fn shares(&self) -> (r: Option<String>)
        ensures
            !has_shares(self.document_type.kind()) ==> (r matches Some(t) && t@ == "0.00"@),
    {
        match &self.document_type {
            ViacDocument::Purchase(s) | ViacDocument::Sale(s) => {
                if self.deduce {
                    match s.real_shares_count() {
                        Some(c) => Some(decimal_text(decimal_round(c, 5))),
                        None => None,
                    }
                } else {
                    Some(decimal_text(s.shares))
                }
            },
            ViacDocument::Dividend(s) | ViacDocument::TaxReturn(s) => {
                if self.deduce {
                    match s.real_shares_count() {
                        Some(c) => Some(decimal_text(decimal_round(c, 5))),
                        None => None,
                    }
                } else {
                    Some(decimal_text(s.shares))
                }
            },
            _ => Some("0.00".to_owned()),
        }
    }

    /// The ISIN of a booking with shares; empty for any other.
    pub fn isin(&self) -> (r: String)
        ensures
            r@ == isin_of(self.document_type),
    {
        match &self.document_type {
            ViacDocument::Purchase(s) | ViacDocument::Sale(s) => s.isin.clone(),
            ViacDocument::Dividend(s) | ViacDocument::TaxReturn(s) => s.isin.clone(),
            _ => String::new(),
        }
    }

    /// The currency of the total of a booking with shares, as text; empty
    /// for any other.
    pub fn total_currency(&self) -> (r: String)
        ensures
            r@ == total_currency_of(self.document_type),
    {
        match &self.document_type {
            ViacDocument::Purchase(s) | ViacDocument::Sale(s) => currency_string(
                &s.total_price.currency,
            ),
            ViacDocument::Dividend(s) | ViacDocument::TaxReturn(s) => currency_string(
                &s.total_price.currency,
            ),
            _ => String::new(),
        }
    }

    /// The share's title for a booking with shares; empty for any other.
    pub fn share_title(&self) -> (r: String)
        ensures
            r@ == title_of(self.document_type),
    {
        match &self.document_type {
            ViacDocument::Purchase(s) | ViacDocument::Sale(s) => s.share_title.clone(),
            ViacDocument::Dividend(s) | ViacDocument::TaxReturn(s) => s.share_title.clone(),
            _ => String::new(),
        }
    }
}

} // verus!
