//! The documents a statement holds, read field by field from its first page.

use vstd::prelude::*;
use vstd::string::StringExecFns;

use crate::date::Date;
use crate::lines::{contains_chars, contains_seq, line_before};
use crate::money::{amt, decimal_parsed, parses_as_decimal, Amount, Money};
use crate::outside::chars_of;
use crate::summary::ViacSummary;
use crate::statement::{
    account_scan, amount_at, amount_ok, date_at, money_at, rate_at, date_ok, file_name_of, first_equal, first_with_prefix,
    isin_ok, isin_text, line_after_equal, line_after_prefix, line_two_before, money_after_ok, rate_ok,
    ViacPdfData,
};

verus! {

/// A payment or booking on a value date.
#[derive(Debug)]
pub struct ViacValuta {
    pub valuta_date: Date,
    pub valuta_price: Money,
}

/// The conversion of a foreign-currency total.
#[derive(Debug)]
pub struct ExchangeRate {
    pub rate: Amount,
    pub total_price: Money,
    pub pdf_price: Money,
}

/// A purchase or sale of shares.
#[derive(Debug)]
pub struct ViacTransaction {
    pub valuta_date: Date,
    pub shares: Amount,
    pub share_price: Money,
    pub total_price: Money,
    pub valuta_price: Money,
    pub taxes: Option<Money>,
    pub isin: String,
    pub share_title: String,
    pub exchange_rate: Option<ExchangeRate>,
}

/// A dividend, or a refund of tax withheld on one.
#[derive(Debug)]
pub struct ViacDividend {
    pub isin: String,
    pub share_title: String,
    pub valuta_date: Date,
    pub valuta_price: Money,
    pub shares: Amount,
    pub dividend_price: Money,
    pub total_price: Money,
    pub exchange_rate: Option<ExchangeRate>,
}

/// What a statement is about.
#[derive(Debug)]
pub enum ViacDocument {
    Unknown,
    NotViac,
    Purchase(ViacTransaction),
    Sale(ViacTransaction),
    Dividend(ViacDividend),
    Fees(ViacValuta),
    FeesRefund(i32),
    Interest(ViacValuta),
    InterestCharge(i32),
    Incoming(ViacValuta),
    Outgoing(i32),
    Tax(i32),
    TaxReturn(ViacDividend),
    TransferIn(i32),
    TransferOut(i32),
    DeliveryIn(i32),
    DeliveryOut(i32),
}

/// The kinds of [`ViacDocument`], without their fields.
#[derive(Clone, Copy, Debug, PartialEq, Eq, Structural)]
pub enum DocumentKind {
    Unknown,
    NotViac,
    Purchase,
    Sale,
    Dividend,
    Fees,
    FeesRefund,
    Interest,
    InterestCharge,
    Incoming,
    Outgoing,
    Tax,
    TaxReturn,
    TransferIn,
    TransferOut,
    DeliveryIn,
    DeliveryOut,
}

impl ViacDocument {
    pub open spec fn kind(&self) -> DocumentKind {
        match self {
            ViacDocument::Unknown => DocumentKind::Unknown,
            ViacDocument::NotViac => DocumentKind::NotViac,
            ViacDocument::Purchase(_) => DocumentKind::Purchase,
            ViacDocument::Sale(_) => DocumentKind::Sale,
            ViacDocument::Dividend(_) => DocumentKind::Dividend,
            ViacDocument::Fees(_) => DocumentKind::Fees,
            ViacDocument::FeesRefund(_) => DocumentKind::FeesRefund,
            ViacDocument::Interest(_) => DocumentKind::Interest,
            ViacDocument::InterestCharge(_) => DocumentKind::InterestCharge,
            ViacDocument::Incoming(_) => DocumentKind::Incoming,
            ViacDocument::Outgoing(_) => DocumentKind::Outgoing,
            ViacDocument::Tax(_) => DocumentKind::Tax,
            ViacDocument::TaxReturn(_) => DocumentKind::TaxReturn,
            ViacDocument::TransferIn(_) => DocumentKind::TransferIn,
            ViacDocument::TransferOut(_) => DocumentKind::TransferOut,
            ViacDocument::DeliveryIn(_) => DocumentKind::DeliveryIn,
            ViacDocument::DeliveryOut(_) => DocumentKind::DeliveryOut,
        }
    }
}

/// A statement in German.
pub struct ViacPdfGerman(pub ViacPdfData);

/// A statement in French.
pub struct ViacPdfFrench(pub ViacPdfData);

/// The labels and line formats a statement's language uses.
pub struct StatementLabels {
    pub account: Seq<char>,
    pub portfolio: Seq<char>,
    pub valuta_prefix: Seq<char>,
    pub valuta_format: Seq<char>,
    pub interest_prefix: Seq<char>,
    pub interest_format: Seq<char>,
    pub valuta_title: Seq<char>,
    pub taxes_title: Seq<char>,
    pub rate_label: Seq<char>,
    pub rate_word: int,
    pub share_price_label: Seq<char>,
    pub dividend_label: Seq<char>,
    pub total_title: Seq<char>,
    pub interest_title: Seq<char>,
}

pub open spec fn shares_ok(shares_text: Option<Seq<char>>) -> bool {
    shares_text matches Some(t) && parses_as_decimal(t)
}

/// Whether a conversion amount, where there is one, comes with its rate and
/// the total it converts.
pub open spec fn exchange_ok(lines: Seq<Seq<char>>, l: StatementLabels) -> bool {
    amount_ok(lines, l.rate_label) ==> rate_ok(lines, l.rate_label, l.rate_word) && amount_ok(
        lines,
        l.total_title,
    )
}

/// Whether every field of a purchase or sale reads.
pub open spec fn transaction_ok(
    lines: Seq<Seq<char>>,
    l: StatementLabels,
    shares_text: Option<Seq<char>>,
    share_title_text: Option<Seq<char>>,
) -> bool {
    &&& date_ok(lines, l.valuta_prefix, l.valuta_format)
    &&& shares_ok(shares_text)
    &&& money_after_ok(lines, l.share_price_label)
    &&& amount_ok(lines, l.total_title)
    &&& amount_ok(lines, l.valuta_title)
    &&& isin_ok(lines)
    &&& share_title_text is Some
    &&& exchange_ok(lines, l)
}

/// Whether every field of a dividend reads.
pub open spec fn dividend_ok(
    lines: Seq<Seq<char>>,
    l: StatementLabels,
    shares_text: Option<Seq<char>>,
    share_title_text: Option<Seq<char>>,
) -> bool {
    &&& isin_ok(lines)
    &&& share_title_text is Some
    &&& amount_ok(lines, l.valuta_title)
    &&& date_ok(lines, l.valuta_prefix, l.valuta_format)
    &&& shares_ok(shares_text)
    &&& money_after_ok(lines, l.dividend_label)
    &&& amount_ok(lines, l.total_title)
    &&& exchange_ok(lines, l)
}

/// Whether the fields that a kind of document needs read.
pub open spec fn document_ok(
    lines: Seq<Seq<char>>,
    l: StatementLabels,
    shares_text: Option<Seq<char>>,
    share_title_text: Option<Seq<char>>,
    kind: DocumentKind,
) -> bool {
    match kind {
        DocumentKind::Purchase | DocumentKind::Sale => transaction_ok(
            lines,
            l,
            shares_text,
            share_title_text,
        ),
        DocumentKind::Dividend | DocumentKind::TaxReturn => dividend_ok(
            lines,
            l,
            shares_text,
            share_title_text,
        ),
        DocumentKind::Fees | DocumentKind::Incoming => amount_ok(lines, l.valuta_title) && date_ok(
            lines,
            l.valuta_prefix,
            l.valuta_format,
        ),
        DocumentKind::Interest => amount_ok(lines, l.interest_title) && date_ok(
            lines,
            l.interest_prefix,
            l.interest_format,
        ),
        _ => true,
    }
}

pub open spec fn is_viac(author: Option<String>) -> bool {
    author matches Some(a) && a@ == "VIAC"@
}

fn author_is_viac(author: &Option<String>) -> (r: bool)
    ensures
        r == is_viac(*author),
{
    match author {
        Some(a) => *a == "VIAC".to_owned(),
        None => false,
    }
}

fn page_contains(page: &Vec<char>, pat: &str) -> (r: bool)
    ensures
        r == contains_seq(page@, pat@),
{
    let p = chars_of(pat);
    contains_chars(page, &p)
}

/// The readers of a statement; the two languages differ in their labels and
/// in where a few fields stand.
pub trait ViacPdfExtractor: Sized {
    spec fn data(&self) -> ViacPdfData;

    /// The labels and formats of the statement's language.
    spec fn labels(&self) -> StatementLabels;

    /// The text of the number of shares, where its line is found.
    spec fn shares_text(&self) -> Option<Seq<char>>;

    /// The title of the share, where its line is found.
    spec fn share_title_text(&self) -> Option<Seq<char>>;

    /// What the statement is about, by its author and its first page.
    spec fn kind(&self) -> DocumentKind;

    fn data_ref(&self) -> (r: &ViacPdfData)
        ensures
            *r == self.data(),
    ;

    fn document_kind(&self) -> (r: DocumentKind)
        requires
            self.data().wf(),
        ensures
            r == self.kind(),
    ;

    fn valuta_date(&self) -> (r: Option<Date>)
        requires
            self.data().wf(),
        ensures
            r is Some == date_ok(self.data().lines(), self.labels().valuta_prefix, self.labels().valuta_format),
            r matches Some(d) ==> (d.year, d.month, d.day) == date_at(
                self.data().lines(),
                self.labels().valuta_prefix,
                self.labels().valuta_format,
            ),
    ;

    fn interest_date(&self) -> (r: Option<Date>)
        requires
            self.data().wf(),
        ensures
            r is Some == date_ok(
                self.data().lines(),
                self.labels().interest_prefix,
                self.labels().interest_format,
            ),
            r matches Some(d) ==> (d.year, d.month, d.day) == date_at(
                self.data().lines(),
                self.labels().interest_prefix,
                self.labels().interest_format,
            ),
    ;

    fn shares(&self) -> (r: Option<Amount>)
        requires
            self.data().wf(),
        ensures
            r is Some == shares_ok(self.shares_text()),
            r matches Some(a) ==> Some(amt(a)) == decimal_parsed(self.shares_text()->Some_0),
    ;

    fn share_title(&self) -> (r: Option<String>)
        requires
            self.data().wf(),
        ensures
            match self.share_title_text() {
                Some(t) => r is Some && r->Some_0@ == t,
                None => r is None,
            },
    ;

    fn share_price(&self) -> (r: Option<Money>)
        requires
            self.data().wf(),
        ensures
            r is Some == money_after_ok(self.data().lines(), self.labels().share_price_label),
            r matches Some(m) ==> amt(m.amount) == money_at(
                self.data().lines(),
                self.labels().share_price_label,
            ),
    ;

    fn dividend_price(&self) -> (r: Option<Money>)
        requires
            self.data().wf(),
        ensures
            r is Some == money_after_ok(self.data().lines(), self.labels().dividend_label),
            r matches Some(m) ==> amt(m.amount) == money_at(
                self.data().lines(),
                self.labels().dividend_label,
            ),
    ;

    fn total_price(&self) -> (r: Option<Money>)
        requires
            self.data().wf(),
        ensures
            r is Some == amount_ok(self.data().lines(), self.labels().total_title),
            r matches Some(m) ==> amt(m.amount) == amount_at(self.data().lines(), self.labels().total_title),
    ;

    fn interest_price(&self) -> (r: Option<Money>)
        requires
            self.data().wf(),
        ensures
            r is Some == amount_ok(self.data().lines(), self.labels().interest_title),
            r matches Some(m) ==> amt(m.amount) == amount_at(self.data().lines(), self.labels().interest_title),
    ;

    fn valuta_price(&self) -> (r: Option<Money>)
        requires
            self.data().wf(),
        ensures
            r is Some == amount_ok(self.data().lines(), self.labels().valuta_title),
            r matches Some(m) ==> amt(m.amount) == amount_at(self.data().lines(), self.labels().valuta_title),
    ;

    fn taxes(&self) -> (r: Option<Money>)
        requires
            self.data().wf(),
        ensures
            r is Some == amount_ok(self.data().lines(), self.labels().taxes_title),
            r matches Some(m) ==> amt(m.amount) == amount_at(self.data().lines(), self.labels().taxes_title),
    ;

    fn exchange_rate_value(&self) -> (r: Option<Amount>)
        requires
            self.data().wf(),
        ensures
            r is Some == rate_ok(self.data().lines(), self.labels().rate_label, self.labels().rate_word),
            r matches Some(a) ==> amt(a) == rate_at(
                self.data().lines(),
                self.labels().rate_label,
                self.labels().rate_word,
            ),
    ;

    fn filename(&self) -> (r: String)
        requires
            file_name_of(self.data().path@) is Some,
        ensures
            r@ == file_name_of(self.data().path@)->Some_0,
    ;

    fn account_numbers(&self) -> (r: (String, String))
        requires
            self.data().wf(),
        ensures
            (r.0@, r.1@) == account_scan(
                self.data().lines(),
                self.labels().account,
                self.labels().portfolio,
                self.data().lines().len(),
            ),
    ;

    fn isin(&self) -> (r: Option<String>)
        requires
            self.data().wf(),
        ensures
            match line_after_prefix(self.data().lines(), "ISIN:"@) {
                Some(i) => if self.data().lines()[i].len() > 0 {
                    r is Some && r->Some_0@ == self.data().lines()[i]
                } else {
                    r is None
                },
                None => r is None,
            },
    ;

    /// The conversion of the total, where the statement converts one: empty
    /// where it does not, an error where it does but its rate or total does
    /// not read.
    fn exchange_rate(&self) -> (r: Result<Option<ExchangeRate>, ()>)
        requires
            self.data().wf(),
        ensures
            r is Ok == exchange_ok(self.data().lines(), self.labels()),
            r matches Ok(e) ==> (e is Some == amount_ok(self.data().lines(), self.labels().rate_label)),
    {
        match self.data_ref().title_currency_amount(self.rate_title_str()) {
            None => Ok(None),
            Some(pdf_price) => {
                match (self.exchange_rate_value(), self.total_price()) {
                    (Some(rate), Some(total_price)) => Ok(
                        Some(ExchangeRate { rate, total_price, pdf_price }),
                    ),
                    _ => Err(()),
                }
            },
        }
    }

    fn rate_title_str(&self) -> (r: &'static str)
        ensures
            r@ == self.labels().rate_label,
    ;

    /// The purchase or sale the statement records; empty where a field of it
    /// does not read.
    fn transaction(&self) -> (r: Option<ViacTransaction>)
        requires
            self.data().wf(),
        ensures
            r is Some == transaction_ok(
                self.data().lines(),
                self.labels(),
                self.shares_text(),
                self.share_title_text(),
            ),
            r matches Some(t) ==> {
                &&& t.isin@ == isin_text(self.data().lines())
                &&& t.share_title@ == self.share_title_text()->Some_0
                &&& (t.valuta_date.year, t.valuta_date.month, t.valuta_date.day) == date_at(
                    self.data().lines(),
                    self.labels().valuta_prefix,
                    self.labels().valuta_format,
                )
                &&& t.taxes is Some == amount_ok(self.data().lines(), self.labels().taxes_title)
                &&& t.exchange_rate is Some == amount_ok(
                    self.data().lines(),
                    self.labels().rate_label,
                )
            },
    {
        let valuta_date = self.valuta_date();
        let shares = self.shares();
        let share_price = self.share_price();
        let total_price = self.total_price();
        let valuta_price = self.valuta_price();
        let isin = self.isin();
        let share_title = self.share_title();
        let exchange_rate = self.exchange_rate();
        let taxes = self.taxes();
        match (valuta_date, shares, share_price, total_price, valuta_price, isin, share_title) {
            (
                Some(valuta_date),
                Some(shares),
                Some(share_price),
                Some(total_price),
                Some(valuta_price),
                Some(isin),
                Some(share_title),
            ) => match exchange_rate {
                Ok(exchange_rate) => Some(
                    ViacTransaction {
                        valuta_date,
                        shares,
                        share_price,
                        total_price,
                        valuta_price,
                        taxes,
                        isin,
                        share_title,
                        exchange_rate,
                    },
                ),
                Err(_) => None,
            },
            _ => None,
        }
    }

    /// The dividend the statement records; empty where a field of it does
    /// not read.
    fn dividend(&self) -> (r: Option<ViacDividend>)
        requires
            self.data().wf(),
        ensures
            r is Some == dividend_ok(
                self.data().lines(),
                self.labels(),
                self.shares_text(),
                self.share_title_text(),
            ),
            r matches Some(d) ==> {
                &&& d.isin@ == isin_text(self.data().lines())
                &&& d.share_title@ == self.share_title_text()->Some_0
                &&& (d.valuta_date.year, d.valuta_date.month, d.valuta_date.day) == date_at(
                    self.data().lines(),
                    self.labels().valuta_prefix,
                    self.labels().valuta_format,
                )
                &&& d.exchange_rate is Some == amount_ok(
                    self.data().lines(),
                    self.labels().rate_label,
                )
            },
    {
        let isin = self.isin();
        let share_title = self.share_title();
        let valuta_price = self.valuta_price();
        let valuta_date = self.valuta_date();
        let shares = self.shares();
        let dividend_price = self.dividend_price();
        let total_price = self.total_price();
        let exchange_rate = self.exchange_rate();
        match (isin, share_title, valuta_price, valuta_date, shares, dividend_price, total_price) {
            (
                Some(isin),
                Some(share_title),
                Some(valuta_price),
                Some(valuta_date),
                Some(shares),
                Some(dividend_price),
                Some(total_price),
            ) => match exchange_rate {
                Ok(exchange_rate) => Some(
                    ViacDividend {
                        isin,
                        share_title,
                        valuta_date,
                        valuta_price,
                        shares,
                        dividend_price,
                        total_price,
                        exchange_rate,
                    },
                ),
                Err(_) => None,
            },
            _ => None,
        }
    }

    /// The summary of a statement: its document, its accounts, and a comment
    /// naming its file; empty where a field the document needs does not read.
    fn summary(&self, deduce: bool) -> (r: Option<ViacSummary>)
        requires
            self.data().wf(),
            file_name_of(self.data().path@) is Some,
        ensures
            r is Some == document_ok(
                self.data().lines(),
                self.labels(),
                self.shares_text(),
                self.share_title_text(),
                self.kind(),
            ),
            r matches Some(s) ==> {
                &&& s.deduce == deduce
                &&& s.document_type.kind() == self.kind()
                &&& (s.account_number@, s.portfolio_number@) == account_scan(
                    self.data().lines(),
                    self.labels().account,
                    self.labels().portfolio,
                    self.data().lines().len(),
                )
                &&& s.comment@ == "viac_pdf_import "@ + file_name_of(self.data().path@)->Some_0
            },
    {
        let document_type = match self.document_type() {
            Some(d) => d,
            None => return None,
        };
        let (account_number, portfolio_number) = self.account_numbers();
        let mut comment = "viac_pdf_import ".to_owned();
        let name = self.filename();
        comment.append(name.as_str());
        Some(ViacSummary { deduce, account_number, portfolio_number, comment, document_type })
    }

    /// The document the statement holds, of the kind its first page names;
    /// empty where a field that kind needs does not read.
    fn document_type(&self) -> (r: Option<ViacDocument>)
        requires
            self.data().wf(),
        ensures
            r is Some == document_ok(
                self.data().lines(),
                self.labels(),
                self.shares_text(),
                self.share_title_text(),
                self.kind(),
            ),
            r matches Some(d) ==> d.kind() == self.kind(),
    {
        match self.document_kind() {
            DocumentKind::Purchase => match self.transaction() {
                Some(t) => Some(ViacDocument::Purchase(t)),
                None => None,
            },
            DocumentKind::Sale => match self.transaction() {
                Some(t) => Some(ViacDocument::Sale(t)),
                None => None,
            },
            DocumentKind::Dividend => match self.dividend() {
                Some(d) => Some(ViacDocument::Dividend(d)),
                None => None,
            },
            DocumentKind::TaxReturn => match self.dividend() {
                Some(d) => Some(ViacDocument::TaxReturn(d)),
                None => None,
            },
            DocumentKind::Fees => match (self.valuta_price(), self.valuta_date()) {
                (Some(valuta_price), Some(valuta_date)) => Some(
                    ViacDocument::Fees(ViacValuta { valuta_date, valuta_price }),
                ),
                _ => None,
            },
            DocumentKind::Incoming => match (self.valuta_price(), self.valuta_date()) {
                (Some(valuta_price), Some(valuta_date)) => Some(
                    ViacDocument::Incoming(ViacValuta { valuta_date, valuta_price }),
                ),
                _ => None,
            },
            DocumentKind::Interest => match (self.interest_price(), self.interest_date()) {
                (Some(valuta_price), Some(valuta_date)) => Some(
                    ViacDocument::Interest(ViacValuta { valuta_date, valuta_price }),
                ),
                _ => None,
            },
            DocumentKind::Unknown => Some(ViacDocument::Unknown),
            DocumentKind::NotViac => Some(ViacDocument::NotViac),
            DocumentKind::FeesRefund => Some(ViacDocument::FeesRefund(0)),
            DocumentKind::InterestCharge => Some(ViacDocument::InterestCharge(0)),
            DocumentKind::Outgoing => Some(ViacDocument::Outgoing(0)),
            DocumentKind::Tax => Some(ViacDocument::Tax(0)),
            DocumentKind::TransferIn => Some(ViacDocument::TransferIn(0)),
            DocumentKind::TransferOut => Some(ViacDocument::TransferOut(0)),
            DocumentKind::DeliveryIn => Some(ViacDocument::DeliveryIn(0)),
            DocumentKind::DeliveryOut => Some(ViacDocument::DeliveryOut(0)),
        }
    }
}

impl ViacPdfExtractor for ViacPdfGerman {
    open spec fn data(&self) -> ViacPdfData {
        self.0
    }

    open spec fn labels(&self) -> StatementLabels {
        StatementLabels {
            account: "Vertrag"@,
            portfolio: "Portfolio"@,
            valuta_prefix: "Valuta"@,
            valuta_format: "Valuta %d.%m.%Y"@,
            interest_prefix: "Am "@,
            interest_format: "Am %d.%m.%Y haben wir Ihrem Konto gutgeschrieben:"@,
            valuta_title: "Valuta"@,
            taxes_title: "Stempelsteuer"@,
            rate_label: "Umrechnungskurs"@,
            rate_word: 2,
            share_price_label: "Kurs:"@,
            dividend_label: "Ausschüttung:"@,
            total_title: "Betrag"@,
            interest_title: "Verrechneter Betrag"@,
        }
    }

    open spec fn shares_text(&self) -> Option<Seq<char>> {
        match first_equal(self.0.lines(), "Ant"@) {
            Some(i) => Some(line_before(self.0.lines(), i)),
            None => None,
        }
    }

    open spec fn share_title_text(&self) -> Option<Seq<char>> {
        match line_after_equal(self.0.lines(), "Ant"@) {
            Some(i) => Some(self.0.lines()[i]),
            None => None,
        }
    }

    open spec fn kind(&self) -> DocumentKind {
        let page = self.0.pages@[0]@;
        if !is_viac(self.0.author) {
            DocumentKind::NotViac
        } else if contains_seq(page, "Börsenabrechnung - Kauf"@) {
            DocumentKind::Purchase
        } else if contains_seq(page, "Börsenabrechnung - Verkauf"@) {
            DocumentKind::Sale
        } else if contains_seq(page, "Dividendenausschüttung"@) {
            if contains_seq(page, "Rückerstattung Quellensteuer"@) {
                DocumentKind::TaxReturn
            } else if contains_seq(page, "Korrektur Dividendenausschüttung"@) {
                DocumentKind::Unknown
            } else {
                DocumentKind::Dividend
            }
        } else if contains_seq(page, "Verwaltungsgebühr"@) {
            DocumentKind::Fees
        } else if contains_seq(page, "Zinsgutschrift"@) {
            DocumentKind::Interest
        } else if contains_seq(page, "Zahlungseingang"@) {
            DocumentKind::Incoming
        } else if contains_seq(page, "____impossible_____FeesRefund"@) {
            DocumentKind::FeesRefund
        } else if contains_seq(page, "____impossible_____InterestCharge"@) {
            DocumentKind::InterestCharge
        } else if contains_seq(page, "____impossible_____Outgoing"@) {
            DocumentKind::Outgoing
        } else if contains_seq(page, "____impossible_____Tax"@) {
            DocumentKind::Tax
        } else if contains_seq(page, "____impossible_____TransferIn"@) {
            DocumentKind::TransferIn
        } else if contains_seq(page, "____impossible_____TransferOut"@) {
            DocumentKind::TransferOut
        } else if contains_seq(page, "____impossible_____DeliveryIn"@) {
            DocumentKind::DeliveryIn
        } else if contains_seq(page, "____impossible_____DeliveryOut"@) {
            DocumentKind::DeliveryOut
        } else {
            DocumentKind::Unknown
        }
    }

    fn data_ref(&self) -> (r: &ViacPdfData) {
        &self.0
    }

    fn document_kind(&self) -> (r: DocumentKind) {
        let page = chars_of(self.0.pages[0].as_str());
        if !author_is_viac(&self.0.author) {
            DocumentKind::NotViac
        } else if page_contains(&page, "Börsenabrechnung - Kauf") {
            DocumentKind::Purchase
        } else if page_contains(&page, "Börsenabrechnung - Verkauf") {
            DocumentKind::Sale
        } else if page_contains(&page, "Dividendenausschüttung") {
            if page_contains(&page, "Rückerstattung Quellensteuer") {
                DocumentKind::TaxReturn
            } else if page_contains(&page, "Korrektur Dividendenausschüttung") {
                DocumentKind::Unknown
            } else {
                DocumentKind::Dividend
            }
        } else if page_contains(&page, "Verwaltungsgebühr") {
            DocumentKind::Fees
        } else if page_contains(&page, "Zinsgutschrift") {
            DocumentKind::Interest
        } else if page_contains(&page, "Zahlungseingang") {
            DocumentKind::Incoming
        } else if page_contains(&page, "____impossible_____FeesRefund") {
            DocumentKind::FeesRefund
        } else if page_contains(&page, "____impossible_____InterestCharge") {
            DocumentKind::InterestCharge
        } else if page_contains(&page, "____impossible_____Outgoing") {
            DocumentKind::Outgoing
        } else if page_contains(&page, "____impossible_____Tax") {
            DocumentKind::Tax
        } else if page_contains(&page, "____impossible_____TransferIn") {
            DocumentKind::TransferIn
        } else if page_contains(&page, "____impossible_____TransferOut") {
            DocumentKind::TransferOut
        } else if page_contains(&page, "____impossible_____DeliveryIn") {
            DocumentKind::DeliveryIn
        } else if page_contains(&page, "____impossible_____DeliveryOut") {
            DocumentKind::DeliveryOut
        } else {
            DocumentKind::Unknown
        }
    }

    fn valuta_date(&self) -> (r: Option<Date>) {
        self.0.date_at_prefix("Valuta", "Valuta %d.%m.%Y")
    }

    fn interest_date(&self) -> (r: Option<Date>) {
        self.0.date_at_prefix("Am ", "Am %d.%m.%Y haben wir Ihrem Konto gutgeschrieben:")
    }

    fn shares(&self) -> (r: Option<Amount>) {
        self.0.decimal_before_equal("Ant")
    }

    fn share_title(&self) -> (r: Option<String>) {
        self.0.line_after("Ant")
    }

    fn share_price(&self) -> (r: Option<Money>) {
        self.0.money_after_line("Kurs:")
    }

    fn dividend_price(&self) -> (r: Option<Money>) {
        self.0.money_after_line("Ausschüttung:")
    }

    fn total_price(&self) -> (r: Option<Money>) {
        self.0.title_currency_amount("Betrag")
    }

    fn interest_price(&self) -> (r: Option<Money>) {
        self.0.title_currency_amount("Verrechneter Betrag")
    }

    fn valuta_price(&self) -> (r: Option<Money>) {
        self.0.title_currency_amount("Valuta")
    }

    fn taxes(&self) -> (r: Option<Money>) {
        self.0.title_currency_amount("Stempelsteuer")
    }

    fn exchange_rate_value(&self) -> (r: Option<Amount>) {
        self.0.rate_value("Umrechnungskurs", 2)
    }

    fn rate_title_str(&self) -> (r: &'static str) {
        "Umrechnungskurs"
    }

    fn filename(&self) -> (r: String) {
        self.0.filename()
    }

    fn account_numbers(&self) -> (r: (String, String)) {
        self.0.account_numbers("Vertrag", "Portfolio")
    }

    fn isin(&self) -> (r: Option<String>) {
        self.0.isin()
    }
}

impl ViacPdfExtractor for ViacPdfFrench {
    open spec fn data(&self) -> ViacPdfData {
        self.0
    }

    open spec fn labels(&self) -> StatementLabels {
        StatementLabels {
            account: "Contrat"@,
            portfolio: "Portefeuille"@,
            valuta_prefix: "Valeur"@,
            valuta_format: "Valeur %d.%m.%Y"@,
            interest_prefix: "Nous avons "@,
            interest_format: "Nous avons crédité le %d.%m.%Y les intérêts suivants:"@,
            valuta_title: "Valeur"@,
            taxes_title: "Droits de timbre"@,
            rate_label: "Taux de conversion"@,
            rate_word: 4,
            share_price_label: "Cours:"@,
            dividend_label: "Dividende distribué:"@,
            total_title: "Montant"@,
            interest_title: "Montant crédité"@,
        }
    }

    open spec fn shares_text(&self) -> Option<Seq<char>> {
        match first_with_prefix(self.0.lines(), "ISIN:"@) {
            Some(i) => Some(line_two_before(self.0.lines(), i)),
            None => None,
        }
    }

    open spec fn share_title_text(&self) -> Option<Seq<char>> {
        match first_with_prefix(self.0.lines(), "ISIN:"@) {
            Some(i) => Some(line_before(self.0.lines(), i)),
            None => None,
        }
    }

    open spec fn kind(&self) -> DocumentKind {
        let page = self.0.pages@[0]@;
        if !is_viac(self.0.author) {
            DocumentKind::NotViac
        } else if contains_seq(page, "Opération de bourse - Achat"@) {
            DocumentKind::Purchase
        } else if contains_seq(page, "Opération de bourse - Vente"@) {
            DocumentKind::Sale
        } else if contains_seq(page, "Avis de dividende"@) {
            if contains_seq(page, "Remboursement d'impôt à la source"@) {
                DocumentKind::TaxReturn
            } else {
                DocumentKind::Dividend
            }
        } else if contains_seq(page, "Commission"@) {
            DocumentKind::Fees
        } else if contains_seq(page, "Intérêts"@) {
            DocumentKind::Interest
        } else if contains_seq(page, "Avis de versement"@) {
            DocumentKind::Incoming
        } else {
            DocumentKind::Unknown
        }
    }

    fn data_ref(&self) -> (r: &ViacPdfData) {
        &self.0
    }

    fn document_kind(&self) -> (r: DocumentKind) {
        let page = chars_of(self.0.pages[0].as_str());
        if !author_is_viac(&self.0.author) {
            DocumentKind::NotViac
        } else if page_contains(&page, "Opération de bourse - Achat") {
            DocumentKind::Purchase
        } else if page_contains(&page, "Opération de bourse - Vente") {
            DocumentKind::Sale
        } else if page_contains(&page, "Avis de dividende") {
            if page_contains(&page, "Remboursement d'impôt à la source") {
                DocumentKind::TaxReturn
            } else {
                DocumentKind::Dividend
            }
        } else if page_contains(&page, "Commission") {
            DocumentKind::Fees
        } else if page_contains(&page, "Intérêts") {
            DocumentKind::Interest
        } else if page_contains(&page, "Avis de versement") {
            DocumentKind::Incoming
        } else {
            DocumentKind::Unknown
        }
    }

    fn valuta_date(&self) -> (r: Option<Date>) {
        self.0.date_at_prefix("Valeur", "Valeur %d.%m.%Y")
    }

    fn interest_date(&self) -> (r: Option<Date>) {
        self.0.date_at_prefix("Nous avons ", "Nous avons crédité le %d.%m.%Y les intérêts suivants:")
    }

    fn shares(&self) -> (r: Option<Amount>) {
        self.0.decimal_two_before_prefix("ISIN:")
    }

    fn share_title(&self) -> (r: Option<String>) {
        self.0.line_before_prefix("ISIN:")
    }

    fn share_price(&self) -> (r: Option<Money>) {
        self.0.money_after_line("Cours:")
    }

    fn dividend_price(&self) -> (r: Option<Money>) {
        self.0.money_after_line("Dividende distribué:")
    }

    fn total_price(&self) -> (r: Option<Money>) {
        self.0.title_currency_amount("Montant")
    }

    fn interest_price(&self) -> (r: Option<Money>) {
        self.0.title_currency_amount("Montant crédité")
    }

    fn valuta_price(&self) -> (r: Option<Money>) {
        self.0.title_currency_amount("Valeur")
    }

    fn taxes(&self) -> (r: Option<Money>) {
        self.0.title_currency_amount("Droits de timbre")
    }

    fn exchange_rate_value(&self) -> (r: Option<Amount>) {
        self.0.rate_value("Taux de conversion", 4)
    }

    fn rate_title_str(&self) -> (r: &'static str) {
        "Taux de conversion"
    }

    fn filename(&self) -> (r: String) {
        self.0.filename()
    }

    fn account_numbers(&self) -> (r: (String, String)) {
        self.0.account_numbers("Contrat", "Portefeuille")
    }

    fn isin(&self) -> (r: Option<String>) {
        self.0.isin()
    }
}

} // verus!
