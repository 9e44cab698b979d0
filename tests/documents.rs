use std::str::FromStr;

use rust_decimal::Decimal;
use viac_pdf_import::money::Amount;
use viac_pdf_import::date::Date;
use viac_pdf_import::document::{
    DocumentKind, ViacDocument, ViacPdfExtractor, ViacPdfFrench, ViacPdfGerman,
};
use viac_pdf_import::money::Money;
use viac_pdf_import::options::{IsinCurrency, IsinCurrencyError};
use viac_pdf_import::statement::ViacPdfData;

const GERMAN_PURCHASE: &str = "Börsenabrechnung - Kauf
Vertrag
3a.123
Portfolio
P-1
Valuta 21.03.2023
CHF
16.20
0.549
Ant
UBS ETF MSCI
ISIN:
CH0012345678
Kurs:
CHF 29'439.00
Betrag
CHF
16.14
Stempelsteuer
CHF
0.06";

const FRENCH_DIVIDEND: &str = "Avis de dividende de la Banque WIR
Contrat
C-9
Portefeuille
PF-2
Valeur 15.06.2023
CHF
12.00
1.5
Some Fund
ISIN:
IE00B4L5Y983
Dividende distribué:
USD 8.00
Montant
USD
12.00";

fn statement(path: &str, author: Option<&str>, page: &str) -> ViacPdfData {
    ViacPdfData {
        path: path.to_string(),
        title: Some("Statement".to_string()),
        author: author.map(|a| a.to_string()),
        pages: vec![page.to_string()],
    }
}

fn dec(s: &str) -> Amount {
    Amount::parse(s).unwrap()
}

fn whole(i: i128) -> Amount {
    Amount::new(i, 0).unwrap()
}

fn decimal(a: Amount) -> Decimal {
    Decimal::from_i128_with_scale(a.mantissa(), a.scale())
}

fn exact(s: &str) -> Decimal {
    Decimal::from_str(s).unwrap()
}

#[test]
fn german_purchase_fields() {
    let g = ViacPdfGerman(statement("/x/kauf.pdf", Some("VIAC"), GERMAN_PURCHASE));
    assert_eq!(g.document_kind(), DocumentKind::Purchase);
    assert_eq!(g.valuta_date(), Some(Date { year: 2023, month: 3, day: 21 }));
    assert_eq!(g.shares(), Some(dec("0.549")));
    assert_eq!(g.share_title(), Some("UBS ETF MSCI".to_string()));
    assert_eq!(g.isin(), Some("CH0012345678".to_string()));
    let price = g.share_price().unwrap();
    assert_eq!(&price.currency, b"CHF");
    assert_eq!(price.amount, dec("29439.00"));
    assert_eq!(g.total_price().unwrap().amount, dec("16.14"));
    assert_eq!(g.valuta_price().unwrap().amount, dec("16.20"));
    assert_eq!(g.taxes().unwrap().amount, dec("0.06"));
    assert!(g.exchange_rate().unwrap().is_none());
    assert!(g.dividend_price().is_none());
}

#[test]
fn german_purchase_summary() {
    let g = ViacPdfGerman(statement("/x/kauf.pdf", Some("VIAC"), GERMAN_PURCHASE));
    let s = g.summary(false).unwrap();
    assert_eq!(s.comment, "viac_pdf_import kauf.pdf");
    assert_eq!(s.account_number, "3a.123");
    assert_eq!(s.portfolio_number, "P-1");
    assert_eq!(s.order_type(), "BUY");
    assert_eq!(s.isin(), "CH0012345678");
    assert_eq!(s.share_title(), "UBS ETF MSCI");
    assert_eq!(s.taxes(), "0.06");
    assert_eq!(s.fees(), "0.00");
    assert_eq!(s.shares(), Some("0.549".to_string()));
    assert_eq!(s.valuta_date(), Date { year: 2023, month: 3, day: 21 });
    assert_eq!(s.valuta_price(), ("16.20".to_string(), "CHF".to_string()));
    assert_eq!(s.total_price(whole(100)), Some(("1614.00".to_string(), "CHF".to_string())));
    assert_eq!(s.exchange_rate(whole(1)), Some(String::new()));
    match &s.document_type {
        ViacDocument::Purchase(t) => {
            let v = t.valuta_without_taxes().unwrap();
            assert_eq!(&v.currency, b"CHF");
            assert_eq!(v.amount, dec("16.14"));
            // the printed price does not match the total: the count is corrected
            let count = t.real_shares_count().unwrap();
            assert_eq!(decimal(count), exact("16.14") / exact("29439.00"));
        }
        other => panic!("unexpected document {:?}", other),
    }
}

#[test]
fn french_dividend() {
    let f = ViacPdfFrench(statement("div.pdf", Some("VIAC"), FRENCH_DIVIDEND));
    assert_eq!(f.document_kind(), DocumentKind::Dividend);
    assert_eq!(f.shares(), Some(dec("1.5")));
    assert_eq!(f.share_title(), Some("Some Fund".to_string()));
    assert_eq!(f.account_numbers(), ("C-9".to_string(), "PF-2".to_string()));
    match f.document_type() {
        Some(ViacDocument::Dividend(d)) => {
            assert_eq!(d.isin, "IE00B4L5Y983");
            assert_eq!(d.valuta_date, Date { year: 2023, month: 6, day: 15 });
            assert_eq!(d.dividend_price.amount, dec("8.00"));
            assert_eq!(decimal(d.real_shares_count().unwrap()), exact("1.5"));
        }
        other => panic!("unexpected document {:?}", other),
    }
    let s = f.summary(true).unwrap();
    assert_eq!(s.order_type(), "DIVIDENDS");
    assert_eq!(exact(&s.shares().unwrap()), exact("1.5"));
    assert_eq!(exact(&s.exchange_rate_compute(whole(1)).unwrap()), Decimal::ONE);
}

#[test]
fn kinds_by_author_and_markers() {
    let not_viac = ViacPdfGerman(statement("a.pdf", None, GERMAN_PURCHASE));
    assert_eq!(not_viac.document_kind(), DocumentKind::NotViac);
    assert!(matches!(not_viac.document_type(), Some(ViacDocument::NotViac)));
    let unknown = ViacPdfGerman(statement("a.pdf", Some("VIAC"), "Kontoauszug"));
    assert!(matches!(unknown.document_type(), Some(ViacDocument::Unknown)));
    let correction = ViacPdfGerman(statement(
        "a.pdf",
        Some("VIAC"),
        "Korrektur Dividendenausschüttung",
    ));
    assert_eq!(correction.document_kind(), DocumentKind::Unknown);
    let refund = ViacPdfFrench(statement(
        "a.pdf",
        Some("VIAC"),
        "Avis de dividende\nRemboursement d'impôt à la source",
    ));
    assert_eq!(refund.document_kind(), DocumentKind::TaxReturn);
    let sale = ViacPdfFrench(statement("a.pdf", Some("VIAC"), "Opération de bourse - Vente"));
    assert_eq!(sale.document_kind(), DocumentKind::Sale);
    // a purchase whose fields are missing gives no document
    assert!(sale.document_type().is_none());
    assert!(sale.summary(false).is_none());
}

#[test]
fn german_interest_and_fees() {
    let page = "Zinsgutschrift\nAm 31.12.2023 haben wir Ihrem Konto gutgeschrieben:\nVerrechneter Betrag\nCHF\n1'001.23";
    let g = ViacPdfGerman(statement("z.pdf", Some("VIAC"), page));
    match g.document_type() {
        Some(ViacDocument::Interest(v)) => {
            assert_eq!(v.valuta_date, Date { year: 2023, month: 12, day: 31 });
            assert_eq!(v.valuta_price.amount, dec("1001.23"));
        }
        other => panic!("unexpected document {:?}", other),
    }
    let fees = "Verwaltungsgebühr\nValuta 02.01.2024\nCHF\n4.50";
    let s = ViacPdfGerman(statement("f.pdf", Some("VIAC"), fees)).summary(false).unwrap();
    assert_eq!(s.order_type(), "FEES");
    assert_eq!(s.fees(), "4.50");
    assert_eq!(s.shares(), Some("0.00".to_string()));
    assert_eq!(s.isin(), "");
    assert_eq!(s.total_price(whole(1)), Some((String::new(), String::new())));
}

#[test]
fn exchange_rate_on_its_line_or_the_next() {
    let page = "Umrechnungskurs CHF/USD 0.9123\nCHF\n14.72\nBetrag\nUSD\n16.14";
    let g = ViacPdfGerman(statement("r.pdf", Some("VIAC"), page));
    assert_eq!(g.exchange_rate_value(), Some(dec("0.9123")));
    let er = g.exchange_rate().unwrap().unwrap();
    assert_eq!(er.rate, dec("0.9123"));
    assert_eq!(er.pdf_price.amount, dec("14.72"));
    assert_eq!(er.total_price.amount, dec("16.14"));
    let chf = er.total_price_chf().unwrap();
    assert_eq!(&chf.currency, b"CHF");
    assert_eq!(decimal(chf.amount), exact("16.14") * exact("0.9123"));
    let next_line = "Taux de conversion CHF/USD \n0.95\nMontant\nUSD\n3.00";
    let f = ViacPdfFrench(statement("r.pdf", Some("VIAC"), next_line));
    assert_eq!(f.exchange_rate_value(), Some(dec("0.95")));
    let missing = ViacPdfGerman(statement("r.pdf", Some("VIAC"), "Umrechnungskurs\nCHF\n1.00"));
    assert!(missing.exchange_rate().is_err());
}

#[test]
fn amount_skips_a_conversion_line() {
    let page = "Betrag\n1.0234 CHF/EUR\nEUR\n2'500.50";
    let d = statement("a.pdf", None, page);
    let m: Money = d.title_currency_amount("Betrag").unwrap();
    assert_eq!(&m.currency, b"EUR");
    assert_eq!(m.amount, dec("2500.50"));
    assert!(statement("a.pdf", None, "Betrag\nEUR\nabc").title_currency_amount("Betrag").is_none());
    assert!(statement("a.pdf", None, "Betrag\nE").title_currency_amount("Betrag").is_none());
}

#[test]
fn isin_currency_pairs() {
    let p = IsinCurrency::parse("US0378331005,USD").unwrap();
    assert_eq!(&p.currency, b"USD");
    assert_eq!(p.isin.to_string(), "US0378331005");
    assert!(matches!(
        IsinCurrency::parse("US0378331005"),
        Err(IsinCurrencyError::IsinAndCurrencyNotFound)
    ));
    assert!(matches!(IsinCurrency::parse("XX,USD"), Err(IsinCurrencyError::IsinError(_))));
    assert!(matches!(
        IsinCurrency::parse("US0378331005,US"),
        Err(IsinCurrencyError::CurrencyNotThreeChar)
    ));
    assert!("US0378331005,GBX".parse::<IsinCurrency>().is_ok());
}
