use viac_pdf_import::money::Amount;
use viac_pdf_import::date::Date;
use viac_pdf_import::document::{ViacPdfExtractor, ViacPdfFrench, ViacPdfGerman};
use viac_pdf_import::records::{
    account_record, add_shares, conversion_rate, date_text, export_records, portfolio_record,
    share_record, valuta_order,
};
use viac_pdf_import::statement::ViacPdfData;
use viac_pdf_import::summary::ViacSummary;

fn summary_of(german: bool, page: &str) -> ViacSummary {
    let data = ViacPdfData {
        path: "in/doc.pdf".to_string(),
        title: None,
        author: Some("VIAC".to_string()),
        pages: vec![page.to_string()],
    };
    if german {
        ViacPdfGerman(data).summary(false).unwrap()
    } else {
        ViacPdfFrench(data).summary(false).unwrap()
    }
}

const PURCHASE: &str = "Börsenabrechnung - Kauf\nPortfolio\nP-1\nValuta 21.03.2023\nCHF\n16.20\n0.549\nAnt\nUBS ETF\nISIN:\nCH0012345678\nKurs:\nUSD 29.39\nBetrag\nUSD\n16.14";

const DIVIDEND: &str = "Avis de dividende\nValeur 15.06.2023\nCHF\n12.00\n1.5\nUBS ETF\nISIN:\nCH0012345678\nDividende distribué:\nEUR 8.00\nMontant\nEUR\n12.00";

#[test]
fn dates_are_written_with_midnight() {
    assert_eq!(date_text(Date { year: 2023, month: 3, day: 7 }), "2023-03-07 00:00:00");
    assert_eq!(date_text(Date { year: 987, month: 12, day: 31 }), "0987-12-31 00:00:00");
    assert_eq!(date_text(Date { year: 12345, month: 1, day: 2 }), "+12345-01-02 00:00:00");
    assert_eq!(date_text(Date { year: -44, month: 3, day: 15 }), "-0044-03-15 00:00:00");
}

#[test]
fn pence_are_a_hundredth() {
    let pairs = vec![
        ("GB00B03MLX29".to_string(), *b"GBX"),
        ("US0378331005".to_string(), *b"USD"),
    ];
    assert_eq!(conversion_rate(&"GB00B03MLX29".to_string(), &pairs), (Amount::new(100, 0).unwrap(), true));
    assert_eq!(conversion_rate(&"US0378331005".to_string(), &pairs), (Amount::new(1, 0).unwrap(), false));
    assert_eq!(conversion_rate(&"CH0012345678".to_string(), &pairs), (Amount::new(1, 0).unwrap(), false));
}

#[test]
fn share_list_from_trades() {
    let purchase = summary_of(true, PURCHASE);
    let dividend = summary_of(false, DIVIDEND);
    let mut shares = Vec::new();
    add_shares(&mut shares, &vec![dividend, purchase]);
    assert_eq!(shares.len(), 1);
    assert_eq!(
        share_record(&shares[0]),
        vec!["CH0012345678", "", "", "UBS ETF", "USD", "viac_pdf_import"]
    );
    let again = summary_of(true, PURCHASE);
    add_shares(&mut shares, &vec![again]);
    assert_eq!(shares.len(), 1);
}

#[test]
fn portfolio_and_account_records() {
    let purchase = summary_of(true, PURCHASE);
    let record = portfolio_record(&purchase, &vec![]).unwrap();
    assert_eq!(
        record,
        vec![
            "2023-03-21 00:00:00",
            "BUY",
            "16.20",
            "CHF",
            "16.14",
            "USD",
            "",
            "0.00",
            "0.00",
            "0.549",
            "CH0012345678",
            "viac_pdf_import doc.pdf"
        ]
    );
    let mut shares = Vec::new();
    add_shares(&mut shares, &vec![purchase]);
    let dividend = summary_of(false, DIVIDEND);
    let record = account_record(&dividend, &vec![], &shares).unwrap();
    assert_eq!(record[0], "2023-06-15 00:00:00");
    assert_eq!(record[1], "DIVIDENDS");
    assert_eq!(record[4], "12.00");
    // the dividend is paid in EUR but the share trades in USD
    assert_eq!(record[5], "USD");
    assert_eq!(record[9], "1.5");
    assert_eq!(record[10], "CH0012345678");
    // without the share's purchase there is no record
    assert!(account_record(&dividend, &vec![], &vec![]).is_none());
    let pence = vec![("CH0012345678".to_string(), *b"GBX")];
    let record = account_record(&dividend, &pence, &vec![]).unwrap();
    assert_eq!(record[4], "1200.00");
    assert_eq!(record[5], "GBX");
}

fn fees_on(date: &str, path: &str) -> ViacSummary {
    let page = format!("Verwaltungsgebühr\nValuta {}\nCHF\n1.00", date);
    let data = ViacPdfData {
        path: path.to_string(),
        title: None,
        author: Some("VIAC".to_string()),
        pages: vec![page],
    };
    ViacPdfGerman(data).summary(false).unwrap()
}

#[test]
fn bookings_ordered_by_date_stably() {
    let summaries = vec![
        fees_on("05.02.2024", "a.pdf"),
        fees_on("01.01.2024", "b.pdf"),
        fees_on("05.02.2024", "c.pdf"),
        fees_on("31.12.2023", "d.pdf"),
    ];
    assert_eq!(valuta_order(&summaries), vec![3, 1, 0, 2]);
    let (account, portfolio) = export_records(&summaries, &vec![], &vec![]).unwrap();
    assert!(portfolio.is_empty());
    let notes: Vec<&str> = account.iter().map(|r| r[11].as_str()).collect();
    assert_eq!(
        notes,
        vec![
            "viac_pdf_import d.pdf",
            "viac_pdf_import b.pdf",
            "viac_pdf_import a.pdf",
            "viac_pdf_import c.pdf"
        ]
    );
    assert_eq!(account[0][1], "FEES");
    assert_eq!(account[0][7], "1.00");
}

#[test]
fn trades_go_to_the_portfolio_file() {
    let purchase = summary_of(true, PURCHASE);
    let dividend = summary_of(false, DIVIDEND);
    let mut shares = Vec::new();
    let summaries = vec![dividend, purchase];
    add_shares(&mut shares, &summaries);
    let (account, portfolio) = export_records(&summaries, &vec![], &shares).unwrap();
    assert_eq!(account.len(), 1);
    assert_eq!(portfolio.len(), 1);
    assert_eq!(portfolio[0][1], "BUY");
    assert_eq!(account[0][1], "DIVIDENDS");
    assert!(export_records(&vec![summary_of(false, DIVIDEND)], &vec![], &vec![]).is_none());
}
