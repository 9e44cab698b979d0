use viac_pdf_import::document::{ViacPdfExtractor, ViacPdfFrench, ViacPdfGerman};
use viac_pdf_import::statement::{ViacPdf, ViacPdfData};

fn data(path: &str, first_page: &str) -> ViacPdfData {
    ViacPdfData {
        path: path.to_string(),
        title: None,
        author: Some("VIAC".to_string()),
        pages: vec![first_page.to_string(), "second page".to_string()],
    }
}

#[test]
fn filename_is_the_last_component() {
    assert_eq!(data("/home/u/docs/2023_kauf.pdf", "").filename(), "2023_kauf.pdf");
    assert_eq!(data("plain.pdf", "").filename(), "plain.pdf");
    assert_eq!(ViacPdfGerman(data("a/b.pdf", "")).filename(), "b.pdf");
    assert_eq!(data("a/b/", "").filename(), "b");
    assert_eq!(data("foo.txt/.", "").filename(), "foo.txt");
    assert_eq!(data("a/./b//.//", "").filename(), "b");
    assert_eq!(data("./c.pdf", "").filename(), "c.pdf");
}

#[test]
fn isin_is_the_line_after_its_label() {
    let d = data("x.pdf", "Kauf\r\nISIN: \nCH0012345678\nVALOR");
    assert_eq!(d.isin(), Some("CH0012345678".to_string()));
    assert_eq!(data("x.pdf", "no label here").isin(), None);
    assert_eq!(data("x.pdf", "ISIN:\n\nCH1").isin(), None);
    assert_eq!(ViacPdfFrench(data("x.pdf", "ISIN: CH\nFR0000")).isin(), Some("FR0000".to_string()));
}

#[test]
fn account_numbers_in_german_and_french() {
    let german = ViacPdfGerman(data(
        "x.pdf",
        "Vertrag\n3a.123.456\nPortfolio\n1-2\nVertrag\nlater",
    ));
    assert_eq!(
        german.account_numbers(),
        ("3a.123.456".to_string(), "1-2".to_string())
    );
    let french = ViacPdfFrench(data("x.pdf", "Portefeuille\n7-8\nContrat\n\nContrat\n9.9"));
    assert_eq!(french.account_numbers(), ("9.9".to_string(), "7-8".to_string()));
    let missing = ViacPdfGerman(data("x.pdf", "Vertrag\n42"));
    assert_eq!(missing.account_numbers(), ("42".to_string(), String::new()));
}

#[test]
fn language_from_first_page() {
    let pages = vec!["Avis de la Banque WIR\nfoo".to_string()];
    match ViacPdf::from_pages("f.pdf".to_string(), None, None, pages) {
        ViacPdf::French(f) => assert_eq!(f.0.pages.len(), 1),
        ViacPdf::German(_) => panic!("expected French"),
    }
    let pages = vec!["Börsenabrechnung - Kauf".to_string(), "de la Banque WIR".to_string()];
    match ViacPdf::from_pages("g.pdf".to_string(), None, None, pages) {
        ViacPdf::German(g) => assert_eq!(g.0.path, "g.pdf"),
        ViacPdf::French(_) => panic!("expected German"),
    }
}
