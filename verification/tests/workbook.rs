//! Workbook assembly, worksheet layout, URLs and the expiry date.

use paperless_to_spreadsheet::dates::expiry_date;
use paperless_to_spreadsheet::record::InvoiceRecord;
use paperless_to_spreadsheet::sheet::{record_row, SheetCell};
use paperless_to_spreadsheet::urls;
use paperless_to_spreadsheet::xlsx::{build_workbook, workbook_to_buffer};

fn record(title: &str, share_link: &str) -> InvoiceRecord {
    InvoiceRecord {
        title: title.to_owned(),
        counterparty: "Acme".to_owned(),
        date: "2025-01-01".to_owned(),
        doc_type: "Invoice".to_owned(),
        amount: "150.00".to_owned(),
        currency: "USD".to_owned(),
        notes: String::new(),
        share_link: share_link.to_owned(),
        link: "https://host/documents/1".to_owned(),
    }
}

#[test]
fn empty_investment_bucket_gives_one_worksheet() {
    let work = vec![record("a", "")];
    let investment: Vec<InvoiceRecord> = vec![];
    let mut workbook = build_workbook(&work, &investment).unwrap();
    let names: Vec<String> = workbook.worksheets().iter().map(|w| w.name()).collect();
    assert_eq!(names, vec!["Work Expenses".to_owned()]);
}

#[test]
fn non_empty_investment_bucket_gives_two_worksheets_in_order() {
    let work = vec![record("a", "")];
    let investment = vec![record("b", "https://host/share/xyz")];
    let mut workbook = build_workbook(&work, &investment).unwrap();
    let names: Vec<String> = workbook.worksheets().iter().map(|w| w.name()).collect();
    assert_eq!(
        names,
        vec!["Work Expenses".to_owned(), "Investment Property".to_owned()]
    );
}

#[test]
fn workbook_serializes_to_xlsx_bytes() {
    let work = vec![record("a", "https://host/share/xyz")];
    let investment: Vec<InvoiceRecord> = vec![];
    let mut workbook = build_workbook(&work, &investment).unwrap();
    let bytes = workbook_to_buffer(&mut workbook).unwrap();
    // An xlsx file is a zip archive: it starts with the "PK" signature.
    assert!(bytes.len() > 4);
    assert_eq!(&bytes[0..2], b"PK");
}

#[test]
fn row_layout_has_nine_columns_in_fixed_order() {
    let cells = record_row(&record("a", "https://host/share/xyz"));
    assert_eq!(cells.len(), 9);
    assert!(matches!(&cells[0], SheetCell::Text(s) if s == "a"));
    assert!(matches!(&cells[1], SheetCell::Text(s) if s == "Acme"));
    assert!(matches!(&cells[2], SheetCell::Text(s) if s == "2025-01-01"));
    assert!(matches!(&cells[3], SheetCell::Text(s) if s == "Invoice"));
    assert!(matches!(&cells[4], SheetCell::Text(s) if s == "150.00"));
    assert!(matches!(&cells[5], SheetCell::Text(s) if s == "USD"));
    assert!(matches!(&cells[6], SheetCell::Text(s) if s == ""));
    assert!(matches!(
        &cells[7],
        SheetCell::Hyperlink { url, label } if url == "https://host/share/xyz" && label == "Share Link"
    ));
    assert!(matches!(
        &cells[8],
        SheetCell::Hyperlink { url, label } if url == "https://host/documents/1" && label == "Link"
    ));
}

#[test]
fn missing_share_link_leaves_an_empty_cell() {
    let cells = record_row(&record("a", ""));
    assert!(matches!(&cells[7], SheetCell::Empty));
}

#[test]
fn endpoint_urls_are_built_from_the_base() {
    assert_eq!(urls::custom_fields_url("https://h"), "https://h/api/custom_fields/");
    assert_eq!(urls::tags_url("https://h"), "https://h/api/tags/");
    assert_eq!(urls::correspondents_url("https://h"), "https://h/api/correspondents/");
    assert_eq!(urls::document_types_url("https://h"), "https://h/api/document_types/");
    assert_eq!(
        urls::documents_by_tag_url("https://h", 12),
        "https://h/api/documents/?tags__id__in=12"
    );
    assert_eq!(urls::share_links_url("https://h"), "https://h/api/share_links/");
    assert_eq!(urls::share_url("https://h", "slug9"), "https://h/share/slug9");
    assert_eq!(urls::document_url("https://h", 3), "https://h/documents/3");
}

#[test]
fn expiry_date_is_thirty_days_after_the_given_moment() {
    // 1970-01-01 plus thirty days.
    assert_eq!(expiry_date(0), "1970-01-31");
    // 2025-06-15 12:00:00 UTC plus thirty days is 2025-07-15.
    assert_eq!(expiry_date(1749988800), "2025-07-15");
}

#[test]
fn output_filename_names_the_financial_year() {
    assert_eq!(
        paperless_to_spreadsheet::sheet::workbook_filename("2025"),
        "FY2025 Documents.xlsx"
    );
}

#[test]
fn pages_accumulate_in_arrival_order() {
    let mut collected: Vec<u32> = vec![1, 2];
    paperless_to_spreadsheet::pages::append_page(&mut collected, vec![3, 4]);
    paperless_to_spreadsheet::pages::append_page(&mut collected, vec![5]);
    assert_eq!(collected, vec![1, 2, 3, 4, 5]);
}
