//! The filter, classifier, sorter and record builder on concrete documents.

use paperless_to_spreadsheet::classify::separate_documents_by_tag;
use paperless_to_spreadsheet::document::{CustomFieldEntry, Document, FieldValue};
use paperless_to_spreadsheet::filter::filter_documents_by_criteria;
use paperless_to_spreadsheet::record::{process_single_document, InvoiceRecord};
use paperless_to_spreadsheet::refs::{find_id_by_name, find_name_by_id, resolve_name, RefEntity};
use paperless_to_spreadsheet::sort::sort_documents_by_type;

fn doc(id: u32, tags: Vec<u32>, custom_fields: Vec<CustomFieldEntry>) -> Document {
    Document {
        id,
        title: format!("Doc {id}"),
        created_date: "2025-01-01".to_owned(),
        correspondent: None,
        document_type: None,
        tags,
        custom_fields,
    }
}

fn year_field(value: &str) -> CustomFieldEntry {
    CustomFieldEntry { field: 1, value: FieldValue::Text(value.to_owned()) }
}

#[test]
fn matching_year_is_included() {
    let d = doc(1, vec![], vec![year_field("2025")]);
    let kept = filter_documents_by_criteria(vec![d], &"2025".to_owned(), None);
    assert_eq!(kept.len(), 1);
}

#[test]
fn mismatching_year_is_excluded() {
    let d = doc(1, vec![], vec![year_field("2025")]);
    let kept = filter_documents_by_criteria(vec![d], &"2024".to_owned(), None);
    assert_eq!(kept.len(), 0);
}

#[test]
fn multi_fy_tag_overrides_year_mismatch() {
    let d = doc(1, vec![9], vec![year_field("2025")]);
    let kept = filter_documents_by_criteria(vec![d], &"2024".to_owned(), Some(9));
    assert_eq!(kept.len(), 1);
}

#[test]
fn numeric_year_field_matches_its_text() {
    let d = doc(1, vec![], vec![CustomFieldEntry {
        field: 1,
        value: FieldValue::Number("2025".to_owned()),
    }]);
    let kept = filter_documents_by_criteria(vec![d], &"2025".to_owned(), None);
    assert_eq!(kept.len(), 1);
}

#[test]
fn document_without_year_field_is_excluded() {
    let d = doc(1, vec![], vec![]);
    let kept = filter_documents_by_criteria(vec![d], &"2025".to_owned(), None);
    assert_eq!(kept.len(), 0);
}

#[test]
fn quoted_json_year_text_is_unquoted_before_comparison() {
    let d = doc(1, vec![], vec![CustomFieldEntry {
        field: 1,
        value: FieldValue::Other("\"2025\"".to_owned()),
    }]);
    let kept = filter_documents_by_criteria(vec![d], &"2025".to_owned(), None);
    assert_eq!(kept.len(), 1);
}

#[test]
fn statement_type_blanks_amount_and_currency() {
    let mut d = doc(5, vec![], vec![CustomFieldEntry {
        field: 3,
        value: FieldValue::Text("USD150.00".to_owned()),
    }]);
    d.document_type = Some(2);
    let types = vec![RefEntity { id: 2, name: "Bank Statement".to_owned() }];
    let record = process_single_document(&d, &vec![], &types, String::new(), "https://host");
    assert_eq!(record.doc_type, "Bank Statement");
    assert_eq!(record.amount, "");
    assert_eq!(record.currency, "");
}

#[test]
fn invoice_type_reads_amount_field() {
    let mut d = doc(6, vec![], vec![CustomFieldEntry {
        field: 3,
        value: FieldValue::Text("USD150.00".to_owned()),
    }]);
    d.document_type = Some(3);
    d.correspondent = Some(8);
    let correspondents = vec![RefEntity { id: 8, name: "Acme".to_owned() }];
    let types = vec![RefEntity { id: 3, name: "Invoice".to_owned() }];
    let record = process_single_document(
        &d,
        &correspondents,
        &types,
        "https://host/share/abc".to_owned(),
        "https://host",
    );
    assert_eq!(record.title, "Doc 6");
    assert_eq!(record.counterparty, "Acme");
    assert_eq!(record.date, "2025-01-01");
    assert_eq!(record.doc_type, "Invoice");
    assert_eq!(record.amount, "150.00");
    assert_eq!(record.currency, "USD");
    assert_eq!(record.notes, "");
    assert_eq!(record.share_link, "https://host/share/abc");
    assert_eq!(record.link, "https://host/documents/6");
}

#[test]
fn missing_amount_field_defaults_to_zero() {
    let d = doc(7, vec![], vec![]);
    let record = process_single_document(&d, &vec![], &vec![], String::new(), "https://host");
    assert_eq!(record.amount, "0");
    assert_eq!(record.currency, "AUD");
    assert_eq!(record.doc_type, "");
    assert_eq!(record.counterparty, "");
}

#[test]
fn unknown_reference_gets_placeholder() {
    assert_eq!(resolve_name(Some(42), &vec![]), "Unknown (ID: 42)");
    assert_eq!(resolve_name(None, &vec![]), "");
}

#[test]
fn reference_lookups_take_the_first_match() {
    let entities = vec![
        RefEntity { id: 1, name: "Tax".to_owned() },
        RefEntity { id: 2, name: "IP".to_owned() },
        RefEntity { id: 3, name: "Tax".to_owned() },
    ];
    assert_eq!(find_id_by_name(&entities, "Tax"), Some(1));
    assert_eq!(find_id_by_name(&entities, "multi-fy"), None);
    assert_eq!(find_name_by_id(&entities, 2).as_deref(), Some("IP"));
    assert_eq!(find_name_by_id(&entities, 9), None);
}

#[test]
fn documents_split_by_ip_tag_into_exactly_two_buckets() {
    let docs = vec![
        doc(1, vec![4], vec![]),
        doc(2, vec![], vec![]),
        doc(3, vec![4, 5], vec![]),
    ];
    let links = vec![String::new(), String::new(), String::new()];
    let (work, investment) =
        separate_documents_by_tag(docs, links, Some(4), &vec![], &vec![], "https://host");
    assert_eq!(work.len() + investment.len(), 3);
    assert_eq!(work.len(), 1);
    assert_eq!(investment.len(), 2);
    assert_eq!(work[0].link, "https://host/documents/2");
    assert_eq!(investment[0].link, "https://host/documents/1");
    assert_eq!(investment[1].link, "https://host/documents/3");
}

#[test]
fn without_ip_tag_everything_is_work_expenses() {
    let docs = vec![doc(1, vec![4], vec![]), doc(2, vec![], vec![])];
    let links = vec![String::new(), String::new()];
    let (work, investment) =
        separate_documents_by_tag(docs, links, None, &vec![], &vec![], "https://host");
    assert_eq!(work.len(), 2);
    assert_eq!(investment.len(), 0);
}

fn record_of_type(doc_type: &str, title: &str) -> InvoiceRecord {
    InvoiceRecord {
        title: title.to_owned(),
        counterparty: String::new(),
        date: String::new(),
        doc_type: doc_type.to_owned(),
        amount: String::new(),
        currency: String::new(),
        notes: String::new(),
        share_link: String::new(),
        link: String::new(),
    }
}

#[test]
fn statements_sort_first_and_each_group_keeps_its_order() {
    let mut records = vec![
        record_of_type("Invoice", "first invoice"),
        record_of_type("Statement", "first statement"),
        record_of_type("Invoice", "second invoice"),
        record_of_type("Statement", "second statement"),
    ];
    sort_documents_by_type(&mut records);
    let titles: Vec<&str> = records.iter().map(|r| r.title.as_str()).collect();
    assert_eq!(
        titles,
        vec!["first statement", "second statement", "first invoice", "second invoice"]
    );
}

#[test]
fn blank_amount_field_defaults_to_zero() {
    let mut d = doc(8, vec![], vec![CustomFieldEntry {
        field: 3,
        value: FieldValue::Text(String::new()),
    }]);
    d.document_type = Some(3);
    let types = vec![RefEntity { id: 3, name: "Invoice".to_owned() }];
    let record = process_single_document(&d, &vec![], &types, String::new(), "https://host");
    assert_eq!(record.amount, "0");
    assert_eq!(record.currency, "AUD");
}

#[test]
fn repeated_amount_field_takes_the_last_occurrence() {
    let d = doc(9, vec![], vec![
        CustomFieldEntry { field: 3, value: FieldValue::Text("USD1".to_owned()) },
        CustomFieldEntry { field: 3, value: FieldValue::Text("NZD2".to_owned()) },
    ]);
    let record = process_single_document(&d, &vec![], &vec![], String::new(), "https://host");
    assert_eq!(record.currency, "NZD");
    assert_eq!(record.amount, "2");
}

#[test]
fn null_year_field_compares_as_the_word_null() {
    let d = doc(10, vec![], vec![CustomFieldEntry { field: 1, value: FieldValue::Null }]);
    assert_eq!(
        filter_documents_by_criteria(vec![d], &"null".to_owned(), None).len(),
        1
    );
}

#[test]
fn boolean_amount_field_renders_as_its_word() {
    let d = doc(11, vec![], vec![CustomFieldEntry {
        field: 3,
        value: FieldValue::Boolean(true),
    }]);
    let record = process_single_document(&d, &vec![], &vec![], String::new(), "https://host");
    // "tru" parses as a currency prefix under the three-letter rule.
    assert_eq!(record.currency, "TRU");
    assert_eq!(record.amount, "e");
}
