//! Building a spreadsheet record from a document and the loaded lookups.
//!
//! This is the enrichment step: counterparty and type names are resolved
//! (with a placeholder for unknown identifiers), the amount and currency
//! are read from custom field 3 unless the type is a statement, and the
//! direct document link is built from the base URL.

use vstd::prelude::*;

use crate::amount::{parse_amount_and_currency, spec_parse_amount_currency};
use crate::document::{spec_raw_amount, Document};
use crate::refs::{resolve_name, spec_resolved_name, RefEntity};
use crate::text::{contains_statement, dec_str, is_statement_name};
use crate::urls::document_url;

verus! {

/// One row of the output: a document enriched with resolved names, amount
/// and links.
pub struct InvoiceRecord {
    pub title: String,
    pub counterparty: String,
    pub date: String,
    pub doc_type: String,
    pub amount: String,
    pub currency: String,
    pub notes: String,
    pub share_link: String,
    pub link: String,
}

/// The mathematical image of a record: each field as a character sequence.
pub struct RecordView {
    pub title: Seq<char>,
    pub counterparty: Seq<char>,
    pub date: Seq<char>,
    pub doc_type: Seq<char>,
    pub amount: Seq<char>,
    pub currency: Seq<char>,
    pub notes: Seq<char>,
    pub share_link: Seq<char>,
    pub link: Seq<char>,
}

impl View for InvoiceRecord {
    type V = RecordView;

    open spec fn view(&self) -> RecordView {
        RecordView {
            title: self.title@,
            counterparty: self.counterparty@,
            date: self.date@,
            doc_type: self.doc_type@,
            amount: self.amount@,
            currency: self.currency@,
            notes: self.notes@,
            share_link: self.share_link@,
            link: self.link@,
        }
    }
}

/// Is this record a statement? Statements sort first and carry no amount.
pub open spec fn spec_is_statement_record(r: RecordView) -> bool {
    is_statement_name(r.doc_type)
}

/// The record derived from one document: resolved names, the amount rule,
/// the share link as handed in, and the direct document link.
pub open spec fn spec_invoice_record(
    doc: Document,
    correspondents: Seq<RefEntity>,
    document_types: Seq<RefEntity>,
    share_link: Seq<char>,
    base_url: Seq<char>,
) -> RecordView {
    let doc_type = spec_resolved_name(doc.document_type, document_types);
    let parsed = spec_parse_amount_currency(spec_raw_amount(doc.custom_fields@));
    RecordView {
        title: doc.title@,
        counterparty: spec_resolved_name(doc.correspondent, correspondents),
        date: doc.created_date@,
        doc_type: doc_type,
        amount: if is_statement_name(doc_type) {
            Seq::empty()
        } else {
            parsed.1
        },
        currency: if is_statement_name(doc_type) {
            Seq::empty()
        } else {
            parsed.0
        },
        notes: Seq::empty(),
        share_link: share_link,
        link: base_url + "/documents/"@ + dec_str(doc.id as nat),
    }
}

/// Build the record for one document.
///
/// The share link is handed in by the caller (it comes from a network
/// request whose failure leaves it empty); everything else is derived from
/// the document and the lookup tables.
pub fn process_single_document(
    doc: &Document,
    correspondents: &Vec<RefEntity>,
    document_types: &Vec<RefEntity>,
    share_link: String,
    base_url: &str,
) -> (r: InvoiceRecord)
    ensures
        r@ == spec_invoice_record(*doc, correspondents@, document_types@, share_link@, base_url@),
{
    let counterparty = resolve_name(doc.correspondent, correspondents);
    let doc_type = resolve_name(doc.document_type, document_types);
    let (currency, amount) = if contains_statement(doc_type.as_str()) {
        (String::new(), String::new())
    } else {
        let raw = crate::document::raw_amount(&doc.custom_fields);
        parse_amount_and_currency(raw.as_str())
    };
    let link = document_url(base_url, doc.id);
    InvoiceRecord {
        title: doc.title.clone(),
        counterparty,
        date: doc.created_date.clone(),
        doc_type,
        amount,
        currency,
        notes: String::new(),
        share_link,
        link,
    }
}

} // verus!
