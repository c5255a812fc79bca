//! Selecting the documents that belong to the target financial year.
//!
//! A document passes when it carries the multi-year tag, or when one of its
//! custom-field slots for the financial-year field (field 1) compares equal
//! to the target year text. A document with neither is excluded.

use vstd::prelude::*;

use crate::document::{spec_filter_text, Document};

verus! {

/// The identifier of the custom field holding a document's financial year.
pub const FINANCIAL_YEAR_FIELD: u32 = 1;

/// Some slot of custom field 1 normalizes to exactly the target year.
pub open spec fn spec_has_matching_year(doc: Document, target_fy: Seq<char>) -> bool {
    exists|i: int|
        0 <= i < doc.custom_fields@.len() && doc.custom_fields@[i].field == FINANCIAL_YEAR_FIELD
            && spec_filter_text(#[trigger] doc.custom_fields@[i].value) == target_fy
}

/// The document belongs to the target year: it carries the multi-year tag,
/// or its financial-year field equals the target exactly.
pub open spec fn spec_document_included(
    doc: Document,
    target_fy: Seq<char>,
    multi_fy_tag_id: Option<u32>,
) -> bool {
    (multi_fy_tag_id is Some && doc.tags@.contains(multi_fy_tag_id->0)) || spec_has_matching_year(
        doc,
        target_fy,
    )
}

/// Does the tag list carry this tag?
pub fn has_tag(tags: &Vec<u32>, tag: u32) -> (r: bool)
    ensures
        r == tags@.contains(tag),
{
    let n = tags.len();
    let mut i: usize = 0;
    while i < n
        invariant
            0 <= i <= n == tags@.len(),
            forall|k: int| 0 <= k < i ==> tags@[k] != tag,
        decreases n - i,
    {
        if tags[i] == tag {
            return true;
        }
        i = i + 1;
    }
    false
}

/// Does this document belong to the target financial year?
pub fn document_matches(doc: &Document, target_fy: &String, multi_fy_tag_id: Option<u32>) -> (r:
    bool)
    ensures
        r == spec_document_included(*doc, target_fy@, multi_fy_tag_id),
{
    if let Option::Some(multi_id) = multi_fy_tag_id {
        if has_tag(&doc.tags, multi_id) {
            return true;
        }
    }
    let n = doc.custom_fields.len();
    let mut i: usize = 0;
    while i < n
        invariant
            0 <= i <= n == doc.custom_fields@.len(),
            forall|k: int|
                0 <= k < i ==> !(doc.custom_fields@[k].field == FINANCIAL_YEAR_FIELD
                    && spec_filter_text(#[trigger] doc.custom_fields@[k].value) == target_fy@),
        decreases n - i,
    {
        if doc.custom_fields[i].field == FINANCIAL_YEAR_FIELD {
            let text = crate::document::filter_text(&doc.custom_fields[i].value);
            if text == *target_fy {
                return true;
            }
        }
        i = i + 1;
    }
    false
}

/// The documents of `docs` that belong to the target year, in order.
pub open spec fn spec_filtered_documents(
    docs: Seq<Document>,
    target_fy: Seq<char>,
    multi_fy_tag_id: Option<u32>,
) -> Seq<Document> {
    docs.filter(|d: Document| spec_document_included(d, target_fy, multi_fy_tag_id))
}

/// Keep the documents that belong to the target financial year, preserving
/// their order.
pub fn filter_documents_by_criteria(
    documents: Vec<Document>,
    target_fy: &String,
    multi_fy_tag_id: Option<u32>,
) -> (r: Vec<Document>)
    ensures
        r@ == spec_filtered_documents(documents@, target_fy@, multi_fy_tag_id),
{
    let ghost orig = documents@;
    let ghost pred = |d: Document| spec_document_included(d, target_fy@, multi_fy_tag_id);
    let mut rest = documents;
    let mut out: Vec<Document> = Vec::new();
    let mut i: usize = 0;
    let n = rest.len();
    while i < n
        invariant
            0 <= i <= n == orig.len(),
            rest@ == orig.subrange(i as int, n as int),
            out@ == orig.subrange(0, i as int).filter(
                |d: Document| spec_document_included(d, target_fy@, multi_fy_tag_id),
            ),
        decreases n - i,
    {
        let doc = rest.remove(0);
        assert(doc == orig[i as int]);
        let keep = document_matches(&doc, target_fy, multi_fy_tag_id);
        proof {
            reveal(Seq::filter);
            assert(orig.subrange(0, i + 1).drop_last() =~= orig.subrange(0, i as int));
            assert(orig.subrange(0, i + 1).last() == orig[i as int]);
        }
        if keep {
            out.push(doc);
        }
        proof {
            assert(rest@ =~= orig.subrange(i + 1, n as int));
        }
        i = i + 1;
    }
    proof {
        assert(orig.subrange(0, n as int) =~= orig);
    }
    out
}

} // verus!
