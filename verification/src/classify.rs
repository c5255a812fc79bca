//! Splitting the filtered documents into the two output buckets.
//!
//! A document carrying the configured IP tag goes to Investment Property;
//! every other document goes to Work Expenses. When no IP tag is
//! configured, everything is a work expense.

use vstd::prelude::*;

use crate::document::Document;
use crate::filter::has_tag;
use crate::record::{process_single_document, spec_invoice_record, InvoiceRecord, RecordView};
use crate::refs::RefEntity;

verus! {

/// Whether a document is an Investment Property document: a pure function
/// of the presence of the IP tag on the document.
pub open spec fn spec_is_investment_property(doc: Document, ip_tag_id: Option<u32>) -> bool {
    ip_tag_id is Some && doc.tags@.contains(ip_tag_id->0)
}

/// The views of a vector of share links.
pub open spec fn spec_link_views(links: Seq<String>) -> Seq<Seq<char>> {
    links.map_values(|s: String| s@)
}

/// The views of a vector of records.
pub open spec fn spec_record_views(records: Seq<InvoiceRecord>) -> Seq<RecordView> {
    records.map_values(|r: InvoiceRecord| r@)
}

/// The records of one bucket: the records of the documents whose IP-tag
/// presence equals `investment`, in document order, each paired with its
/// share link.
pub open spec fn spec_bucket_records(
    docs: Seq<Document>,
    links: Seq<Seq<char>>,
    ip_tag_id: Option<u32>,
    investment: bool,
    correspondents: Seq<RefEntity>,
    document_types: Seq<RefEntity>,
    base_url: Seq<char>,
) -> Seq<RecordView>
    decreases docs.len(),
{
    if docs.len() == 0 {
        Seq::empty()
    } else {
        let rest = spec_bucket_records(
            docs.drop_first(),
            links.drop_first(),
            ip_tag_id,
            investment,
            correspondents,
            document_types,
            base_url,
        );
        if spec_is_investment_property(docs[0], ip_tag_id) == investment {
            seq![
                spec_invoice_record(docs[0], correspondents, document_types, links[0], base_url),
            ] + rest
        } else {
            rest
        }
    }
}

/// Each document lands in exactly one bucket: over any document sequence
/// the two buckets' sizes add up to the number of documents, and the
/// bucket a document feeds is decided by the presence of the IP tag alone.
pub proof fn lemma_classification_complete(
    docs: Seq<Document>,
    links: Seq<Seq<char>>,
    ip_tag_id: Option<u32>,
    correspondents: Seq<RefEntity>,
    document_types: Seq<RefEntity>,
    base_url: Seq<char>,
)
    ensures
        spec_bucket_records(
            docs,
            links,
            ip_tag_id,
            false,
            correspondents,
            document_types,
            base_url,
        ).len() + spec_bucket_records(
            docs,
            links,
            ip_tag_id,
            true,
            correspondents,
            document_types,
            base_url,
        ).len() == docs.len(),
    decreases docs.len(),
{
    if docs.len() > 0 {
        lemma_classification_complete(
            docs.drop_first(),
            links.drop_first(),
            ip_tag_id,
            correspondents,
            document_types,
            base_url,
        );
    }
}

/// Build every record and separate them into the Work Expenses and the
/// Investment Property bucket.
///
/// `share_links` carries one (possibly empty) share link per document, in
/// the same order. Returns `(work_expenses, investment_property)`.
pub fn separate_documents_by_tag(
    documents: Vec<Document>,
    share_links: Vec<String>,
    ip_tag_id: Option<u32>,
    correspondents: &Vec<RefEntity>,
    document_types: &Vec<RefEntity>,
    base_url: &str,
) -> (r: (Vec<InvoiceRecord>, Vec<InvoiceRecord>))
    requires
        documents@.len() == share_links@.len(),
    ensures
        r.0@.len() + r.1@.len() == documents@.len(),
        spec_record_views(r.0@) == spec_bucket_records(
            documents@,
            spec_link_views(share_links@),
            ip_tag_id,
            false,
            correspondents@,
            document_types@,
            base_url@,
        ),
        spec_record_views(r.1@) == spec_bucket_records(
            documents@,
            spec_link_views(share_links@),
            ip_tag_id,
            true,
            correspondents@,
            document_types@,
            base_url@,
        ),
{
    let ghost all_docs = documents@;
    let ghost all_links = spec_link_views(share_links@);
    let mut docs = documents;
    let mut links = share_links;
    let mut work: Vec<InvoiceRecord> = Vec::new();
    let mut investment: Vec<InvoiceRecord> = Vec::new();
    while docs.len() > 0
        invariant
            docs@.len() == links@.len(),
            spec_bucket_records(
                all_docs,
                all_links,
                ip_tag_id,
                false,
                correspondents@,
                document_types@,
                base_url@,
            ) =~= spec_record_views(work@) + spec_bucket_records(
                docs@,
                spec_link_views(links@),
                ip_tag_id,
                false,
                correspondents@,
                document_types@,
                base_url@,
            ),
            spec_bucket_records(
                all_docs,
                all_links,
                ip_tag_id,
                true,
                correspondents@,
                document_types@,
                base_url@,
            ) =~= spec_record_views(investment@) + spec_bucket_records(
                docs@,
                spec_link_views(links@),
                ip_tag_id,
                true,
                correspondents@,
                document_types@,
                base_url@,
            ),
        decreases docs@.len(),
    {
        let ghost docs_before = docs@;
        let ghost links_before = spec_link_views(links@);
        let doc = docs.remove(0);
        let link = links.remove(0);
        proof {
            assert(docs@ =~= docs_before.drop_first());
            assert(spec_link_views(links@) =~= links_before.drop_first());
            assert(link@ == links_before[0]);
        }
        let record = process_single_document(
            &doc,
            correspondents,
            document_types,
            link,
            base_url,
        );
        let is_investment = match ip_tag_id {
            Option::Some(ip) => has_tag(&doc.tags, ip),
            Option::None => false,
        };
        proof {
            assert(is_investment == spec_is_investment_property(docs_before[0], ip_tag_id));
        }
        if is_investment {
            let ghost before = investment@;
            investment.push(record);
            proof {
                assert(spec_record_views(before) + (seq![record@] + spec_bucket_records(
                    docs@,
                    spec_link_views(links@),
                    ip_tag_id,
                    true,
                    correspondents@,
                    document_types@,
                    base_url@,
                )) =~= spec_record_views(investment@) + spec_bucket_records(
                    docs@,
                    spec_link_views(links@),
                    ip_tag_id,
                    true,
                    correspondents@,
                    document_types@,
                    base_url@,
                ));
            }
        } else {
            let ghost before = work@;
            work.push(record);
            proof {
                assert(spec_record_views(before) + (seq![record@] + spec_bucket_records(
                    docs@,
                    spec_link_views(links@),
                    ip_tag_id,
                    false,
                    correspondents@,
                    document_types@,
                    base_url@,
                )) =~= spec_record_views(work@) + spec_bucket_records(
                    docs@,
                    spec_link_views(links@),
                    ip_tag_id,
                    false,
                    correspondents@,
                    document_types@,
                    base_url@,
                ));
            }
        }
    }
    proof {
        assert(spec_record_views(work@) + Seq::<RecordView>::empty() =~= spec_record_views(
            work@,
        ));
        assert(spec_record_views(investment@) + Seq::<RecordView>::empty()
            =~= spec_record_views(investment@));
        lemma_classification_complete(
            all_docs,
            all_links,
            ip_tag_id,
            correspondents@,
            document_types@,
            base_url@,
        );
    }
    (work, investment)
}

} // verus!
