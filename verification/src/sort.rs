//! Ordering a bucket: statement records first.
//!
//! The order is a stable partition, not a general sort: records whose type
//! name contains "statement" (any ASCII case) come first, and within each
//! group the input order is preserved.

use vstd::prelude::*;

use crate::record::{spec_is_statement_record, InvoiceRecord};
use crate::text::contains_statement;

verus! {

/// The statement records of `s`, in their original order.
pub open spec fn spec_statement_records(s: Seq<InvoiceRecord>) -> Seq<InvoiceRecord> {
    s.filter(|r: InvoiceRecord| spec_is_statement_record(r@))
}

/// The non-statement records of `s`, in their original order.
pub open spec fn spec_other_records(s: Seq<InvoiceRecord>) -> Seq<InvoiceRecord> {
    s.filter(|r: InvoiceRecord| !spec_is_statement_record(r@))
}

/// Reorder a bucket so that statement records come first, preserving the
/// relative order within each group.
pub fn sort_documents_by_type(documents: &mut Vec<InvoiceRecord>)
    ensures
        final(documents)@ == spec_statement_records(old(documents)@) + spec_other_records(
            old(documents)@,
        ),
{
    let ghost orig = documents@;
    let n = documents.len();
    let mut statements: Vec<InvoiceRecord> = Vec::new();
    let mut others: Vec<InvoiceRecord> = Vec::new();
    let mut i: usize = 0;
    while i < n
        invariant
            0 <= i <= n == orig.len(),
            documents@ == orig.subrange(i as int, n as int),
            statements@ == spec_statement_records(orig.subrange(0, i as int)),
            others@ == spec_other_records(orig.subrange(0, i as int)),
        decreases n - i,
    {
        let record = documents.remove(0);
        assert(record == orig[i as int]);
        proof {
            reveal(Seq::filter);
            assert(orig.subrange(0, i + 1).drop_last() =~= orig.subrange(0, i as int));
            assert(orig.subrange(0, i + 1).last() == orig[i as int]);
        }
        if contains_statement(record.doc_type.as_str()) {
            statements.push(record);
        } else {
            others.push(record);
        }
        proof {
            assert(documents@ =~= orig.subrange(i + 1, n as int));
        }
        i = i + 1;
    }
    proof {
        assert(orig.subrange(0, n as int) =~= orig);
    }
    statements.append(&mut others);
    *documents = statements;
}

} // verus!
