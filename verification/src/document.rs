//! Documents as fetched from the document service, and the normalization
//! of their custom-field values to plain text.
//!
//! A custom-field value arrives as JSON; the library keeps it as one of
//! five plain shapes. Numbers keep the rendering the JSON layer gave them;
//! array or object values keep their raw JSON text.

use vstd::prelude::*;

use crate::text::{spec_trim_quotes, trim_quotes};

verus! {

/// A custom-field value, reduced to plain data.
pub enum FieldValue {
    /// A JSON string, as is.
    Text(String),
    /// A JSON number, rendered as decimal text.
    Number(String),
    /// A JSON boolean.
    Boolean(bool),
    /// JSON null.
    Null,
    /// Any other JSON value, as raw JSON text.
    Other(String),
}

/// One custom-field slot on a document.
pub struct CustomFieldEntry {
    pub field: u32,
    pub value: FieldValue,
}

/// A document as fetched: identity, descriptive fields, tag references and
/// custom-field values.
pub struct Document {
    pub id: u32,
    pub title: String,
    pub created_date: String,
    pub correspondent: Option<u32>,
    pub document_type: Option<u32>,
    pub tags: Vec<u32>,
    pub custom_fields: Vec<CustomFieldEntry>,
}

/// The text a field value compares as during year filtering: strings as is,
/// numbers as their decimal text, anything else as raw JSON text stripped
/// of surrounding quotes.
pub open spec fn spec_filter_text(v: FieldValue) -> Seq<char> {
    match v {
        FieldValue::Text(s) => s@,
        FieldValue::Number(n) => n@,
        FieldValue::Boolean(b) => if b {
            "true"@
        } else {
            "false"@
        },
        FieldValue::Null => "null"@,
        FieldValue::Other(raw) => spec_trim_quotes(raw@),
    }
}

/// The text a field value contributes to a record: as during filtering,
/// except that booleans become their word and null becomes empty.
pub open spec fn spec_record_text(v: FieldValue) -> Seq<char> {
    match v {
        FieldValue::Text(s) => s@,
        FieldValue::Number(n) => n@,
        FieldValue::Boolean(b) => if b {
            "true"@
        } else {
            "false"@
        },
        FieldValue::Null => Seq::empty(),
        FieldValue::Other(raw) => spec_trim_quotes(raw@),
    }
}

/// Normalize a field value for the year comparison.
pub fn filter_text(v: &FieldValue) -> (r: String)
    ensures
        r@ == spec_filter_text(*v),
{
    match v {
        FieldValue::Text(s) => s.clone(),
        FieldValue::Number(n) => n.clone(),
        FieldValue::Boolean(b) => if *b {
            "true".to_owned()
        } else {
            "false".to_owned()
        },
        FieldValue::Null => "null".to_owned(),
        FieldValue::Other(raw) => trim_quotes(raw.as_str()).to_owned(),
    }
}

/// Normalize a field value for a record.
pub fn record_text(v: &FieldValue) -> (r: String)
    ensures
        r@ == spec_record_text(*v),
{
    match v {
        FieldValue::Text(s) => s.clone(),
        FieldValue::Number(n) => n.clone(),
        FieldValue::Boolean(b) => if *b {
            "true".to_owned()
        } else {
            "false".to_owned()
        },
        FieldValue::Null => String::new(),
        FieldValue::Other(raw) => trim_quotes(raw.as_str()).to_owned(),
    }
}

/// The value of custom field `id` on a document; when the field appears
/// more than once the last occurrence wins.
pub open spec fn spec_last_field_value(fields: Seq<CustomFieldEntry>, id: u32) -> Option<
    FieldValue,
>
    decreases fields.len(),
{
    if fields.len() == 0 {
        None
    } else if fields.last().field == id {
        Some(fields.last().value)
    } else {
        spec_last_field_value(fields.drop_last(), id)
    }
}

/// The raw amount text of a document: custom field 3 normalized for a
/// record, with "0" standing in when the field is missing or blank.
pub open spec fn spec_raw_amount(fields: Seq<CustomFieldEntry>) -> Seq<char> {
    match spec_last_field_value(fields, 3) {
        Option::None => "0"@,
        Option::Some(v) => {
            let t = spec_record_text(v);
            if t.len() == 0 {
                "0"@
            } else {
                t
            }
        },
    }
}

/// Read the raw amount text of a document (custom field 3, last occurrence,
/// defaulting to "0" when missing or blank).
pub fn raw_amount(fields: &Vec<CustomFieldEntry>) -> (r: String)
    ensures
        r@ == spec_raw_amount(fields@),
{
    let n = fields.len();
    let mut found: Option<String> = None;
    let mut i: usize = 0;
    while i < n
        invariant
            0 <= i <= n == fields@.len(),
            match found {
                Option::Some(t) => {
                    &&& spec_last_field_value(fields@.subrange(0, i as int), 3) is Some
                    &&& t@ == spec_record_text(
                        spec_last_field_value(fields@.subrange(0, i as int), 3)->0,
                    )
                },
                Option::None => spec_last_field_value(fields@.subrange(0, i as int), 3) is None,
            },
        decreases n - i,
    {
        proof {
            assert(fields@.subrange(0, i + 1).drop_last() =~= fields@.subrange(0, i as int));
            assert(fields@.subrange(0, i + 1).last() == fields@[i as int]);
        }
        if fields[i].field == 3 {
            found = Some(record_text(&fields[i].value));
        }
        i = i + 1;
    }
    proof {
        assert(fields@.subrange(0, n as int) =~= fields@);
    }
    match found {
        Option::None => "0".to_owned(),
        Option::Some(t) => if t.as_str().is_empty() {
            "0".to_owned()
        } else {
            t
        },
    }
}

} // verus!
