//! The amount/currency parsing rule.
//!
//! A raw amount string may begin with a three-letter currency code; if its
//! first three characters (after trimming whitespace) are alphabetic they
//! are read as the code, upper-cased, and the remainder is the amount.
//! Otherwise the currency defaults to "AUD" and the whole trimmed string is
//! the amount.

use vstd::prelude::*;

use crate::text::{
    alphabetic_char, is_unicode_alpha, spec_trim_spaces, to_uppercase_str, trim_spaces, upper_of,
};

verus! {

/// The trimmed string begins with three alphabetic characters, read as a
/// currency code.
pub open spec fn has_currency_prefix(t: Seq<char>) -> bool {
    t.len() >= 3 && is_unicode_alpha(t[0]) && is_unicode_alpha(t[1]) && is_unicode_alpha(t[2])
}

/// The (currency, amount) pair parsed from a raw amount string.
pub open spec fn spec_parse_amount_currency(raw: Seq<char>) -> (Seq<char>, Seq<char>) {
    let t = spec_trim_spaces(raw);
    if has_currency_prefix(t) {
        (upper_of(t.subrange(0, 3)), t.subrange(3, t.len() as int))
    } else {
        ("AUD"@, t)
    }
}

/// Split a raw amount string into its currency code and its amount.
///
/// Returns `(currency, amount)`.
pub fn parse_amount_and_currency(raw_amount: &str) -> (r: (String, String))
    ensures
        (r.0@, r.1@) == spec_parse_amount_currency(raw_amount@),
{
    let trimmed = trim_spaces(raw_amount);
    let n = trimmed.unicode_len();
    if n >= 3 {
        let c0 = trimmed.get_char(0);
        let c1 = trimmed.get_char(1);
        let c2 = trimmed.get_char(2);
        if alphabetic_char(c0) && alphabetic_char(c1) && alphabetic_char(c2) {
            let prefix = trimmed.substring_char(0, 3);
            let currency = to_uppercase_str(prefix);
            let amount = trimmed.substring_char(3, n).to_owned();
            return (currency, amount);
        }
    }
    ("AUD".to_owned(), trimmed.to_owned())
}

} // verus!
