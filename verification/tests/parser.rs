//! The amount/currency parser and the text helpers behind it.

use paperless_to_spreadsheet::amount::parse_amount_and_currency;
use paperless_to_spreadsheet::text::{
    contains_statement, trim_quotes, trim_spaces, trim_trailing_slashes, u32_to_string,
};

#[test]
fn currency_prefix_is_split_off() {
    let (currency, amount) = parse_amount_and_currency("USD150.00");
    assert_eq!(currency, "USD");
    assert_eq!(amount, "150.00");
}

#[test]
fn plain_amount_defaults_to_aud() {
    let (currency, amount) = parse_amount_and_currency("150.00");
    assert_eq!(currency, "AUD");
    assert_eq!(amount, "150.00");
}

#[test]
fn empty_amount_defaults_to_aud() {
    let (currency, amount) = parse_amount_and_currency("");
    assert_eq!(currency, "AUD");
    assert_eq!(amount, "");
}

#[test]
fn short_amount_is_kept_whole() {
    let (currency, amount) = parse_amount_and_currency("ab");
    assert_eq!(currency, "AUD");
    assert_eq!(amount, "ab");
}

#[test]
fn lower_case_currency_is_upper_cased() {
    let (currency, amount) = parse_amount_and_currency("usd42");
    assert_eq!(currency, "USD");
    assert_eq!(amount, "42");
}

#[test]
fn amount_is_trimmed_before_parsing() {
    let (currency, amount) = parse_amount_and_currency("  EUR9.50\t");
    assert_eq!(currency, "EUR");
    assert_eq!(amount, "9.50");
}

#[test]
fn digit_prefix_is_not_a_currency() {
    let (currency, amount) = parse_amount_and_currency("1st50");
    assert_eq!(currency, "AUD");
    assert_eq!(amount, "1st50");
}

#[test]
fn trim_spaces_strips_both_ends() {
    assert_eq!(trim_spaces("  a b \r\n"), "a b");
    assert_eq!(trim_spaces("   "), "");
    assert_eq!(trim_spaces(""), "");
}

#[test]
fn trim_quotes_strips_all_surrounding_quotes() {
    assert_eq!(trim_quotes("\"2025\""), "2025");
    assert_eq!(trim_quotes("\"\"x\"\""), "x");
    assert_eq!(trim_quotes("plain"), "plain");
    assert_eq!(trim_quotes("\"\""), "");
}

#[test]
fn trim_trailing_slashes_strips_only_the_tail() {
    assert_eq!(trim_trailing_slashes("https://host//"), "https://host");
    assert_eq!(trim_trailing_slashes("https://host"), "https://host");
}

#[test]
fn statement_word_is_found_in_any_ascii_case() {
    assert!(contains_statement("Bank Statement"));
    assert!(contains_statement("STATEMENTS 2025"));
    assert!(contains_statement("statement"));
    assert!(!contains_statement("Invoice"));
    assert!(!contains_statement("statemen"));
}

#[test]
fn u32_renders_in_decimal() {
    assert_eq!(u32_to_string(0), "0");
    assert_eq!(u32_to_string(7), "7");
    assert_eq!(u32_to_string(4021), "4021");
    assert_eq!(u32_to_string(u32::MAX), "4294967295");
}

#[test]
fn non_ascii_letters_count_as_a_currency_prefix() {
    let (currency, amount) = parse_amount_and_currency("\u{e9}ur5");
    assert_eq!(currency, "\u{c9}UR");
    assert_eq!(amount, "5");
}

#[test]
fn unicode_whitespace_is_trimmed() {
    assert_eq!(trim_spaces("\u{a0}\u{2003}x\u{a0}"), "x");
    let (currency, amount) = parse_amount_and_currency("\u{a0}USD7\u{a0}");
    assert_eq!(currency, "USD");
    assert_eq!(amount, "7");
}
