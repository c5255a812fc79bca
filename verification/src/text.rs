//! Character and string helpers shared by the parsing and layout rules.

use vstd::prelude::*;

verus! {

/// An ASCII letter, the only characters accepted as part of a currency code.
pub open spec fn is_ascii_alpha(c: char) -> bool {
    (65 <= c as u32 && c as u32 <= 90) || (97 <= c as u32 && c as u32 <= 122)
}

/// The ASCII upper-case counterpart of a character; other characters are unchanged.
pub open spec fn spec_ascii_upper(c: char) -> char {
    if 97 <= c as u32 && c as u32 <= 122 {
        ((c as u8) - 32) as char
    } else {
        c
    }
}

/// True when `c` matches the lower-case letter `l` ignoring ASCII case.
pub open spec fn matches_lower(c: char, l: char) -> bool {
    c == l || spec_ascii_upper(l) == c
}

/// The whitespace characters stripped from the ends of a raw amount
/// string: the Unicode White_Space set, as `str::trim` uses it.
pub open spec fn is_space_char(c: char) -> bool {
    ||| c == ' '
    ||| c == '\t'
    ||| c == '\n'
    ||| c == '\u{0B}'
    ||| c == '\u{0C}'
    ||| c == '\r'
    ||| c == '\u{85}'
    ||| c == '\u{A0}'
    ||| c == '\u{1680}'
    ||| (0x2000 <= c as u32 && c as u32 <= 0x200A)
    ||| c == '\u{2028}'
    ||| c == '\u{2029}'
    ||| c == '\u{202F}'
    ||| c == '\u{205F}'
    ||| c == '\u{3000}'
}

/// A double-quote character, stripped from the ends of raw JSON text.
pub open spec fn is_quote_char(c: char) -> bool {
    c == '"'
}

/// How many characters at the front of `s` satisfy `pred`.
pub open spec fn leading_count(s: Seq<char>, pred: spec_fn(char) -> bool) -> int
    decreases s.len(),
{
    if s.len() == 0 {
        0
    } else if pred(s[0]) {
        1 + leading_count(s.drop_first(), pred)
    } else {
        0
    }
}

/// How many characters at the back of `s` satisfy `pred`.
pub open spec fn trailing_count(s: Seq<char>, pred: spec_fn(char) -> bool) -> int
    decreases s.len(),
{
    if s.len() == 0 {
        0
    } else if pred(s.last()) {
        1 + trailing_count(s.drop_last(), pred)
    } else {
        0
    }
}

/// `s` with every leading and trailing character satisfying `pred` removed.
pub open spec fn trim_chars(s: Seq<char>, pred: spec_fn(char) -> bool) -> Seq<char> {
    let front = leading_count(s, pred);
    let back = trailing_count(s, pred);
    if front + back <= s.len() {
        s.subrange(front, s.len() - back)
    } else {
        Seq::empty()
    }
}

/// `s` with leading and trailing whitespace removed.
pub open spec fn spec_trim_spaces(s: Seq<char>) -> Seq<char> {
    trim_chars(s, |c: char| is_space_char(c))
}

/// `s` with leading and trailing double quotes removed.
pub open spec fn spec_trim_quotes(s: Seq<char>) -> Seq<char> {
    trim_chars(s, |c: char| is_quote_char(c))
}

pub proof fn lemma_leading_count(s: Seq<char>, pred: spec_fn(char) -> bool)
    ensures
        0 <= leading_count(s, pred) <= s.len(),
        forall|k: int| 0 <= k < leading_count(s, pred) ==> pred(s[k]),
        leading_count(s, pred) < s.len() ==> !pred(s[leading_count(s, pred)]),
    decreases s.len(),
{
    if s.len() > 0 && pred(s[0]) {
        lemma_leading_count(s.drop_first(), pred);
        assert forall|k: int| 0 <= k < leading_count(s, pred) implies pred(s[k]) by {
            if k > 0 {
                assert(s.drop_first()[k - 1] == s[k]);
            }
        }
        if leading_count(s, pred) < s.len() {
            assert(s.drop_first()[leading_count(s, pred) - 1] == s[leading_count(s, pred)]);
        }
    }
}

pub proof fn lemma_trailing_count(s: Seq<char>, pred: spec_fn(char) -> bool)
    ensures
        0 <= trailing_count(s, pred) <= s.len(),
        forall|k: int| s.len() - trailing_count(s, pred) <= k < s.len() ==> pred(s[k]),
        trailing_count(s, pred) < s.len() ==> !pred(s[s.len() - trailing_count(s, pred) - 1]),
    decreases s.len(),
{
    if s.len() > 0 && pred(s.last()) {
        lemma_trailing_count(s.drop_last(), pred);
        assert forall|k: int| s.len() - trailing_count(s, pred) <= k < s.len() implies pred(
            s[k],
        ) by {
            if k < s.len() - 1 {
                assert(s.drop_last()[k] == s[k]);
            }
        }
        if trailing_count(s, pred) < s.len() {
            assert(s.drop_last()[s.len() - trailing_count(s, pred) - 1] == s[s.len()
                - trailing_count(s, pred) - 1]);
        }
    }
}

/// Is this character whitespace? Runtime twin of `is_space_char`.
fn space_char(c: char) -> (r: bool)
    ensures
        r == is_space_char(c),
{
    let u = c as u32;
    c == ' ' || c == '\t' || c == '\n' || c == '\u{0B}' || c == '\u{0C}' || c == '\r'
        || c == '\u{85}' || c == '\u{A0}' || c == '\u{1680}' || (0x2000 <= u && u <= 0x200A)
        || c == '\u{2028}' || c == '\u{2029}' || c == '\u{202F}' || c == '\u{205F}'
        || c == '\u{3000}'
}

/// Strip leading and trailing whitespace.
pub fn trim_spaces<'a>(s: &'a str) -> (r: &'a str)
    ensures
        r@ == spec_trim_spaces(s@),
{
    let ghost pred = |c: char| is_space_char(c);
    proof {
        lemma_leading_count(s@, pred);
        lemma_trailing_count(s@, pred);
    }
    let n = s.unicode_len();
    let mut i: usize = 0;
    while i < n && space_char(s.get_char(i))
        invariant
            0 <= i <= n == s@.len(),
            forall|k: int| 0 <= k < i ==> is_space_char(s@[k]),
        decreases n - i,
    {
        i = i + 1;
    }
    assert(i == leading_count(s@, pred));
    let mut j: usize = n;
    while j > i && space_char(s.get_char(j - 1))
        invariant
            i <= j <= n == s@.len(),
            forall|k: int| j <= k < n ==> is_space_char(s@[k]),
        decreases j,
    {
        j = j - 1;
    }
    if i == n {
        assert(trim_chars(s@, pred) =~= s@.subrange(i as int, j as int));
    } else {
        assert(j == n - trailing_count(s@, pred));
    }
    s.substring_char(i, j)
}

/// Is this character a double quote? Runtime twin of `is_quote_char`.
fn quote_char(c: char) -> (r: bool)
    ensures
        r == is_quote_char(c),
{
    c == '"'
}

/// Strip leading and trailing double quotes, as many as are present.
pub fn trim_quotes<'a>(s: &'a str) -> (r: &'a str)
    ensures
        r@ == spec_trim_quotes(s@),
{
    let ghost pred = |c: char| is_quote_char(c);
    proof {
        lemma_leading_count(s@, pred);
        lemma_trailing_count(s@, pred);
    }
    let n = s.unicode_len();
    let mut i: usize = 0;
    while i < n && quote_char(s.get_char(i))
        invariant
            0 <= i <= n == s@.len(),
            forall|k: int| 0 <= k < i ==> is_quote_char(s@[k]),
        decreases n - i,
    {
        i = i + 1;
    }
    assert(i == leading_count(s@, pred));
    let mut j: usize = n;
    while j > i && quote_char(s.get_char(j - 1))
        invariant
            i <= j <= n == s@.len(),
            forall|k: int| j <= k < n ==> is_quote_char(s@[k]),
        decreases j,
    {
        j = j - 1;
    }
    if i == n {
        assert(trim_chars(s@, pred) =~= s@.subrange(i as int, j as int));
    } else {
        assert(j == n - trailing_count(s@, pred));
    }
    s.substring_char(i, j)
}

/// `s` with every trailing character satisfying `pred` removed.
pub open spec fn trim_trailing(s: Seq<char>, pred: spec_fn(char) -> bool) -> Seq<char> {
    s.subrange(0, s.len() - trailing_count(s, pred))
}

/// A base URL with its trailing slashes removed.
pub open spec fn spec_trim_trailing_slashes(s: Seq<char>) -> Seq<char> {
    trim_trailing(s, |c: char| c == '/')
}

/// Strip trailing `/` characters from a base URL.
pub fn trim_trailing_slashes<'a>(s: &'a str) -> (r: &'a str)
    ensures
        r@ == spec_trim_trailing_slashes(s@),
{
    let ghost pred = |c: char| c == '/';
    proof {
        lemma_trailing_count(s@, pred);
    }
    let n = s.unicode_len();
    let mut j: usize = n;
    while j > 0 && s.get_char(j - 1) == '/'
        invariant
            0 <= j <= n == s@.len(),
            forall|k: int| j <= k < n ==> s@[k] == '/',
        decreases j,
    {
        j = j - 1;
    }
    if j == 0 {
        assert(n - trailing_count(s@, pred) == 0) by {
            if trailing_count(s@, pred) < n {
                assert(pred(s@[n - trailing_count(s@, pred) - 1]));
            }
        }
    } else {
        assert(!pred(s@[j - 1]));
        assert(j == n - trailing_count(s@, pred));
    }
    s.substring_char(0, j)
}

/// Relies on `String::push`: appends the given character to the end of the string.
#[verifier::external_body]
pub fn push_char(s: &mut String, c: char)
    ensures
        final(s)@ == old(s)@.push(c),
{
    s.push(c)
}

/// Whether a character counts as alphabetic under Unicode. Named here;
/// decided by the standard library.
pub uninterp spec fn is_unicode_alpha(c: char) -> bool;

/// Relies on `char::is_alphabetic`: the Unicode Alphabetic property of the
/// character, a function of the character alone.
#[verifier::external_body]
pub fn alphabetic_char(c: char) -> (r: bool)
    ensures
        r == is_unicode_alpha(c),
{
    c.is_alphabetic()
}

/// The Unicode upper-case form of a string. Named here; computed by the
/// standard library. It may be longer than its input.
pub uninterp spec fn upper_of(s: Seq<char>) -> Seq<char>;

/// Relies on `str::to_uppercase`: the Unicode upper-case form of the
/// string, a function of its characters alone (no locale).
#[verifier::external_body]
pub fn to_uppercase_str(s: &str) -> (r: String)
    ensures
        r@ == upper_of(s@),
{
    s.to_uppercase()
}

/// Upper-case one ASCII letter.
pub fn ascii_upper_char(c: char) -> (r: char)
    requires
        is_ascii_alpha(c),
    ensures
        r == spec_ascii_upper(c),
{
    let u = c as u8;
    if 97 <= u && u <= 122 {
        (u - 32) as char
    } else {
        c
    }
}

/// The decimal digit `d` as a character.
pub open spec fn digit_char(d: int) -> char {
    if d == 0 {
        '0'
    } else if d == 1 {
        '1'
    } else if d == 2 {
        '2'
    } else if d == 3 {
        '3'
    } else if d == 4 {
        '4'
    } else if d == 5 {
        '5'
    } else if d == 6 {
        '6'
    } else if d == 7 {
        '7'
    } else if d == 8 {
        '8'
    } else {
        '9'
    }
}

/// The decimal rendering of `n`, most significant digit first, no sign and no padding.
pub open spec fn dec_str(n: nat) -> Seq<char>
    decreases n,
{
    if n < 10 {
        seq![digit_char(n as int)]
    } else {
        dec_str(n / 10).push(digit_char((n % 10) as int))
    }
}

fn digit_char_exec(d: u32) -> (r: char)
    requires
        d < 10,
    ensures
        r == digit_char(d as int),
{
    match d {
        0 => '0',
        1 => '1',
        2 => '2',
        3 => '3',
        4 => '4',
        5 => '5',
        6 => '6',
        7 => '7',
        8 => '8',
        _ => '9',
    }
}

/// Render `n` in decimal.
pub fn u32_to_string(n: u32) -> (r: String)
    ensures
        r@ == dec_str(n as nat),
    decreases n,
{
    if n < 10 {
        let mut s = String::new();
        push_char(&mut s, digit_char_exec(n));
        assert(s@ =~= dec_str(n as nat));
        s
    } else {
        assert(n / 10 < n && n / 10 >= 1) by (nonlinear_arith)
            requires
                n >= 10,
        ;
        let mut s = u32_to_string(n / 10);
        push_char(&mut s, digit_char_exec(n % 10));
        s
    }
}

/// The characters of the word looked for in a document-type name to
/// recognise a statement.
pub open spec fn statement_word() -> Seq<char> {
    seq!['s', 't', 'a', 't', 'e', 'm', 'e', 'n', 't']
}

/// The word "statement" occurs at position `k` of `s`, ignoring ASCII case.
pub open spec fn statement_at(s: Seq<char>, k: int) -> bool {
    forall|m: int| 0 <= m < 9 ==> matches_lower(s[k + m], #[trigger] statement_word()[m])
}

/// The name contains the word "statement", ignoring ASCII case.
pub open spec fn is_statement_name(s: Seq<char>) -> bool {
    exists|k: int| 0 <= k && k + 9 <= s.len() && statement_at(s, k)
}

fn char_matches_lower(c: char, l: char) -> (r: bool)
    requires
        97 <= l as u32 <= 122,
    ensures
        r == matches_lower(c, l),
{
    c == l || ascii_upper_char(l) == c
}

/// Does the name contain the word "statement", in any ASCII case?
pub fn contains_statement(s: &str) -> (r: bool)
    ensures
        r == is_statement_name(s@),
{
    let n = s.unicode_len();
    if n < 9 {
        return false;
    }
    let mut k: usize = 0;
    while k <= n - 9
        invariant
            0 <= k <= n - 9 + 1,
            n == s@.len(),
            9 <= n,
            forall|k0: int| 0 <= k0 < k ==> !statement_at(s@, k0),
        decreases n - k,
    {
        let hit = char_matches_lower(s.get_char(k), 's') && char_matches_lower(
            s.get_char(k + 1),
            't',
        ) && char_matches_lower(s.get_char(k + 2), 'a') && char_matches_lower(
            s.get_char(k + 3),
            't',
        ) && char_matches_lower(s.get_char(k + 4), 'e') && char_matches_lower(
            s.get_char(k + 5),
            'm',
        ) && char_matches_lower(s.get_char(k + 6), 'e') && char_matches_lower(
            s.get_char(k + 7),
            'n',
        ) && char_matches_lower(s.get_char(k + 8), 't');
        if hit {
            assert(statement_at(s@, k as int)) by {
                assert forall|m: int| 0 <= m < 9 implies matches_lower(
                    s@[k + m],
                    #[trigger] statement_word()[m],
                ) by {
                    if m == 0 {
                        assert(matches_lower(s@[k as int], 's'));
                    } else if m == 1 {
                        assert(matches_lower(s@[k + 1], 't'));
                    } else if m == 2 {
                        assert(matches_lower(s@[k + 2], 'a'));
                    } else if m == 3 {
                        assert(matches_lower(s@[k + 3], 't'));
                    } else if m == 4 {
                        assert(matches_lower(s@[k + 4], 'e'));
                    } else if m == 5 {
                        assert(matches_lower(s@[k + 5], 'm'));
                    } else if m == 6 {
                        assert(matches_lower(s@[k + 6], 'e'));
                    } else if m == 7 {
                        assert(matches_lower(s@[k + 7], 'n'));
                    } else {
                        assert(matches_lower(s@[k + 8], 't'));
                    }
                }
            }
            return true;
        }
        proof {
            assert(!statement_at(s@, k as int)) by {
                if statement_at(s@, k as int) {
                    assert(matches_lower(s@[k + 0], statement_word()[0]));
                    assert(matches_lower(s@[k + 1], statement_word()[1]));
                    assert(matches_lower(s@[k + 2], statement_word()[2]));
                    assert(matches_lower(s@[k + 3], statement_word()[3]));
                    assert(matches_lower(s@[k + 4], statement_word()[4]));
                    assert(matches_lower(s@[k + 5], statement_word()[5]));
                    assert(matches_lower(s@[k + 6], statement_word()[6]));
                    assert(matches_lower(s@[k + 7], statement_word()[7]));
                    assert(matches_lower(s@[k + 8], statement_word()[8]));
                }
            }
        }
        k = k + 1;
    }
    assert forall|k0: int| 0 <= k0 && k0 + 9 <= s@.len() implies !statement_at(s@, k0) by {
        assert(k0 < k);
    }
    false
}

} // verus!
