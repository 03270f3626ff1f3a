//! Reading the forum post count off a profile page.
use crate::error::{Error, IntErrorKind};
use crate::text::{decimal, digit_char};
use scraper::{Html, Selector};
use vstd::prelude::*;
use vstd::string::StrSliceExecFns;

verus! {

/// Whether `scraper` accepts the text as a CSS selector.
pub uninterp spec fn css_selector_valid(selector: Seq<char>) -> bool;

/// What `scraper` finds for a selector in an HTML document: `None` when no
/// element matches, else the first text node of the first matching element
/// (`None` when it has none).
pub uninterp spec fn selected_text(html: Seq<char>, selector: Seq<char>) -> Option<
    Option<Seq<char>>,
>;

/// A character of Unicode's `White_Space` property, the whitespace that
/// `str::trim` strips.
pub open spec fn is_white_space(c: char) -> bool {
    ||| '\u{9}' <= c <= '\u{d}'
    ||| c == ' '
    ||| c == '\u{85}'
    ||| c == '\u{a0}'
    ||| c == '\u{1680}'
    ||| '\u{2000}' <= c <= '\u{200a}'
    ||| c == '\u{2028}'
    ||| c == '\u{2029}'
    ||| c == '\u{202f}'
    ||| c == '\u{205f}'
    ||| c == '\u{3000}'
}

/// The text without its leading whitespace.
pub open spec fn trim_start(s: Seq<char>) -> Seq<char>
    decreases s.len(),
{
    if s.len() > 0 && is_white_space(s[0]) {
        trim_start(s.drop_first())
    } else {
        s
    }
}

/// The text without its trailing whitespace.
pub open spec fn trim_end(s: Seq<char>) -> Seq<char>
    decreases s.len(),
{
    if s.len() > 0 && is_white_space(s.last()) {
        trim_end(s.drop_last())
    } else {
        s
    }
}

/// The text without its leading and trailing whitespace.
pub open spec fn trimmed(s: Seq<char>) -> Seq<char> {
    trim_end(trim_start(s))
}

/// Calls `scraper::Selector::parse` and tells whether it succeeded.
#[verifier::external_body]
fn selector_parses(selector: &str) -> (ok: bool)
    ensures
        ok == css_selector_valid(selector@),
{
    Selector::parse(selector).is_ok()
}

/// Parses the document with `scraper::Html::parse_document`, the selector
/// with `Selector::parse`, and takes the first text node of the first
/// element that `Html::select` yields.
#[verifier::external_body]
fn select_first_text(html: &str, selector: &str) -> (found: Option<Option<String>>)
    requires
        css_selector_valid(selector@),
    ensures
        match found {
            None => selected_text(html@, selector@) is None,
            Some(None) => selected_text(html@, selector@) == Some(None::<Seq<char>>),
            Some(Some(t)) => selected_text(html@, selector@) == Some(Some(t@)),
        },
{
    let selector = Selector::parse(selector).ok()?;
    let document = Html::parse_document(html);
    let element = document.select(&selector).next()?;
    Some(element.text().next().map(|t| t.to_string()))
}

/// Calls `str::trim`, which its documentation says strips the leading and
/// trailing whitespace of the Unicode `White_Space` property.
#[verifier::external_body]
fn str_trim(s: &str) -> (t: &str)
    ensures
        t@ == trimmed(s@),
{
    s.trim()
}

/// The text without its commas.
pub open spec fn without_commas(s: Seq<char>) -> Seq<char>
    decreases s.len(),
{
    if s.len() == 0 {
        s
    } else if s.last() == ',' {
        without_commas(s.drop_last())
    } else {
        without_commas(s.drop_last()).push(s.last())
    }
}

/// The value of an ASCII digit character, or `None` for any other character.
pub open spec fn digit_of(c: char) -> Option<nat> {
    if '0' <= c <= '9' {
        Some((c as nat - '0' as nat) as nat)
    } else {
        None
    }
}

/// Reading the digits one after the other, most significant first: the
/// first character that is not a digit gives `InvalidDigit`, the first digit
/// that takes the value past `u16::MAX` gives `PosOverflow` (a character is
/// checked to be a digit before the value is), else the value.
pub open spec fn digits_outcome(d: Seq<char>) -> Result<u16, IntErrorKind>
    decreases d.len(),
{
    if d.len() == 0 {
        Ok(0)
    } else {
        match digits_outcome(d.drop_last()) {
            Err(kind) => Err(kind),
            Ok(v) => match digit_of(d.last()) {
                None => Err(IntErrorKind::InvalidDigit),
                Some(x) => if 10 * v + x > u16::MAX {
                    Err(IntErrorKind::PosOverflow)
                } else {
                    Ok((10 * v + x) as u16)
                },
            },
        }
    }
}

/// The digits of an unsigned number: the text after an optional leading `+`.
pub open spec fn unsigned_digits(s: Seq<char>) -> Seq<char> {
    if s.len() > 0 && s[0] == '+' {
        s.drop_first()
    } else {
        s
    }
}

/// What `u16::from_str` gives for the text: `Empty` for the empty text,
/// `InvalidDigit` for a lone sign, else the outcome of reading the digits
/// after an optional `+`.
pub open spec fn parse_u16_spec(s: Seq<char>) -> Result<u16, IntErrorKind> {
    if s.len() == 0 {
        Err(IntErrorKind::Empty)
    } else if s == seq!['+'] || s == seq!['-'] {
        Err(IntErrorKind::InvalidDigit)
    } else {
        digits_outcome(unsigned_digits(s))
    }
}

/// The post count a profile page shows: the first text of the first element
/// that the selector matches, trimmed, without commas, read as a `u16`.
pub open spec fn post_count_of(text: Seq<char>) -> Result<u16, IntErrorKind> {
    parse_u16_spec(without_commas(trimmed(text)))
}

/// `r` is what reading the post count off the page `html` with the selector
/// gives: an error for no match, for a match without text, and for text
/// that is not a count; otherwise the count.
pub open spec fn is_post_count_result(html: Seq<char>, selector: Seq<char>, r: Result<u16, Error>) -> bool {
    match selected_text(html, selector) {
        None => r matches Err(Error::NoSelectorMatch),
        Some(None) => r matches Err(Error::NoSelectorText),
        Some(Some(t)) => match post_count_of(t) {
            Ok(n) => r == Ok::<u16, Error>(n),
            Err(kind) => r == Err::<u16, Error>(Error::InvalidPostCount(kind)),
        },
    }
}

proof fn lemma_outcome_error_stays(d: Seq<char>, k: int)
    requires
        0 <= k <= d.len(),
        digits_outcome(d.take(k)) is Err,
    ensures
        digits_outcome(d) == digits_outcome(d.take(k)),
    decreases d.len(),
{
    if k == d.len() {
        assert(d.take(k) =~= d);
    } else {
        assert(d.drop_last().take(k) =~= d.take(k));
        lemma_outcome_error_stays(d.drop_last(), k);
    }
}

/// Reads a `u16` the way `u16::from_str` does, with its kind of error.
pub fn parse_u16(s: &str) -> (r: Result<u16, IntErrorKind>)
    ensures
        r == parse_u16_spec(s@),
{
    let len = s.unicode_len();
    if len == 0 {
        return Err(IntErrorKind::Empty);
    }
    let first = s.get_char(0);
    if len == 1 && (first == '+' || first == '-') {
        assert(s@ =~= seq![first]);
        return Err(IntErrorKind::InvalidDigit);
    }
    assert(!(s@ == seq!['+'] || s@ == seq!['-']));
    let mut start: usize = 0;
    if first == '+' {
        start = 1;
    }
    let ghost d = unsigned_digits(s@);
    assert(d =~= s@.subrange(start as int, len as int));
    let mut value: u32 = 0;
    let mut i: usize = start;
    while i < len
        invariant
            start <= i <= len,
            len == s@.len(),
            d == s@.subrange(start as int, len as int),
            d == unsigned_digits(s@),
            s@.len() > 0,
            !(s@ == seq!['+'] || s@ == seq!['-']),
            digits_outcome(d.take(i - start)) == Ok::<u16, IntErrorKind>(value as u16),
            value <= u16::MAX,
        decreases len - i,
    {
        let c = s.get_char(i);
        let ghost k = i - start;
        proof {
            assert(d[k] == c);
            assert(d.take(k + 1).drop_last() =~= d.take(k));
            assert(d.take(k + 1).last() == c);
        }
        if !('0' <= c && c <= '9') {
            proof {
                lemma_outcome_error_stays(d, k + 1);
            }
            return Err(IntErrorKind::InvalidDigit);
        }
        let digit = (c as u32) - ('0' as u32);
        value = value * 10 + digit;
        if value > 0xffff {
            proof {
                lemma_outcome_error_stays(d, k + 1);
            }
            return Err(IntErrorKind::PosOverflow);
        }
        i = i + 1;
    }
    assert(d.take(len - start) =~= d);
    Ok(value as u16)
}

/// The text without its commas.
pub fn remove_commas(s: &str) -> (r: String)
    ensures
        r@ == without_commas(s@),
{
    let len = s.unicode_len();
    let mut out = String::new();
    let mut i: usize = 0;
    while i < len
        invariant
            i <= len,
            len == s@.len(),
            out@ == without_commas(s@.take(i as int)),
        decreases len - i,
    {
        assert(s@.take(i + 1).drop_last() =~= s@.take(i as int));
        if s.get_char(i) != ',' {
            let piece = s.substring_char(i, i + 1);
            out.append(piece);
            assert(piece@ =~= seq![s@[i as int]]);
            assert(out@ =~= without_commas(s@.take(i + 1)));
        }
        i = i + 1;
    }
    assert(s@.take(len as int) =~= s@);
    out
}

/// Reads the post count off a profile page, given a selector that parses
/// (see `checked_post_count_from_page` for one that may not). Fails with
/// `Error::NoSelectorMatch` when no element matches, `Error::NoSelectorText`
/// when the first match has no text, and `Error::InvalidPostCount` with the
/// kind of parse error when the text is not a count.
pub fn post_count_from_page(html: &str, selector: &str) -> (r: Result<u16, Error>)
    requires
        css_selector_valid(selector@),
    ensures
        is_post_count_result(html@, selector@, r),
{
    let text = match select_first_text(html, selector) {
        None => {
            return Err(Error::NoSelectorMatch);
        },
        Some(None) => {
            return Err(Error::NoSelectorText);
        },
        Some(Some(t)) => t,
    };
    let cleaned = remove_commas(str_trim(text.as_str()));
    match parse_u16(cleaned.as_str()) {
        Ok(n) => Ok(n),
        Err(kind) => Err(Error::InvalidPostCount(kind)),
    }
}

/// Reads the post count off a profile page when the selector parses, and
/// gives `None` when it does not.
pub fn checked_post_count_from_page(html: &str, selector: &str) -> (r: Option<Result<u16, Error>>)
    ensures
        r is None <==> !css_selector_valid(selector@),
        match r {
            Some(found) => is_post_count_result(html@, selector@, found),
            None => true,
        },
{
    if selector_parses(selector) {
        Some(post_count_from_page(html, selector))
    } else {
        None
    }
}

proof fn lemma_decimal_outcome(n: nat)
    requires
        n <= u16::MAX,
    ensures
        decimal(n).len() > 0,
        '0' <= decimal(n)[0] <= '9',
        digits_outcome(decimal(n)) == Ok::<u16, IntErrorKind>(n as u16),
        without_commas(decimal(n)) == decimal(n),
    decreases n,
{
    let d = n % 10;
    let s = decimal(n);
    assert('0' <= digit_char(d as int) <= '9');
    assert(digit_of(digit_char(d as int)) == Some(d));
    assert(s.last() == digit_char(d as int));
    assert(s.drop_last().push(s.last()) =~= s);
    if n >= 10 {
        lemma_decimal_outcome(n / 10);
        assert(s.drop_last() =~= decimal(n / 10));
        assert(s[0] == decimal(n / 10)[0]);
        assert(10 * (n / 10) + d == n);
        assert(digits_outcome(s.drop_last()) == Ok::<u16, IntErrorKind>((n / 10) as u16));
    } else {
        assert(s.drop_last() =~= Seq::<char>::empty());
        assert(digits_outcome(s.drop_last()) == Ok::<u16, IntErrorKind>(0));
        assert(without_commas(s.drop_last()) == s.drop_last());
    }
}

/// A count written out in decimal by this library reads back as the same
/// count, and has no commas for the reading to drop.
pub proof fn lemma_decimal_count_round_trip(n: u16)
    ensures
        parse_u16_spec(decimal(n as nat)) == Ok::<u16, IntErrorKind>(n),
        without_commas(decimal(n as nat)) == decimal(n as nat),
{
    lemma_decimal_outcome(n as nat);
    assert(decimal(n as nat)[0] != '+');
    assert(decimal(n as nat)[0] != '-');
}

} // verus!
