//! Text fragments: values that can be written into markup, and the
//! decimal rendering of numbers.
use vstd::prelude::*;

verus! {

/// A value that can be written as text into a markup buffer.
pub trait Textual {
    /// The characters this value is written as.
    spec fn text_view(&self) -> Seq<char>;

    /// Appends this value's text to `out`.
    fn append_to(&self, out: &mut String)
        ensures
            final(out)@ == old(out)@ + self.text_view(),
    ;
}

impl<'a> Textual for &'a str {
    open spec fn text_view(&self) -> Seq<char> {
        (*self)@
    }

    fn append_to(&self, out: &mut String) {
        out.append(*self);
    }
}

impl Textual for String {
    open spec fn text_view(&self) -> Seq<char> {
        self@
    }

    fn append_to(&self, out: &mut String) {
        out.append(self.as_str());
    }
}

impl<'a, T: Textual> Textual for &'a T {
    open spec fn text_view(&self) -> Seq<char> {
        (**self).text_view()
    }

    fn append_to(&self, out: &mut String) {
        (**self).append_to(out);
    }
}

impl Textual for u8 {
    open spec fn text_view(&self) -> Seq<char> {
        decimal(*self as nat)
    }

    fn append_to(&self, out: &mut String) {
        append_decimal(*self as u128, out);
    }
}

impl Textual for u16 {
    open spec fn text_view(&self) -> Seq<char> {
        decimal(*self as nat)
    }

    fn append_to(&self, out: &mut String) {
        append_decimal(*self as u128, out);
    }
}

impl Textual for u32 {
    open spec fn text_view(&self) -> Seq<char> {
        decimal(*self as nat)
    }

    fn append_to(&self, out: &mut String) {
        append_decimal(*self as u128, out);
    }
}

impl Textual for u64 {
    open spec fn text_view(&self) -> Seq<char> {
        decimal(*self as nat)
    }

    fn append_to(&self, out: &mut String) {
        append_decimal(*self as u128, out);
    }
}

impl Textual for u128 {
    open spec fn text_view(&self) -> Seq<char> {
        decimal(*self as nat)
    }

    fn append_to(&self, out: &mut String) {
        append_decimal(*self as u128, out);
    }
}

impl Textual for usize {
    open spec fn text_view(&self) -> Seq<char> {
        decimal(*self as nat)
    }

    fn append_to(&self, out: &mut String) {
        append_decimal(*self as u128, out);
    }
}

impl Textual for i8 {
    open spec fn text_view(&self) -> Seq<char> {
        signed_decimal(*self as int)
    }

    fn append_to(&self, out: &mut String) {
        append_signed_decimal(*self as i128, out);
    }
}

impl Textual for i16 {
    open spec fn text_view(&self) -> Seq<char> {
        signed_decimal(*self as int)
    }

    fn append_to(&self, out: &mut String) {
        append_signed_decimal(*self as i128, out);
    }
}

impl Textual for i32 {
    open spec fn text_view(&self) -> Seq<char> {
        signed_decimal(*self as int)
    }

    fn append_to(&self, out: &mut String) {
        append_signed_decimal(*self as i128, out);
    }
}

impl Textual for i64 {
    open spec fn text_view(&self) -> Seq<char> {
        signed_decimal(*self as int)
    }

    fn append_to(&self, out: &mut String) {
        append_signed_decimal(*self as i128, out);
    }
}

impl Textual for i128 {
    open spec fn text_view(&self) -> Seq<char> {
        signed_decimal(*self as int)
    }

    fn append_to(&self, out: &mut String) {
        append_signed_decimal(*self as i128, out);
    }
}

impl Textual for isize {
    open spec fn text_view(&self) -> Seq<char> {
        signed_decimal(*self as int)
    }

    fn append_to(&self, out: &mut String) {
        append_signed_decimal(*self as i128, out);
    }
}

impl Textual for char {
    open spec fn text_view(&self) -> Seq<char> {
        seq![*self]
    }

    fn append_to(&self, out: &mut String) {
        push_char(out, *self);
    }
}

/// `String::push` of std, which appends one character to the string.
#[verifier::external_body]
fn push_char(out: &mut String, c: char)
    ensures
        final(out)@ == old(out)@.push(c),
{
    out.push(c);
}

/// The ASCII digit for `d`, which is meant to be below ten.
pub open spec fn digit_char(d: int) -> char {
    if d == 0 {
        '0'
    } else if d == 1 {
        '1'
    } else if d == 2 {
        '2'
    } else if d == 3 {
        '3'
    } else if d == 4 {
        '4'
    } else if d == 5 {
        '5'
    } else if d == 6 {
        '6'
    } else if d == 7 {
        '7'
    } else if d == 8 {
        '8'
    } else {
        '9'
    }
}

/// The value of an ASCII digit character, or `None` for any other character.
pub open spec fn digit_value(c: char) -> Option<nat> {
    if '0' <= c <= '9' {
        Some((c as nat - '0' as nat) as nat)
    } else {
        None
    }
}

/// The shortest decimal representation of `n`, without sign or separators.
pub open spec fn decimal(n: nat) -> Seq<char>
    decreases n,
{
    if n < 10 {
        seq![digit_char(n as int)]
    } else {
        decimal(n / 10) + seq![digit_char((n % 10) as int)]
    }
}

/// The decimal representation of `i`: a minus sign before the digits of its
/// magnitude when it is negative.
pub open spec fn signed_decimal(i: int) -> Seq<char> {
    if i < 0 {
        "-"@ + decimal((-i) as nat)
    } else {
        decimal(i as nat)
    }
}

fn digit_str(d: u128) -> (s: &'static str)
    requires
        d < 10,
    ensures
        s@ == seq![digit_char(d as int)],
{
    if d == 0 {
        proof { reveal_strlit("0"); }
        "0"
    } else if d == 1 {
        proof { reveal_strlit("1"); }
        "1"
    } else if d == 2 {
        proof { reveal_strlit("2"); }
        "2"
    } else if d == 3 {
        proof { reveal_strlit("3"); }
        "3"
    } else if d == 4 {
        proof { reveal_strlit("4"); }
        "4"
    } else if d == 5 {
        proof { reveal_strlit("5"); }
        "5"
    } else if d == 6 {
        proof { reveal_strlit("6"); }
        "6"
    } else if d == 7 {
        proof { reveal_strlit("7"); }
        "7"
    } else if d == 8 {
        proof { reveal_strlit("8"); }
        "8"
    } else {
        proof { reveal_strlit("9"); }
        "9"
    }
}

/// Appends the decimal representation of `n` to `out`.
pub fn append_decimal(n: u128, out: &mut String)
    ensures
        final(out)@ == old(out)@ + decimal(n as nat),
    decreases n,
{
    if n >= 10 {
        append_decimal(n / 10, out);
        out.append(digit_str(n % 10));
        assert(out@ =~= old(out)@ + decimal(n as nat));
    } else {
        out.append(digit_str(n));
        assert(out@ =~= old(out)@ + decimal(n as nat));
    }
}

/// Appends the signed decimal representation of `n` to `out`.
pub fn append_signed_decimal(n: i128, out: &mut String)
    ensures
        final(out)@ == old(out)@ + signed_decimal(n as int),
{
    if n < 0 {
        proof {
            reveal_strlit("-");
        }
        out.append("-");
        let magnitude: u128 = (-(n + 1)) as u128 + 1;
        append_decimal(magnitude, out);
        assert(out@ =~= old(out)@ + signed_decimal(n as int));
    } else {
        append_decimal(n as u128, out);
    }
}

/// The text of a value as a fresh `String`.
pub fn to_text<T: Textual>(value: &T) -> (s: String)
    ensures
        s@ == value.text_view(),
{
    let mut s = String::new();
    value.append_to(&mut s);
    assert(s@ =~= value.text_view());
    s
}

} // verus!
