//! CSS units: colours and pixel offsets.
use crate::text::{append_decimal, decimal, Textual};
use crate::view::color::rgb_text;
use vstd::prelude::*;

verus! {

/// Writes a colour as a CSS `rgb(r, g, b)` value.
pub fn color(rgb: [u8; 3]) -> (s: String)
    ensures
        s@ == rgb_text(rgb),
{
    crate::view::color::color(rgb)
}

/// A length in CSS pixels, written `{n}px`.
#[derive(Clone, Copy, Debug)]
pub struct Px(pub u16);

impl Textual for Px {
    open spec fn text_view(&self) -> Seq<char> {
        decimal(self.0 as nat) + "px"@
    }

    fn append_to(&self, out: &mut String) {
        append_decimal(self.0 as u128, out);
        out.append("px");
        assert(out@ =~= old(out)@ + self.text_view());
    }
}

/// Turns two named offsets into two named pixel lengths, keeping names and order.
pub fn absolute(offsets: [(&'static str, u16); 2]) -> (r: [(&'static str, Px); 2])
    ensures
        r@[0].0 == offsets@[0].0,
        r@[0].1.0 == offsets@[0].1,
        r@[1].0 == offsets@[1].0,
        r@[1].1.0 == offsets@[1].1,
{
    let (a, av) = offsets[0];
    let (b, bv) = offsets[1];
    [(a, Px(av)), (b, Px(bv))]
}

} // verus!
