//! CSS colour values.
use crate::text::{append_decimal, decimal};
use vstd::prelude::*;

verus! {

/// The CSS text of a colour: `rgb(r, g, b)`.
pub open spec fn rgb_text(color: [u8; 3]) -> Seq<char> {
    "rgb("@ + decimal(color@[0] as nat) + ", "@ + decimal(color@[1] as nat) + ", "@ + decimal(
        color@[2] as nat,
    ) + ")"@
}

/// Writes a colour as a CSS `rgb(r, g, b)` value.
pub fn color(rgb: [u8; 3]) -> (s: String)
    ensures
        s@ == rgb_text(rgb),
{
    let mut s = String::new();
    s.append("rgb(");
    append_decimal(rgb[0] as u128, &mut s);
    s.append(", ");
    append_decimal(rgb[1] as u128, &mut s);
    s.append(", ");
    append_decimal(rgb[2] as u128, &mut s);
    s.append(")");
    assert(s@ =~= rgb_text(rgb));
    s
}

} // verus!
