//! Addresses of the images that a rendered page refers to.
use vstd::prelude::*;

verus! {

/// Where all assets are served from.
pub const BASE: &'static str = "https://raw.githubusercontent.com/tipsypastels/vppmake/refs/heads/rewrite/assets/";

/// The address of the asset at `path` below the base.
pub open spec fn asset_url(path: Seq<char>) -> Seq<char> {
    BASE@ + path
}

/// The concatenation of the pieces' texts.
pub open spec fn concat_pieces(pieces: Seq<&str>) -> Seq<char>
    decreases pieces.len(),
{
    if pieces.len() == 0 {
        Seq::empty()
    } else {
        concat_pieces(pieces.drop_last()) + pieces.last()@
    }
}

/// A path below the asset base, given whole or in pieces.
pub trait AsAssetPath {
    /// The path's text.
    spec fn path_view(&self) -> Seq<char>;

    /// Appends the path to `base`.
    fn append_to(self, base: String) -> (s: String)
        ensures
            s@ == base@ + self.path_view(),
    ;
}

impl<'a> AsAssetPath for &'a str {
    open spec fn path_view(&self) -> Seq<char> {
        (*self)@
    }

    fn append_to(self, base: String) -> (s: String) {
        let mut base = base;
        base.append(self);
        base
    }
}

impl<'a, const N: usize> AsAssetPath for [&'a str; N] {
    open spec fn path_view(&self) -> Seq<char> {
        concat_pieces(self@)
    }

    fn append_to(self, base: String) -> (s: String) {
        let mut out = base;
        let mut i: usize = 0;
        while i < N
            invariant
                i <= N,
                N == self@.len(),
                out@ == base@ + concat_pieces(self@.take(i as int)),
            decreases N - i,
        {
            out.append(self[i]);
            assert(self@.take(i + 1).drop_last() =~= self@.take(i as int));
            assert(out@ =~= base@ + concat_pieces(self@.take(i + 1)));
            i = i + 1;
        }
        assert(self@.take(N as int) =~= self@);
        out
    }
}

/// The address of the egg sprite.
pub fn egg_asset() -> (s: String)
    ensures
        s@ == asset_url("pokemon/egg.png"@),
{
    asset("pokemon/egg.png")
}

/// The address of the sprite of pokemon `key` as species `species_key`:
/// `pokemon/{key}-{species_key}.png`.
pub fn pokemon_asset(key: &str, species_key: &str) -> (s: String)
    ensures
        s@ == asset_url("pokemon/"@ + key@ + "-"@ + species_key@ + ".png"@),
{
    let s = asset(["pokemon/", key, "-", species_key, ".png"]);
    assert(concat_pieces(seq!["pokemon/", key, "-", species_key, ".png"]) =~= "pokemon/"@ + key@
        + "-"@ + species_key@ + ".png"@) by {
        reveal_with_fuel(concat_pieces, 6);
    }
    s
}

/// The address of the background of room `room_key`: `rooms/{room_key}.png`.
pub fn room_asset(room_key: &str) -> (s: String)
    ensures
        s@ == asset_url("rooms/"@ + room_key@ + ".png"@),
{
    let s = asset(["rooms/", room_key, ".png"]);
    assert(concat_pieces(seq!["rooms/", room_key, ".png"]) =~= "rooms/"@ + room_key@
        + ".png"@) by {
        reveal_with_fuel(concat_pieces, 4);
    }
    s
}

/// The address of the icon of type `type_key`: `types/icons/{type_key}.svg`.
pub fn type_icon_asset(type_key: &str) -> (s: String)
    ensures
        s@ == asset_url("types/icons/"@ + type_key@ + ".svg"@),
{
    let s = asset(["types/icons/", type_key, ".svg"]);
    assert(concat_pieces(seq!["types/icons/", type_key, ".svg"]) =~= "types/icons/"@ + type_key@
        + ".svg"@) by {
        reveal_with_fuel(concat_pieces, 4);
    }
    s
}

fn asset<P: AsAssetPath>(path: P) -> (s: String)
    ensures
        s@ == asset_url(path.path_view()),
{
    path.append_to(String::from_str(BASE))
}

} // verus!
