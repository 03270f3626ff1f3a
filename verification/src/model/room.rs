//! Rooms: backgrounds with pokemon placed on them.
use super::map::SlugMap;
use vstd::prelude::*;

verus! {

/// A room: key, display name, and the pokemon placed in it by placement key.
#[derive(Clone)]
pub struct Room {
    pub key: String,
    pub name: String,
    pub pokemon: SlugMap<RoomMember>,
}

/// A pokemon placed in a room: which one, whether it is mirrored, and where.
#[derive(Clone, Debug)]
pub struct RoomMember {
    pub key: String,
    pub flipped: bool,
    pub position: RoomMemberPosition,
}

/// Where a pokemon sits in a room, as offsets from two edges.
#[derive(Clone, Copy, Debug, PartialEq, Eq)]
pub enum RoomMemberPosition {
    TopLeft { top: u16, left: u16 },
    TopRight { top: u16, right: u16 },
    BottomLeft { bottom: u16, left: u16 },
    BottomRight { bottom: u16, right: u16 },
}

/// The two edges of a position with their offsets, vertical edge first.
pub open spec fn position_pairs(p: RoomMemberPosition) -> Seq<(Seq<char>, u16)> {
    match p {
        RoomMemberPosition::TopLeft { top, left } => seq![("top"@, top), ("left"@, left)],
        RoomMemberPosition::TopRight { top, right } => seq![("top"@, top), ("right"@, right)],
        RoomMemberPosition::BottomLeft { bottom, left } => seq![
            ("bottom"@, bottom),
            ("left"@, left),
        ],
        RoomMemberPosition::BottomRight { bottom, right } => seq![
            ("bottom"@, bottom),
            ("right"@, right),
        ],
    }
}

/// The pairs of an array of named offsets, each name taken by its text.
pub open spec fn pairs_view(a: [(&'static str, u16); 2]) -> Seq<(Seq<char>, u16)> {
    seq![(a@[0].0@, a@[0].1), (a@[1].0@, a@[1].1)]
}

impl RoomMemberPosition {
    /// The position as two (edge, offset) pairs, vertical edge first.
    pub fn unpack(self) -> (r: [(&'static str, u16); 2])
        ensures
            pairs_view(r) == position_pairs(self),
    {
        match self {
            RoomMemberPosition::TopLeft { top, left } => [("top", top), ("left", left)],
            RoomMemberPosition::TopRight { top, right } => [("top", top), ("right", right)],
            RoomMemberPosition::BottomLeft { bottom, left } => [("bottom", bottom), ("left", left)],
            RoomMemberPosition::BottomRight { bottom, right } => [
                ("bottom", bottom),
                ("right", right),
            ],
        }
    }
}

} // verus!
