//! The data model read from the source file.
pub mod line;
pub mod map;
pub mod pokemon;
pub mod profile;
pub mod room;
pub mod species;
pub mod types;

use self::map::SlugMap;
use self::pokemon::Pokemon;
use self::profile::Profile;
use self::room::Room;
use self::types::Type;
use vstd::prelude::*;

verus! {

/// Everything the source file describes: the forum profile, the known
/// types, the pokemon, and the rooms.
#[derive(Clone)]
pub struct Source {
    pub profile: Profile,
    pub types: SlugMap<Type>,
    pub pokemon: SlugMap<Pokemon>,
    pub rooms: SlugMap<Room>,
}

} // verus!
