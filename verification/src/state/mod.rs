//! The state a page is rendered from.
pub mod growth;

use self::growth::{growth_defined, is_growth_state, GrowthState};
use crate::error::Error;
use crate::model::line::{line_keys, line_len};
use crate::model::map::SlugMap;
use crate::model::pokemon::{Pokemon, PokemonGrowth};
use crate::model::species::Species;
use crate::model::Source;
use vstd::prelude::*;

verus! {

/// The source, the species fetched for it by key, and the profile's post count.
#[derive(Clone)]
pub struct State {
    pub src: Source,
    pub species: SlugMap<Species>,
    pub post_count: u16,
}

/// `e` is why the growth stage of `pokemon` cannot be told: the species it
/// starts as was not fetched (`Error::UnknownEntry` with that species' key),
/// or its stage at the post count is not defined (`Error::GrowthOutOfBounds`
/// with the pokemon's key).
pub open spec fn growth_fails_with(state: State, pokemon: Pokemon, e: Error) -> bool {
    let key = pokemon.species.spec_from_key();
    if !state.species@.contains_key(key) {
        e matches Error::UnknownEntry(k) && k@ == key
    } else {
        !growth_defined(pokemon.growth, line_keys(state.species@[key].line).len(), state.post_count)
            && (e matches Error::GrowthOutOfBounds(k) && k@ == pokemon.key@)
    }
}

impl State {
    /// The growth stage of `pokemon` at the state's post count, judged by the
    /// species it starts as. Fails with `Error::UnknownEntry` when that
    /// species was not fetched, and with `Error::GrowthOutOfBounds` naming the
    /// pokemon where its stage is not defined.
    pub fn growth_state(&self, pokemon: &Pokemon) -> (r: Result<GrowthState, Error>)
        ensures
            match r {
                Ok(s) => self.species@.contains_key(pokemon.species.spec_from_key())
                    && growth_defined(
                    pokemon.growth,
                    line_keys(self.species@[pokemon.species.spec_from_key()].line).len(),
                    self.post_count,
                ) && is_growth_state(
                    s,
                    pokemon.growth,
                    line_keys(self.species@[pokemon.species.spec_from_key()].line),
                    self.species@[pokemon.species.spec_from_key()].key@,
                    self.post_count,
                ),
                Err(e) => growth_fails_with(*self, *pokemon, e),
            },
    {
        let species = match self.species.get(pokemon.species.from_key().as_str()) {
            Ok(species) => species,
            Err(e) => {
                return Err(e);
            },
        };
        let len = line_len(&species.line);
        let post_count = self.post_count;
        let defined = match pokemon.growth {
            PokemonGrowth::Grown(_) => true,
            PokemonGrowth::Bounds(b) => post_count >= b.start && len < 4 && (!(b.hatch
                <= post_count && post_count < b.grown) || len >= 1),
        };
        if !defined {
            return Err(Error::GrowthOutOfBounds(pokemon.key.clone()));
        }
        Ok(GrowthState::of(pokemon, species, post_count))
    }
}

} // verus!
