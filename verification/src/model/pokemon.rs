//! A pokemon of the page's owner and how it grows.
use vstd::prelude::*;

verus! {

/// One pokemon: its key, display name, species, growth plan, shininess and points.
#[derive(Clone, Debug)]
pub struct Pokemon {
    pub key: String,
    pub name: String,
    pub species: PokemonSpecies,
    pub growth: PokemonGrowth,
    pub shiny: bool,
    pub points: u16,
}

/// Which species a pokemon is: exactly one, or an evolution line starting at
/// `from` and, on a branching line, heading for `to`.
#[derive(Clone, Debug)]
pub enum PokemonSpecies {
    Exact { species: String },
    Line { from: String, to: Option<String> },
}

impl PokemonSpecies {
    /// The key of the species the pokemon starts as.
    pub open spec fn spec_from_key(&self) -> Seq<char> {
        match self {
            PokemonSpecies::Exact { species } => species@,
            PokemonSpecies::Line { from, .. } => from@,
        }
    }

    /// The key of the species the pokemon is headed for, where one is named.
    pub open spec fn spec_to_key(&self) -> Option<Seq<char>> {
        match self {
            PokemonSpecies::Exact { .. } => None,
            PokemonSpecies::Line { to, .. } => match to {
                Some(t) => Some(t@),
                None => None,
            },
        }
    }

    /// The key of the species the pokemon starts as.
    pub fn from_key(&self) -> (k: &String)
        ensures
            k@ == self.spec_from_key(),
    {
        match self {
            PokemonSpecies::Exact { species } => species,
            PokemonSpecies::Line { from, .. } => from,
        }
    }

    /// The key of the species the pokemon is headed for, where one is named.
    pub fn to_key(&self) -> (k: Option<&String>)
        ensures
            match k {
                Some(t) => self.spec_to_key() == Some(t@),
                None => self.spec_to_key() is None,
            },
    {
        match self {
            PokemonSpecies::Exact { .. } => None,
            PokemonSpecies::Line { to, .. } => match to {
                Some(t) => Some(t),
                None => None,
            },
        }
    }
}

/// How a pokemon grows: it is grown from the start, or it hatches and grows
/// at given post counts.
#[derive(Clone, Copy, Debug, PartialEq, Eq)]
pub enum PokemonGrowth {
    Grown(PokemonGrowthGrown),
    Bounds(PokemonGrowthBounds),
}

/// The marker of a pokemon that is grown from the start.
#[derive(Clone, Copy, Debug, PartialEq, Eq)]
pub enum PokemonGrowthGrown {
    Grown,
}

/// The post counts at which a pokemon was obtained, hatches, and is fully grown.
#[derive(Clone, Copy, Debug, PartialEq, Eq)]
pub struct PokemonGrowthBounds {
    pub start: u16,
    pub hatch: u16,
    pub grown: u16,
}

} // verus!
