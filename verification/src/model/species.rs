//! Species as fetched from the pokemon database.
use super::line::SpeciesLine;
use super::types::Types;
use vstd::prelude::*;

verus! {

/// A species: key, English name, types, and the evolution line it heads.
#[derive(Clone, Debug)]
pub struct Species {
    pub key: String,
    pub name: String,
    pub types: Types,
    pub line: SpeciesLine,
}

} // verus!
