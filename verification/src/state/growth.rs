//! How far a pokemon has grown at a given post count.
use crate::model::line::{line_get, line_keys, line_len};
use crate::model::pokemon::{Pokemon, PokemonGrowth, PokemonGrowthBounds};
use crate::model::species::Species;
use vstd::prelude::*;

verus! {

/// The growth stage of a pokemon: an egg until it hatches, then growing
/// (shown as some species of its line), then fully grown.
#[derive(Debug)]
pub enum GrowthState {
    Egg { hatch_at_posts: u16 },
    Growing { species: String, grown_at_posts: u16 },
    Grown { species: String },
}

/// The species a fully grown pokemon is shown as: the last of its line, or
/// its own species when the line is empty.
pub open spec fn grown_species(line: Seq<Seq<char>>, key: Seq<char>) -> Seq<char> {
    if line.len() > 0 {
        line.last()
    } else {
        key
    }
}

/// Which species of the line a growing pokemon is shown as. On a line of
/// three it moves on to the second species once it has come at least half
/// way from hatching to being grown.
pub open spec fn growing_index(b: PokemonGrowthBounds, post_count: u16, line_len: nat) -> int {
    if line_len < 3 {
        0
    } else if 2 * (post_count - b.hatch) >= b.grown - b.hatch {
        1
    } else {
        0
    }
}

/// The inputs on which the growth stage is defined: the post count has
/// reached the start, the line has at most three species, and a growing
/// pokemon has a species to be shown as.
pub open spec fn growth_defined(growth: PokemonGrowth, line_len: nat, post_count: u16) -> bool {
    match growth {
        PokemonGrowth::Grown(_) => true,
        PokemonGrowth::Bounds(b) => {
            &&& post_count >= b.start
            &&& line_len < 4
            &&& (b.hatch <= post_count < b.grown ==> line_len >= 1)
        },
    }
}

/// `s` is the growth stage of a pokemon with plan `growth`, whose species has
/// key `key` and line `line`, at `post_count` posts.
pub open spec fn is_growth_state(
    s: GrowthState,
    growth: PokemonGrowth,
    line: Seq<Seq<char>>,
    key: Seq<char>,
    post_count: u16,
) -> bool {
    match growth {
        PokemonGrowth::Grown(_) => s matches GrowthState::Grown { species } && species@
            == grown_species(line, key),
        PokemonGrowth::Bounds(b) => if post_count >= b.grown {
            s matches GrowthState::Grown { species } && species@ == grown_species(line, key)
        } else if post_count < b.hatch {
            s matches GrowthState::Egg { hatch_at_posts } && hatch_at_posts == b.hatch
        } else {
            s matches GrowthState::Growing { species, grown_at_posts } && grown_at_posts
                == b.grown && species@ == line[growing_index(b, post_count, line.len())]
        },
    }
}

/// The key of the species a pokemon is shown as at `post_count` posts, or
/// `None` while it is an egg.
pub open spec fn growth_species(
    growth: PokemonGrowth,
    line: Seq<Seq<char>>,
    key: Seq<char>,
    post_count: u16,
) -> Option<Seq<char>> {
    match growth {
        PokemonGrowth::Grown(_) => Some(grown_species(line, key)),
        PokemonGrowth::Bounds(b) => if post_count >= b.grown {
            Some(grown_species(line, key))
        } else if post_count < b.hatch {
            None
        } else {
            Some(line[growing_index(b, post_count, line.len())])
        },
    }
}

/// The species key of a growth stage: `None` for an egg.
pub open spec fn stage_species(s: GrowthState) -> Option<Seq<char>> {
    match s {
        GrowthState::Egg { .. } => None,
        GrowthState::Growing { species, .. } => Some(species@),
        GrowthState::Grown { species } => Some(species@),
    }
}

/// 0 for an egg, 1 while growing, 2 when grown.
pub open spec fn stage_rank(s: GrowthState) -> int {
    match s {
        GrowthState::Egg { .. } => 0,
        GrowthState::Growing { .. } => 1,
        GrowthState::Grown { .. } => 2,
    }
}

impl GrowthState {
    /// The growth stage of `pokemon`, whose species is `species`, at
    /// `post_count` posts.
    pub fn of(pokemon: &Pokemon, species: &Species, post_count: u16) -> (s: Self)
        requires
            growth_defined(pokemon.growth, line_keys(species.line).len(), post_count),
        ensures
            is_growth_state(
                s,
                pokemon.growth,
                line_keys(species.line),
                species.key@,
                post_count,
            ),
    {
        let bounds = match pokemon.growth {
            PokemonGrowth::Bounds(bounds) => bounds,
            PokemonGrowth::Grown(_) => {
                return Self::grown(species);
            },
        };
        let len = line_len(&species.line);
        if post_count >= bounds.grown {
            return Self::grown(species);
        }
        if post_count < bounds.hatch {
            return GrowthState::Egg { hatch_at_posts: bounds.hatch };
        }
        if len < 3 {
            return GrowthState::Growing {
                species: line_get(&species.line, 0).clone(),
                grown_at_posts: bounds.grown,
            };
        }
        let distance = bounds.grown - bounds.hatch;
        let progress = post_count - bounds.hatch;
        let index: usize = if progress as u32 * 2 >= distance as u32 {
            1
        } else {
            0
        };
        GrowthState::Growing {
            species: line_get(&species.line, index).clone(),
            grown_at_posts: bounds.grown,
        }
    }

    fn grown(species: &Species) -> (s: Self)
        ensures
            s matches GrowthState::Grown { species: k } && k@ == grown_species(
                line_keys(species.line),
                species.key@,
            ),
    {
        let len = line_len(&species.line);
        if len > 0 {
            GrowthState::Grown { species: line_get(&species.line, len - 1).clone() }
        } else {
            GrowthState::Grown { species: species.key.clone() }
        }
    }

    /// The species the pokemon is shown as, or `None` for an egg.
    pub fn species_key(&self) -> (k: Option<&String>)
        ensures
            match self {
                GrowthState::Egg { .. } => k is None,
                GrowthState::Growing { species, .. } => k == Some(species),
                GrowthState::Grown { species } => k == Some(species),
            },
    {
        match self {
            GrowthState::Egg { .. } => None,
            GrowthState::Growing { species, .. } => Some(species),
            GrowthState::Grown { species } => Some(species),
        }
    }
}

/// The stage that `GrowthState::of` gives shows the species `growth_species` names.
pub proof fn lemma_stage_species(
    s: GrowthState,
    growth: PokemonGrowth,
    line: Seq<Seq<char>>,
    key: Seq<char>,
    post_count: u16,
)
    requires
        is_growth_state(s, growth, line, key, post_count),
    ensures
        stage_species(s) == growth_species(growth, line, key, post_count),
{
}

/// A pokemon never grows backwards: at a higher post count its stage is at
/// least as far along, and while growing it is shown as a species at least
/// as far along its line.
pub proof fn lemma_growth_monotonic(
    growth: PokemonGrowth,
    line: Seq<Seq<char>>,
    key: Seq<char>,
    p1: u16,
    p2: u16,
    s1: GrowthState,
    s2: GrowthState,
)
    requires
        p1 <= p2,
        is_growth_state(s1, growth, line, key, p1),
        is_growth_state(s2, growth, line, key, p2),
    ensures
        stage_rank(s1) <= stage_rank(s2),
        growth matches PokemonGrowth::Bounds(b) ==> (s1 is Growing && s2 is Growing
            ==> growing_index(b, p1, line.len()) <= growing_index(b, p2, line.len())),
{
}

/// The species a pokemon is shown as always belongs to its species' line,
/// or is the species itself when the line is empty.
pub proof fn lemma_growth_species_in_line(
    growth: PokemonGrowth,
    line: Seq<Seq<char>>,
    key: Seq<char>,
    post_count: u16,
    s: GrowthState,
)
    requires
        growth_defined(growth, line.len(), post_count),
        is_growth_state(s, growth, line, key, post_count),
    ensures
        s matches GrowthState::Growing { species, .. } ==> line.contains(species@),
        s matches GrowthState::Grown { species } ==> (line.contains(species@) || (line.len()
            == 0 && species@ == key)),
{
    match s {
        GrowthState::Growing { species, .. } => {
            if let PokemonGrowth::Bounds(b) = growth {
                let i = growing_index(b, post_count, line.len());
                assert(line[i] == species@);
            }
        },
        GrowthState::Grown { species } => {
            if line.len() > 0 {
                assert(line[line.len() - 1] == species@);
            }
        },
        _ => {},
    }
}

/// A pokemon is fully grown exactly when it was grown from the start or the
/// post count has reached its grown bound; it is an egg exactly when the
/// post count is below its hatch bound.
pub proof fn lemma_growth_stage_bounds(
    growth: PokemonGrowth,
    line: Seq<Seq<char>>,
    key: Seq<char>,
    post_count: u16,
    s: GrowthState,
)
    requires
        is_growth_state(s, growth, line, key, post_count),
    ensures
        (s is Grown) <==> (growth is Grown || (growth matches PokemonGrowth::Bounds(b)
            && post_count >= b.grown)),
        (s is Egg) <==> (growth matches PokemonGrowth::Bounds(b) && post_count < b.hatch
            && post_count < b.grown),
{
}

} // verus!
