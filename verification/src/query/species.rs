//! The decisions of fetching species from the pokemon database: which
//! types and which name a species gets, which species make up a pokemon's
//! line, and how fetched lines are gathered by key.
use crate::error::Error;
use crate::model::line::{line_get, line_items, line_keys, line_len, line_new, line_push, SpeciesLine};
use crate::model::map::SlugMap;
use crate::query::evolution::{chain_depth, follow_evo_chain, follows_chain, EvolutionLink};
use crate::model::species::Species;
use crate::model::types::{Type, Types};
use crate::model::pokemon::PokemonSpecies;
use vstd::prelude::*;

verus! {

/// A name of a species or form in one language.
#[derive(Clone, Debug)]
pub struct LocalizedName {
    pub language: String,
    pub name: String,
}

/// The first English name in the list, if there is one.
pub open spec fn first_english(names: Seq<LocalizedName>) -> Option<Seq<char>>
    decreases names.len(),
{
    if names.len() == 0 {
        None
    } else {
        match first_english(names.drop_last()) {
            Some(n) => Some(n),
            None => if names.last().language@ == "en"@ {
                Some(names.last().name@)
            } else {
                None
            },
        }
    }
}

/// The first English name among `names`.
pub fn find_english(names: &Vec<LocalizedName>) -> (r: Option<String>)
    ensures
        match r {
            Some(n) => first_english(names@) == Some(n@),
            None => first_english(names@) is None,
        },
{
    let en = String::from_str("en");
    proof { reveal_strlit("en"); }
    let mut i: usize = 0;
    while i < names.len()
        invariant
            i <= names@.len(),
            en@ == "en"@,
            first_english(names@.take(i as int)) is None,
        decreases names@.len() - i,
    {
        assert(names@.take(i + 1).drop_last() =~= names@.take(i as int));
        if names[i].language == en {
            proof {
                lemma_first_english_prefix(names@, i + 1);
            }
            return Some(names[i].name.clone());
        }
        i = i + 1;
    }
    assert(names@.take(names@.len() as int) =~= names@);
    None
}

proof fn lemma_first_english_prefix(names: Seq<LocalizedName>, j: int)
    requires
        0 <= j <= names.len(),
        first_english(names.take(j)) is Some,
    ensures
        first_english(names) == first_english(names.take(j)),
    decreases names.len(),
{
    if j < names.len() {
        assert(names.drop_last().take(j) =~= names.take(j));
        lemma_first_english_prefix(names.drop_last(), j);
    } else {
        assert(names.take(j) =~= names);
    }
}

/// The English name of a pokemon: that of its first form when the form has
/// one, else that of its species. Fails with `Error::UnknownPokemonName`
/// naming the pokemon when neither has one.
pub fn english_name(
    form_names: Option<&Vec<LocalizedName>>,
    species_names: &Vec<LocalizedName>,
    pokemon_name: &str,
) -> (r: Result<String, Error>)
    ensures
        match r {
            Ok(n) => match form_names {
                Some(f) if first_english(f@) is Some => first_english(f@) == Some(n@),
                _ => first_english(species_names@) == Some(n@),
            },
            Err(e) => (e matches Error::UnknownPokemonName(p) && p@ == pokemon_name@) && first_english(
                species_names@,
            ) is None && match form_names {
                Some(f) => first_english(f@) is None,
                None => true,
            },
        },
{
    if let Some(form) = form_names {
        if let Some(name) = find_english(form) {
            return Ok(name);
        }
    }
    match find_english(species_names) {
        Some(name) => Ok(name),
        None => Err(Error::UnknownPokemonName(String::from_str(pokemon_name))),
    }
}

/// The types of a species from the names the database lists for it, looked
/// up among the known types in order. Fails with `Error::NoTypes` when none
/// is listed, with `Error::InvalidType` naming the first of the first two
/// names that is not known, and with `Error::TooManyTypes` when more than
/// two are listed.
pub fn fetch_types(types: &SlugMap<Type>, names: &Vec<String>) -> (r: Result<Types, Error>)
    ensures
        names@.len() == 0 ==> r matches Err(Error::NoTypes),
        names@.len() > 0 && !types@.contains_key(names@[0]@) ==> (r matches Err(
            Error::InvalidType(n),
        ) && n@ == names@[0]@),
        names@.len() > 1 && types@.contains_key(names@[0]@) && !types@.contains_key(names@[1]@)
            ==> (r matches Err(Error::InvalidType(n)) && n@ == names@[1]@),
        names@.len() > 2 && types@.contains_key(names@[0]@) && types@.contains_key(names@[1]@)
            ==> r matches Err(Error::TooManyTypes),
        names@.len() == 1 && types@.contains_key(names@[0]@) ==> r == Ok::<Types, Error>(
            Types::One(types@[names@[0]@]),
        ),
        names@.len() == 2 && types@.contains_key(names@[0]@) && types@.contains_key(names@[1]@)
            ==> r == Ok::<Types, Error>(Types::Two(types@[names@[0]@], types@[names@[1]@])),
{
    if names.len() == 0 {
        return Err(Error::NoTypes);
    }
    let one = match types.get(names[0].as_str()) {
        Ok(t) => t.clone(),
        Err(_) => {
            return Err(Error::InvalidType(names[0].clone()));
        },
    };
    let result = if names.len() > 1 {
        match types.get(names[1].as_str()) {
            Ok(t) => Types::Two(one, t.clone()),
            Err(_) => {
                return Err(Error::InvalidType(names[1].clone()));
            },
        }
    } else {
        Types::One(one)
    };
    if names.len() > 2 {
        return Err(Error::TooManyTypes);
    }
    Ok(result)
}

/// The species keys a line pokemon evolves into, from the evolution chain of
/// its base species `from_key` (the links below the base), heading for
/// `target`. Fails with `Error::NoEvolutionChain` naming the base species
/// when it has no chain.
pub fn evolution_line_keys(
    from_key: &str,
    target: Option<&str>,
    chain: Option<&Vec<EvolutionLink>>,
) -> (r: Result<SpeciesLine, Error>)
    requires
        chain matches Some(c) ==> chain_depth(c@) < usize::MAX,
    ensures
        match chain {
            None => r matches Err(Error::NoEvolutionChain(k)) && k@ == from_key@,
            Some(c) => follows_chain(c@, target, r),
        },
{
    match chain {
        None => Err(Error::NoEvolutionChain(String::from_str(from_key))),
        Some(links) => follow_evo_chain(links, target),
    }
}

/// What fetching a pokemon's species asks for: the key of the species it
/// starts as, and for an evolution line `Some` of the species it heads for
/// (`Some(None)` where none is named); an exact species asks for no line
/// (`None`), so that no evolution chain is followed for it.
pub fn species_request(species: &PokemonSpecies) -> (r: (&String, Option<Option<&String>>))
    ensures
        r.0@ == species.spec_from_key(),
        match r.1 {
            None => species is Exact,
            Some(None) => species is Line && species.spec_to_key() is None,
            Some(Some(t)) => species is Line && species.spec_to_key() == Some(t@),
        },
{
    match species {
        PokemonSpecies::Exact { species } => (species, None),
        PokemonSpecies::Line { from, to } => match to {
            Some(t) => (from, Some(Some(t))),
            None => (from, Some(None)),
        },
    }
}

/// The line of a base species: its own key, then the keys it evolves into.
pub fn base_line(from_key: &String, evolutions: &SpeciesLine) -> (line: SpeciesLine)
    requires
        line_keys(*evolutions).len() < usize::MAX,
    ensures
        line_keys(line) == seq![from_key@] + line_keys(*evolutions),
{
    let mut line = line_new();
    line_push(&mut line, from_key.clone());
    let n = line_len(evolutions);
    let mut i: usize = 0;
    while i < n
        invariant
            i <= n,
            n == line_keys(*evolutions).len(),
            n < usize::MAX,
            line_keys(line) == seq![from_key@] + line_keys(*evolutions).take(i as int),
        decreases n - i,
    {
        let ghost before = line_keys(line);
        assert(line_keys(line).len() == i + 1);
        assert(line_items(line).len() == i + 1);
        line_push(&mut line, line_get(evolutions, i).clone());
        assert(line_keys(line) =~= before.push(line_keys(*evolutions)[i as int]));
        assert(line_keys(*evolutions).take(i + 1) =~= line_keys(*evolutions).take(i as int).push(
            line_keys(*evolutions)[i as int],
        ));
        i = i + 1;
    }
    assert(line_keys(*evolutions).take(n as int) =~= line_keys(*evolutions));
    line
}

/// The species fetched for one pokemon: the base species, then the species
/// it evolves into.
pub fn line_of_species(base: Species, evolutions: Vec<Species>) -> (r: Vec<Species>)
    ensures
        r@ == seq![base] + evolutions@,
{
    let mut r = Vec::new();
    r.push(base);
    let mut rest = evolutions;
    r.append(&mut rest);
    assert(r@ =~= seq![base] + evolutions@);
    r
}

/// The map that inserting every species of every line, in order, into an
/// empty map gives: later entries replace earlier ones of the same key.
pub open spec fn species_by_key(lines: Seq<Seq<Species>>) -> Map<Seq<char>, Species>
    decreases lines.len(),
{
    if lines.len() == 0 {
        Map::empty()
    } else {
        insert_all(species_by_key(lines.drop_last()), lines.last())
    }
}

/// `m` with every species of `line` inserted under its key, in order.
pub open spec fn insert_all(m: Map<Seq<char>, Species>, line: Seq<Species>) -> Map<
    Seq<char>,
    Species,
>
    decreases line.len(),
{
    if line.len() == 0 {
        m
    } else {
        insert_all(m, line.drop_last()).insert(line.last().key@, line.last())
    }
}

/// The lines of the results, as long as none is an error.
pub open spec fn ok_lines(results: Seq<Result<Vec<Species>, Error>>) -> Option<Seq<Seq<Species>>>
    decreases results.len(),
{
    if results.len() == 0 {
        Some(Seq::empty())
    } else {
        match (ok_lines(results.drop_last()), results.last()) {
            (Some(lines), Ok(line)) => Some(lines.push(line@)),
            _ => None,
        }
    }
}

/// Gathers fetched lines, in the order they came, into a map by species key.
/// The first error among the results is returned instead.
pub fn collect_species(results: Vec<Result<Vec<Species>, Error>>) -> (r: Result<
    SlugMap<Species>,
    Error,
>)
    ensures
        match r {
            Ok(m) => ok_lines(results@) matches Some(lines) && m@ == species_by_key(lines),
            Err(e) => ok_lines(results@) is None && exists|i: int|
                0 <= i < results@.len() && results@[i] == Err::<Vec<Species>, Error>(e)
                    && ok_lines(results@.take(i)) is Some,
        },
{
    let mut out: SlugMap<Species> = SlugMap::new();
    let mut rest = results;
    let ghost all = results@;
    let mut i: usize = 0;
    let n = rest.len();
    while i < n
        invariant
            n == all.len(),
            all == results@,
            i <= n,
            rest@ == all.skip(i as int),
            ok_lines(all.take(i as int)) matches Some(lines) && out@ == species_by_key(lines),
        decreases n - i,
    {
        let ghost lines = ok_lines(all.take(i as int)).unwrap();
        let item = rest.remove(0);
        assert(item == all[i as int]);
        assert(all.take(i + 1).drop_last() =~= all.take(i as int));
        match item {
            Ok(line) => {
                let m = line.len();
                let mut k: usize = 0;
                let mut line_rest = line;
                let ghost whole = all[i as int]->Ok_0@;
                while k < m
                    invariant
                        m == whole.len(),
                        k <= m,
                        line_rest@ == whole.skip(k as int),
                        out@ == insert_all(species_by_key(lines), whole.take(k as int)),
                    decreases m - k,
                {
                    let species = line_rest.remove(0);
                    assert(species == whole[k as int]);
                    assert(whole.take(k + 1).drop_last() =~= whole.take(k as int));
                    let key = species.key.clone();
                    out.insert(key, species);
                    k = k + 1;
                }
                assert(whole.take(m as int) =~= whole);
                assert(lines.push(whole).drop_last() =~= lines);
            },
            Err(e) => {
                assert(all[i as int] == Err::<Vec<Species>, Error>(e));
                assert(ok_lines(all.take(i as int)) is Some);
                assert(all.take(i + 1).last() == all[i as int]);
                assert(ok_lines(all.take(i + 1)) is None);
                assert(ok_lines(all) is None) by {
                    lemma_ok_lines_prefix(all, i as int + 1);
                }
                assert(exists|j: int|
                    0 <= j < all.len() && all[j] == Err::<Vec<Species>, Error>(e) && ok_lines(
                        all.take(j),
                    ) is Some) by {
                    assert(0 <= i < all.len());
                }
                return Err(e);
            },
        }
        i = i + 1;
    }
    assert(all.take(n as int) =~= all);
    Ok(out)
}

proof fn lemma_ok_lines_prefix(results: Seq<Result<Vec<Species>, Error>>, i: int)
    requires
        0 <= i <= results.len(),
        ok_lines(results.take(i)) is None,
    ensures
        ok_lines(results) is None,
    decreases results.len(),
{
    if i < results.len() {
        assert(results.drop_last().take(i) =~= results.take(i));
        lemma_ok_lines_prefix(results.drop_last(), i);
    } else {
        assert(results.take(i) =~= results);
    }
}

} // verus!
