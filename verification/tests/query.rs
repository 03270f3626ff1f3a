use vppmake::error::{Error, IntErrorKind};
use vppmake::model::line::SpeciesLine;
use vppmake::model::map::SlugMap;
use vppmake::model::species::Species;
use vppmake::model::types::{Type, Types};
use vppmake::query::evolution::{follow_evo_chain, EvolutionLink};
use vppmake::query::post_count::{
    checked_post_count_from_page, parse_u16, post_count_from_page, remove_commas,
};
use vppmake::query::species::{
    base_line, collect_species, english_name, evolution_line_keys, fetch_types, find_english,
    line_of_species, species_request, LocalizedName,
};
use vppmake::model::pokemon::PokemonSpecies;

fn link(species: &str, evolves_to: Vec<EvolutionLink>) -> EvolutionLink {
    EvolutionLink { species: species.to_string(), evolves_to }
}

fn keys(l: &SpeciesLine) -> Vec<String> {
    (0..l.len()).map(|i| l.get(i).clone()).collect()
}

fn ty(key: &str) -> Type {
    Type { key: key.to_string(), name: key.to_uppercase(), icon: format!("{key}.svg"), color: [1, 2, 3] }
}

fn known_types() -> SlugMap<Type> {
    let mut m = SlugMap::new();
    m.insert("fire".to_string(), ty("fire"));
    m.insert("flying".to_string(), ty("flying"));
    m
}

fn names(list: &[&str]) -> Vec<String> {
    list.iter().map(|s| s.to_string()).collect()
}

fn localized(list: &[(&str, &str)]) -> Vec<LocalizedName> {
    list.iter()
        .map(|(l, n)| LocalizedName { language: l.to_string(), name: n.to_string() })
        .collect()
}

fn species(key: &str, name: &str) -> Species {
    Species { key: key.to_string(), name: name.to_string(), types: Types::One(ty("fire")), line: SpeciesLine::new() }
}

#[test]
fn unbranched_chain_is_followed_whole() {
    let chain = vec![link("ivysaur", vec![link("venusaur", vec![])])];
    assert_eq!(keys(&follow_evo_chain(&chain, None).unwrap()), names(&["ivysaur", "venusaur"]));
    assert_eq!(keys(&follow_evo_chain(&chain, Some("ignored")).unwrap()), names(&["ivysaur", "venusaur"]));
    assert!(keys(&follow_evo_chain(&vec![], None).unwrap()).is_empty());
}

#[test]
fn branched_chain_needs_and_finds_target() {
    let chain = vec![link("vaporeon", vec![]), link("jolteon", vec![]), link("flareon", vec![])];
    assert_eq!(keys(&follow_evo_chain(&chain, Some("jolteon")).unwrap()), names(&["jolteon"]));
    assert!(matches!(follow_evo_chain(&chain, None), Err(Error::TargetRequired)));
    assert!(matches!(follow_evo_chain(&chain, Some("umbreon")), Err(Error::NoPathToTarget(t)) if t == "umbreon"));
}

#[test]
fn branched_chain_deep_target_first_path() {
    let chain = vec![
        link("b", vec![]),
        link("c", vec![link("d", vec![]), link("e", vec![])]),
    ];
    assert_eq!(keys(&follow_evo_chain(&chain, Some("e")).unwrap()), names(&["c", "e"]));
    let twice = vec![link("x", vec![link("t", vec![])]), link("t", vec![])];
    assert_eq!(keys(&follow_evo_chain(&twice, Some("t")).unwrap()), names(&["x", "t"]));
}

#[test]
fn evolution_line_keys_without_chain() {
    assert!(matches!(evolution_line_keys("pichu", Some("raichu"), None), Err(Error::NoEvolutionChain(k)) if k == "pichu"));
    let chain = vec![link("pikachu", vec![link("raichu", vec![])])];
    assert_eq!(keys(&evolution_line_keys("pichu", None, Some(&chain)).unwrap()), names(&["pikachu", "raichu"]));
}

#[test]
fn base_line_and_line_of_species() {
    let mut evo = SpeciesLine::new();
    evo.push("pikachu".to_string());
    evo.push("raichu".to_string());
    assert_eq!(keys(&base_line(&"pichu".to_string(), &evo)), names(&["pichu", "pikachu", "raichu"]));
    let all = line_of_species(species("pichu", "Pichu"), vec![species("pikachu", "Pikachu")]);
    assert_eq!(all.iter().map(|s| s.key.clone()).collect::<Vec<_>>(), names(&["pichu", "pikachu"]));
}

#[test]
fn types_from_names() {
    let known = known_types();
    match fetch_types(&known, &names(&["fire"])).unwrap() {
        Types::One(t) => assert_eq!(t.name, "FIRE"),
        _ => panic!("one type expected"),
    }
    match fetch_types(&known, &names(&["fire", "flying"])).unwrap() {
        Types::Two(a, b) => assert_eq!((a.key.as_str(), b.key.as_str()), ("fire", "flying")),
        _ => panic!("two types expected"),
    }
    assert!(matches!(fetch_types(&known, &names(&[])), Err(Error::NoTypes)));
    assert!(matches!(fetch_types(&known, &names(&["water"])), Err(Error::InvalidType(t)) if t == "water"));
    assert!(matches!(fetch_types(&known, &names(&["fire", "rock", "x"])), Err(Error::InvalidType(t)) if t == "rock"));
    assert!(matches!(fetch_types(&known, &names(&["fire", "flying", "fire"])), Err(Error::TooManyTypes)));
    assert_eq!(Error::TooManyTypes.message(), "Expected no more than two types");
}

#[test]
fn english_names() {
    let form = localized(&[("ja", "ピカチュウ"), ("en", "Pikachu (Cap)")]);
    let species = localized(&[("fr", "Pikachu"), ("en", "Pikachu"), ("en", "Other")]);
    assert_eq!(find_english(&species).as_deref(), Some("Pikachu"));
    assert_eq!(english_name(Some(&form), &species, "pikachu-cap").unwrap(), "Pikachu (Cap)");
    assert_eq!(english_name(Some(&localized(&[("de", "x")])), &species, "p").unwrap(), "Pikachu");
    assert_eq!(english_name(None, &species, "p").unwrap(), "Pikachu");
    let err = english_name(None, &localized(&[("de", "x")]), "mystery").unwrap_err();
    assert!(matches!(&err, Error::UnknownPokemonName(n) if n == "mystery"));
    assert_eq!(err.message(), "Unknown pokemon name: 'mystery'");
}

#[test]
fn collecting_species_lines() {
    let results = vec![
        Ok(vec![species("pichu", "Pichu"), species("pikachu", "Pikachu")]),
        Ok(vec![species("pikachu", "Pikachu again")]),
    ];
    let map = collect_species(results).unwrap();
    assert_eq!(map.get("pichu").unwrap().name, "Pichu");
    assert_eq!(map.get("pikachu").unwrap().name, "Pikachu again");
    let failing = vec![
        Ok(vec![species("pichu", "Pichu")]),
        Err(Error::NoTypes),
        Err(Error::TooManyTypes),
    ];
    assert!(matches!(collect_species(failing), Err(Error::NoTypes)));
}

#[test]
fn parse_counts() {
    assert_eq!(parse_u16("123"), Ok(123));
    assert_eq!(parse_u16("+7"), Ok(7));
    assert_eq!(parse_u16("007"), Ok(7));
    assert_eq!(parse_u16("65535"), Ok(65535));
    assert_eq!(parse_u16("65536"), Err(IntErrorKind::PosOverflow));
    assert_eq!(parse_u16(""), Err(IntErrorKind::Empty));
    assert_eq!(parse_u16("+"), Err(IntErrorKind::InvalidDigit));
    assert_eq!(parse_u16("-"), Err(IntErrorKind::InvalidDigit));
    assert_eq!(parse_u16("-1"), Err(IntErrorKind::InvalidDigit));
    assert_eq!(parse_u16("12a"), Err(IntErrorKind::InvalidDigit));
    assert_eq!(parse_u16(" 1"), Err(IntErrorKind::InvalidDigit));
    assert_eq!(parse_u16("700000x"), Err(IntErrorKind::PosOverflow));
    assert_eq!(parse_u16("6553x"), Err(IntErrorKind::InvalidDigit));
    for s in ["0", "1", "42", "+65535", "99999", "1x", "++1", "", "+", "-", "-0", "65536", "123456789", "12é", "6553x", "655350"] {
        let expected = s.parse::<u16>().map_err(|e| match e.kind() {
            std::num::IntErrorKind::Empty => IntErrorKind::Empty,
            std::num::IntErrorKind::InvalidDigit => IntErrorKind::InvalidDigit,
            std::num::IntErrorKind::PosOverflow => IntErrorKind::PosOverflow,
            other => panic!("unexpected kind {other:?}"),
        });
        assert_eq!(parse_u16(s), expected, "{s}");
    }
}

#[test]
fn commas_removed() {
    assert_eq!(remove_commas("1,234,567"), "1234567");
    assert_eq!(remove_commas(",,"), "");
    assert_eq!(remove_commas("abc"), "abc");
}

#[test]
fn post_count_from_profile_page() {
    let page = "<html><body><div class='posts'>  1,234 </div></body></html>";
    assert_eq!(post_count_from_page(page, ".posts").unwrap(), 1234);
    assert!(matches!(post_count_from_page(page, ".missing"), Err(Error::NoSelectorMatch)));
    assert!(matches!(post_count_from_page("<div class='posts'></div>", ".posts"), Err(Error::NoSelectorText)));
    assert!(matches!(
        post_count_from_page("<div class='posts'> many </div>", ".posts"),
        Err(Error::InvalidPostCount(IntErrorKind::InvalidDigit))
    ));
    assert!(matches!(
        post_count_from_page("<div class='posts'>70,000</div>", ".posts"),
        Err(Error::InvalidPostCount(IntErrorKind::PosOverflow))
    ));
    assert!(matches!(
        post_count_from_page("<div class='posts'> , </div>", ".posts"),
        Err(Error::InvalidPostCount(IntErrorKind::Empty))
    ));
    let invalid = post_count_from_page("<div class='posts'>many</div>", ".posts").unwrap_err();
    assert_eq!(invalid.message(), "many".parse::<u16>().unwrap_err().to_string());
    assert!(checked_post_count_from_page(page, "[[").is_none());
    assert_eq!(checked_post_count_from_page(page, "div.posts").unwrap().unwrap(), 1234);
}

#[test]
fn decimal_round_trip() {
    for n in [0u16, 5, 10, 99, 100, 1234, 65535] {
        let text = vppmake::text::to_text(&n);
        assert_eq!(remove_commas(&text), text);
        assert_eq!(parse_u16(&text), Ok(n));
    }
}

#[test]
fn error_messages() {
    let s = || "x".to_string();
    assert_eq!(Error::UnknownEntry(s()).message(), "Unknown entry: 'x'");
    assert_eq!(Error::UnknownPokemonName(s()).message(), "Unknown pokemon name: 'x'");
    assert_eq!(Error::InvalidType(s()).message(), "Invalid type: 'x'");
    assert_eq!(Error::NoTypes.message(), "Expected at least one type");
    assert_eq!(Error::TooManyTypes.message(), "Expected no more than two types");
    assert_eq!(Error::NoEvolutionChain(s()).message(), "Species x has no evolution chain.");
    assert_eq!(Error::TargetRequired.message(), "Target required for branching evolution chain.");
    assert_eq!(Error::NoPathToTarget(s()).message(), "Could not find path to x.");
    assert_eq!(Error::NoSelectorMatch.message(), "no match for selector");
    assert_eq!(Error::NoSelectorText.message(), "selector has no text");
    assert_eq!(
        Error::InvalidPostCount(IntErrorKind::Empty).message(),
        "cannot parse integer from empty string"
    );
    assert_eq!(
        Error::InvalidPostCount(IntErrorKind::InvalidDigit).message(),
        "invalid digit found in string"
    );
    assert_eq!(
        Error::InvalidPostCount(IntErrorKind::PosOverflow).message(),
        "number too large to fit in target type"
    );
    assert_eq!(Error::GrowthOutOfBounds(s()).message(), "Growth of pokemon 'x' is out of bounds");
    assert_eq!(Error::Request(s()).message(), "x");
}

#[test]
fn species_request_tells_exact_from_line() {
    let exact = PokemonSpecies::Exact { species: "eevee".to_string() };
    let (from, to) = species_request(&exact);
    assert_eq!(from, "eevee");
    assert!(to.is_none());
    let line = PokemonSpecies::Line { from: "eevee".to_string(), to: Some("umbreon".to_string()) };
    let (from, to) = species_request(&line);
    assert_eq!(from, "eevee");
    assert_eq!(to, Some(Some(&"umbreon".to_string())));
    let open = PokemonSpecies::Line { from: "pichu".to_string(), to: None };
    let (from, to) = species_request(&open);
    assert_eq!(from, "pichu");
    assert_eq!(to, Some(None));
}
