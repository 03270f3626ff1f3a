use vppmake::error::Error;
use vppmake::model::line::SpeciesLine;
use vppmake::model::map::SlugMap;
use vppmake::model::pokemon::{
    Pokemon, PokemonGrowth, PokemonGrowthBounds, PokemonGrowthGrown, PokemonSpecies,
};
use vppmake::model::profile::Profile;
use vppmake::model::room::{Room, RoomMember, RoomMemberPosition};
use vppmake::model::species::Species;
use vppmake::model::types::{Type, Types};
use vppmake::model::Source;
use vppmake::state::growth::GrowthState;
use vppmake::state::State;
use vppmake::view::assets::BASE;
use vppmake::view::bbcode::BBCode;
use vppmake::view::{render, render_room, room};

fn line(keys: &[&str]) -> SpeciesLine {
    let mut l = SpeciesLine::new();
    for k in keys {
        l.push(k.to_string());
    }
    l
}

fn electric() -> Type {
    Type {
        key: "electric".to_string(),
        name: "Electric".to_string(),
        icon: "bolt".to_string(),
        color: [250, 200, 0],
    }
}

fn species(key: &str, name: &str, keys: &[&str]) -> Species {
    Species {
        key: key.to_string(),
        name: name.to_string(),
        types: Types::One(electric()),
        line: line(keys),
    }
}

fn pokemon(key: &str, name: &str, from: &str, growth: PokemonGrowth, shiny: bool) -> Pokemon {
    Pokemon {
        key: key.to_string(),
        name: name.to_string(),
        species: PokemonSpecies::Exact { species: from.to_string() },
        growth,
        shiny,
        points: 0,
    }
}

fn bounds(start: u16, hatch: u16, grown: u16) -> PokemonGrowth {
    PokemonGrowth::Bounds(PokemonGrowthBounds { start, hatch, grown })
}

fn species_name(s: &GrowthState) -> Option<String> {
    s.species_key().cloned()
}

#[test]
fn slug_map_insert_get_keys() {
    let mut m: SlugMap<u16> = SlugMap::new();
    m.insert("a".to_string(), 1);
    m.insert("b".to_string(), 2);
    m.insert("a".to_string(), 3);
    assert_eq!(*m.get("a").unwrap(), 3);
    assert_eq!(*m.get("b").unwrap(), 2);
    let mut keys = m.keys();
    keys.sort();
    assert_eq!(keys, vec!["a".to_string(), "b".to_string()]);
    match m.get("c") {
        Err(Error::UnknownEntry(s)) => assert_eq!(s, "c"),
        _ => panic!("expected an unknown entry"),
    }
    assert_eq!(m.get("zz").err().unwrap().message(), "Unknown entry: 'zz'");
}

#[test]
fn unpack_positions() {
    assert_eq!(
        RoomMemberPosition::TopLeft { top: 1, left: 2 }.unpack(),
        [("top", 1), ("left", 2)]
    );
    assert_eq!(
        RoomMemberPosition::TopRight { top: 3, right: 4 }.unpack(),
        [("top", 3), ("right", 4)]
    );
    assert_eq!(
        RoomMemberPosition::BottomLeft { bottom: 5, left: 6 }.unpack(),
        [("bottom", 5), ("left", 6)]
    );
    assert_eq!(
        RoomMemberPosition::BottomRight { bottom: 7, right: 8 }.unpack(),
        [("bottom", 7), ("right", 8)]
    );
}

#[test]
fn species_keys_of_pokemon() {
    let exact = PokemonSpecies::Exact { species: "pichu".to_string() };
    assert_eq!(exact.from_key(), "pichu");
    assert_eq!(exact.to_key(), None);
    let line = PokemonSpecies::Line { from: "eevee".to_string(), to: Some("jolteon".to_string()) };
    assert_eq!(line.from_key(), "eevee");
    assert_eq!(line.to_key().map(|s| s.as_str()), Some("jolteon"));
    let open = PokemonSpecies::Line { from: "pichu".to_string(), to: None };
    assert_eq!(open.to_key(), None);
}

#[test]
fn growth_of_three_stage_line() {
    let s = species("pichu", "Pichu", &["pichu", "pikachu", "raichu"]);
    let p = pokemon("p", "Sparky", "pichu", bounds(0, 10, 30), false);
    assert!(matches!(GrowthState::of(&p, &s, 5), GrowthState::Egg { hatch_at_posts: 10 }));
    let at_hatch = GrowthState::of(&p, &s, 10);
    assert!(matches!(at_hatch, GrowthState::Growing { grown_at_posts: 30, .. }));
    assert_eq!(species_name(&at_hatch).as_deref(), Some("pichu"));
    assert_eq!(species_name(&GrowthState::of(&p, &s, 19)).as_deref(), Some("pichu"));
    assert_eq!(species_name(&GrowthState::of(&p, &s, 20)).as_deref(), Some("pikachu"));
    assert_eq!(species_name(&GrowthState::of(&p, &s, 29)).as_deref(), Some("pikachu"));
    let grown = GrowthState::of(&p, &s, 30);
    assert!(matches!(grown, GrowthState::Grown { .. }));
    assert_eq!(species_name(&grown).as_deref(), Some("raichu"));
}

#[test]
fn growth_of_short_line_and_grown() {
    let s = species("eevee", "Eevee", &["eevee", "jolteon"]);
    let p = pokemon("p", "E", "eevee", bounds(0, 0, 100), false);
    assert_eq!(species_name(&GrowthState::of(&p, &s, 90)).as_deref(), Some("eevee"));
    let g = pokemon("g", "G", "eevee", PokemonGrowth::Grown(PokemonGrowthGrown::Grown), false);
    assert_eq!(species_name(&GrowthState::of(&g, &s, 0)).as_deref(), Some("jolteon"));
    let lone = species("ditto", "Ditto", &[]);
    assert_eq!(species_name(&GrowthState::of(&g, &lone, 0)).as_deref(), Some("ditto"));
    assert_eq!(species_name(&GrowthState::of(&pokemon("x", "X", "eevee", bounds(0, 5, 9), false), &s, 2)), None);
}

fn room_with(member_key: &str, position: RoomMemberPosition, flipped: bool) -> Room {
    let mut pokemon = SlugMap::new();
    pokemon.insert(
        "spot".to_string(),
        RoomMember { key: member_key.to_string(), flipped, position },
    );
    Room { key: "garden".to_string(), name: "The Garden".to_string(), pokemon }
}

fn state_with(p: Pokemon, r: Room, post_count: u16) -> State {
    let mut pokemon = SlugMap::new();
    pokemon.insert(p.key.clone(), p);
    let mut rooms = SlugMap::new();
    rooms.insert(r.key.clone(), r);
    let mut species_map = SlugMap::new();
    species_map.insert("pichu".to_string(), species("pichu", "Pichu", &["pichu", "pikachu", "raichu"]));
    species_map.insert("pikachu".to_string(), species("pikachu", "Pikachu", &[]));
    species_map.insert("raichu".to_string(), species("raichu", "Raichu", &[]));
    State {
        src: Source {
            profile: Profile { url: "https://forum/u/1".to_string(), post_count_query: ".count".to_string() },
            types: SlugMap::new(),
            pokemon,
            rooms,
        },
        species: species_map,
        post_count,
    }
}

#[test]
fn growth_state_of_state() {
    let st = state_with(pokemon("p", "Sparky", "pichu", bounds(5, 10, 30), false), room_with("p", RoomMemberPosition::TopLeft { top: 1, left: 2 }, false), 25);
    let p = st.src.pokemon.get("p").unwrap();
    assert_eq!(species_name(&st.growth_state(p).unwrap()).as_deref(), Some("pikachu"));
    let early = state_with(pokemon("p", "Sparky", "pichu", bounds(5, 10, 30), false), room_with("p", RoomMemberPosition::TopLeft { top: 1, left: 2 }, false), 4);
    match early.growth_state(early.src.pokemon.get("p").unwrap()) {
        Err(Error::GrowthOutOfBounds(k)) => assert_eq!(k, "p"),
        _ => panic!("expected growth out of bounds"),
    }
    let unknown = pokemon("q", "Q", "mew", bounds(0, 1, 2), false);
    assert!(matches!(st.growth_state(&unknown), Err(Error::UnknownEntry(k)) if k == "mew"));
}

#[test]
fn render_page() {
    let st = state_with(
        pokemon("p", "Sparky", "pichu", bounds(0, 10, 30), true),
        room_with("p", RoomMemberPosition::BottomRight { bottom: 3, right: 40 }, true),
        12,
    );
    let page = render(&st).unwrap();
    assert_eq!(
        page,
        format!(
            "[tabs][slide=\"The Garden\"][img]{BASE}rooms/garden.png[/img][div=\"position:absolute;transform:scaleX(-1);background-image:url('/images/sparkle.gif');bottom:3;right:40;\"]Sparky[/div][/slide][/tabs]"
        )
    );
}

#[test]
fn render_room_unknown_pokemon_fails() {
    let st = state_with(
        pokemon("p", "Sparky", "pichu", bounds(0, 10, 30), false),
        room_with("nobody", RoomMemberPosition::TopLeft { top: 0, left: 0 }, false),
        12,
    );
    let mut bb = BBCode::new();
    assert!(matches!(render_room(&mut bb, &st), Err(Error::UnknownEntry(k)) if k == "nobody"));
    assert_eq!(
        bb.as_text(),
        format!("[slide=\"The Garden\"][img]{BASE}rooms/garden.png[/img][/slide]")
    );
    assert!(matches!(render(&st), Err(Error::UnknownEntry(k)) if k == "nobody"));
}

#[test]
fn render_room_growth_error_closes_slide() {
    let st = state_with(
        pokemon("p", "Sparky", "pichu", bounds(20, 30, 40), false),
        room_with("p", RoomMemberPosition::TopLeft { top: 0, left: 0 }, false),
        12,
    );
    let mut bb = BBCode::new();
    bb.text("before");
    assert!(matches!(render_room(&mut bb, &st), Err(Error::GrowthOutOfBounds(k)) if k == "p"));
    assert_eq!(
        bb.as_text(),
        format!("before[slide=\"The Garden\"][img]{BASE}rooms/garden.png[/img][/slide]")
    );
    assert!(matches!(render(&st), Err(Error::GrowthOutOfBounds(k)) if k == "p"));
}

#[test]
fn render_single_room_failures_close_tags() {
    let unknown = state_with(
        pokemon("p", "Sparky", "pichu", bounds(0, 10, 30), false),
        room_with("nobody", RoomMemberPosition::TopLeft { top: 0, left: 0 }, false),
        25,
    );
    let mut bb = BBCode::new();
    let r = unknown.src.rooms.get("garden").unwrap();
    assert!(matches!(room::render(&mut bb, &unknown, r), Err(Error::UnknownEntry(k)) if k == "nobody"));
    assert_eq!(bb.as_text(), "[room=\"garden\"][room-name]The Garden[/room-name][/room]");
    let early = state_with(
        pokemon("p", "Sparky", "pichu", bounds(20, 30, 40), false),
        room_with("p", RoomMemberPosition::TopLeft { top: 0, left: 0 }, false),
        12,
    );
    let mut bb = BBCode::new();
    let r = early.src.rooms.get("garden").unwrap();
    assert!(matches!(room::render(&mut bb, &early, r), Err(Error::GrowthOutOfBounds(k)) if k == "p"));
    assert_eq!(
        bb.as_text(),
        "[room=\"garden\"][room-name]The Garden[/room-name][pokemon=\"Sparky\"][/pokemon][/room]"
    );
}

#[test]
fn render_single_room_with_species_names() {
    let st = state_with(
        pokemon("p", "Sparky", "pichu", bounds(0, 10, 30), false),
        room_with("p", RoomMemberPosition::TopLeft { top: 0, left: 0 }, false),
        25,
    );
    let r = st.src.rooms.get("garden").unwrap();
    let mut bb = BBCode::new();
    room::render(&mut bb, &st, r).unwrap();
    assert_eq!(
        bb.as_text(),
        "[room=\"garden\"][room-name]The Garden[/room-name][pokemon=\"Sparky\"]Pikachu[/pokemon][/room]"
    );
    let egg = state_with(
        pokemon("p", "Sparky", "pichu", bounds(0, 10, 30), false),
        room_with("p", RoomMemberPosition::TopLeft { top: 0, left: 0 }, false),
        3,
    );
    let mut bb = BBCode::new();
    room::render(&mut bb, &egg, egg.src.rooms.get("garden").unwrap()).unwrap();
    assert_eq!(
        bb.as_text(),
        "[room=\"garden\"][room-name]The Garden[/room-name][pokemon=\"Sparky\"]egg[/pokemon][/room]"
    );
}

fn rank(s: &GrowthState) -> u8 {
    match s {
        GrowthState::Egg { .. } => 0,
        GrowthState::Growing { .. } => 1,
        GrowthState::Grown { .. } => 2,
    }
}

#[test]
fn growth_never_goes_backwards() {
    let s = species("pichu", "Pichu", &["pichu", "pikachu", "raichu"]);
    let p = pokemon("p", "Sparky", "pichu", bounds(3, 10, 31), false);
    let order = ["pichu", "pikachu", "raichu"];
    let mut last_rank = 0;
    let mut last_species = 0;
    for posts in 3..=60u16 {
        let g = GrowthState::of(&p, &s, posts);
        assert!(rank(&g) >= last_rank);
        if let Some(k) = species_name(&g) {
            let at = order.iter().position(|o| *o == k).unwrap();
            assert!(at >= last_species);
            last_species = at;
        }
        last_rank = rank(&g);
    }
    assert_eq!(last_rank, 2);
}

#[test]
fn species_line_clone_and_access() {
    let l = line(&["a", "b"]);
    let c = l.clone();
    assert_eq!(c.len(), 2);
    assert_eq!(c.get(0), "a");
    assert_eq!(c.get(1), "b");
}

#[test]
fn slug_map_clone_keeps_entries() {
    let mut m: SlugMap<String> = SlugMap::new();
    m.insert("a".to_string(), "x".to_string());
    let c = m.clone();
    m.insert("a".to_string(), "y".to_string());
    assert_eq!(c.get("a").unwrap(), "x");
    assert_eq!(m.get("a").unwrap(), "y");
    assert_eq!(c.keys(), vec!["a".to_string()]);
}
