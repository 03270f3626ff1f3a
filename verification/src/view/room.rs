//! Rendering of a single room with the species each pokemon is shown as.
use super::bbcode::{close_tag, open_tag, quoted_arg, BBCode};
use super::{growth_ok, is_key_order, Rendered};
use crate::model::line::line_keys;
use crate::model::pokemon::Pokemon;
use crate::model::room::{Room, RoomMember};
use crate::state::growth::{growth_species, grown_species, is_growth_state, lemma_stage_species, GrowthState};
use crate::error::Error;
use crate::state::{growth_fails_with, State};
use vstd::prelude::*;

verus! {

/// The key of the species `pokemon` is shown as in the state, or `None`
/// while it is an egg.
pub open spec fn shown_species(state: State, pokemon: Pokemon) -> Option<Seq<char>> {
    let species = state.species@[pokemon.species.spec_from_key()];
    growth_species(pokemon.growth, line_keys(species.line), species.key@, state.post_count)
}

/// The pokemon's label can be told: its growth stage is defined and the
/// species it is shown as was fetched.
pub open spec fn label_ok(state: State, pokemon: Pokemon) -> bool {
    growth_ok(state, pokemon) && (shown_species(state, pokemon) matches Some(k)
        ==> state.species@.contains_key(k))
}

/// The label of a pokemon: the name of the species it is shown as, or `egg`.
pub open spec fn label_text(state: State, pokemon: Pokemon) -> Seq<char> {
    match shown_species(state, pokemon) {
        Some(k) => state.species@[k].name@,
        None => "egg"@,
    }
}

/// The placed pokemon exists and its label can be told.
pub open spec fn member_ok(state: State, member: RoomMember) -> bool {
    state.src.pokemon@.contains_key(member.key@) && label_ok(
        state,
        state.src.pokemon@[member.key@],
    )
}

/// Every pokemon placed in the room can be shown.
pub open spec fn room_view_ok(state: State, room: Room) -> bool {
    forall|k: Seq<char>| #[trigger]
        room.pokemon@.contains_key(k) ==> member_ok(state, room.pokemon@[k])
}

/// A pokemon's label follows its growth stage: while it is an egg the label
/// is `egg`; once it has hatched, growing or fully grown, the label can be
/// told exactly when the species its stage shows was fetched, and it is then
/// that species' name. A fully grown pokemon shows the last species of its
/// line (its own species when the line is empty).
pub proof fn lemma_label_follows_stage(state: State, pokemon: Pokemon, s: GrowthState)
    requires
        growth_ok(state, pokemon),
        is_growth_state(
            s,
            pokemon.growth,
            line_keys(state.species@[pokemon.species.spec_from_key()].line),
            state.species@[pokemon.species.spec_from_key()].key@,
            state.post_count,
        ),
    ensures
        s is Egg ==> label_ok(state, pokemon) && label_text(state, pokemon) == "egg"@,
        s matches GrowthState::Growing { species: k, .. } ==> (label_ok(state, pokemon)
            <==> state.species@.contains_key(k@)) && (label_ok(state, pokemon) ==> label_text(
            state,
            pokemon,
        ) == state.species@[k@].name@),
        s matches GrowthState::Grown { species: k } ==> k@ == grown_species(
            line_keys(state.species@[pokemon.species.spec_from_key()].line),
            state.species@[pokemon.species.spec_from_key()].key@,
        ) && (label_ok(state, pokemon) <==> state.species@.contains_key(k@)) && (label_ok(
            state,
            pokemon,
        ) ==> label_text(state, pokemon) == state.species@[k@].name@),
{
    let species = state.species@[pokemon.species.spec_from_key()];
    lemma_stage_species(s, pokemon.growth, line_keys(species.line), species.key@, state.post_count);
}

/// The markup of one pokemon: a `pokemon` tag titled with its name, holding
/// its label.
pub open spec fn pokemon_markup(state: State, pokemon: Pokemon) -> Seq<char> {
    open_tag("pokemon"@, quoted_arg(pokemon.name@)) + label_text(state, pokemon) + close_tag(
        "pokemon"@,
    )
}

/// The markup of the room's pokemon, in the given order of placement keys.
pub open spec fn members_markup(state: State, room: Room, order: Seq<Seq<char>>) -> Seq<char>
    decreases order.len(),
{
    if order.len() == 0 {
        Seq::empty()
    } else {
        members_markup(state, room, order.drop_last()) + pokemon_markup(
            state,
            state.src.pokemon@[room.pokemon@[order.last()].key@],
        )
    }
}

/// The markup of a room: a `room` tag titled with its key, holding its name
/// and its pokemon.
pub open spec fn room_markup(state: State, room: Room, order: Seq<Seq<char>>) -> Seq<char> {
    open_tag("room"@, quoted_arg(room.key@)) + room_body(state, room, order) + close_tag("room"@)
}

/// The tag holding a room's name.
pub open spec fn room_head(room: Room) -> Seq<char> {
    open_tag("room-name"@, Seq::empty()) + room.name@ + close_tag("room-name"@)
}

/// The content of a room's tag: its name, then its pokemon.
pub open spec fn room_body(state: State, room: Room, order: Seq<Seq<char>>) -> Seq<char> {
    room_head(room) + members_markup(state, room, order)
}

/// `e` is why the label of `pokemon` cannot be told: its growth stage cannot
/// be told, or the species it is shown as was not fetched
/// (`Error::UnknownEntry` with that species' key).
pub open spec fn label_fails_with(state: State, pokemon: Pokemon, e: Error) -> bool {
    if !growth_ok(state, pokemon) {
        growth_fails_with(state, pokemon, e)
    } else {
        shown_species(state, pokemon) matches Some(k) && !state.species@.contains_key(k) && (
        e matches Error::UnknownEntry(u) && u@ == k)
    }
}

/// `e` is why the placed pokemon cannot be shown: it is unknown
/// (`Error::UnknownEntry` with its key), or its label cannot be told.
pub open spec fn member_fails_with(state: State, member: RoomMember, e: Error) -> bool {
    if state.src.pokemon@.contains_key(member.key@) {
        label_fails_with(state, state.src.pokemon@[member.key@], e)
    } else {
        e matches Error::UnknownEntry(k) && k@ == member.key@
    }
}

/// What is written of a placed pokemon that cannot be shown: nothing when it
/// is unknown, else its `pokemon` tag, closed with no label inside.
pub open spec fn failed_member_markup(state: State, member: RoomMember) -> Seq<char> {
    if state.src.pokemon@.contains_key(member.key@) {
        open_tag("pokemon"@, quoted_arg(state.src.pokemon@[member.key@].name@)) + close_tag(
            "pokemon"@,
        )
    } else {
        Seq::empty()
    }
}

/// Writing a room's content from `before` to `after` stopped, failing with
/// `e`, at a pokemon that cannot be shown: after the room's name, the pokemon
/// before it, in some order of the room's placements, were written, then what
/// is written of the failing one.
pub open spec fn room_body_failed(
    state: State,
    room: Room,
    e: Error,
    before: Seq<char>,
    after: Seq<char>,
) -> bool {
    exists|order: Seq<Seq<char>>, j: int|
        {
            &&& is_key_order(order, room.pokemon@.dom())
            &&& 0 <= j < order.len()
            &&& forall|l: int| 0 <= l < j ==> member_ok(state, #[trigger] room.pokemon@[order[l]])
            &&& member_fails_with(state, room.pokemon@[order[j]], e)
            &&& after == before + room_head(room) + members_markup(state, room, order.take(j))
                + failed_member_markup(state, room.pokemon@[order[j]])
        }
}

/// The outcome of writing a pokemon's label from `before` to `after`.
pub open spec fn label_rendered(
    state: State,
    pokemon: Pokemon,
    r: Rendered,
    before: Seq<char>,
    after: Seq<char>,
) -> bool {
    match r {
        Ok(()) => label_ok(state, pokemon) && after == before + label_text(state, pokemon),
        Err(e) => !label_ok(state, pokemon) && label_fails_with(state, pokemon, e) && after
            == before,
    }
}

/// The outcome of writing a room's content from `before` to `after`.
pub open spec fn room_body_rendered(
    state: State,
    room: Room,
    r: Rendered,
    before: Seq<char>,
    after: Seq<char>,
) -> bool {
    match r {
        Ok(()) => room_view_ok(state, room) && exists|order: Seq<Seq<char>>|
            is_key_order(order, room.pokemon@.dom()) && after == before + room_body(
                state,
                room,
                order,
            ),
        Err(e) => !room_view_ok(state, room) && room_body_failed(state, room, e, before, after),
    }
}

/// Renders a room: its name, then each placed pokemon with the name of the
/// species it is shown as at the state's post count (or `egg`). Fails when a
/// placed pokemon is unknown, its growth stage cannot be told, or the
/// species it is shown as was not fetched; the tags opened so far are then
/// closed and no later pokemon is written.
pub fn render(bb: &mut BBCode, state: &State, room: &Room) -> (r: Rendered)
    ensures
        match r {
            Ok(()) => room_view_ok(*state, *room) && exists|order: Seq<Seq<char>>|
                is_key_order(order, room.pokemon@.dom()) && final(bb)@ == old(bb)@ + room_markup(
                    *state,
                    *room,
                    order,
                ),
            Err(e) => !room_view_ok(*state, *room) && exists|mid: Seq<char>|
                room_body_failed(
                    *state,
                    *room,
                    e,
                    old(bb)@ + open_tag("room"@, quoted_arg(room.key@)),
                    mid,
                ) && final(bb)@ == mid + close_tag("room"@),
        },
{
    let ghost before = bb@;
    let body = (|bb: &mut BBCode| -> (r: Rendered)
        ensures
            room_body_rendered(*state, *room, r, old(bb)@, final(bb)@),
        { render_room_body(bb, state, room) });
    let out = bb.tag_with("room", &room.key, body);
    let r: Rendered = match out {
        Ok(_) => Ok(()),
        Err(e) => Err(e),
    };
    proof {
        assert(exists|m: &mut BBCode, ret: Rendered|
            {
                &&& body.ensures((m,), ret)
                &&& (*m)@ == before + open_tag("room"@, quoted_arg(room.key@))
                &&& (r is Ok ==> ret is Ok)
                &&& (r is Err ==> ret == r)
                &&& bb@ == (*final(m))@ + close_tag("room"@)
            });
        let (m, ret) = choose|m: &mut BBCode, ret: Rendered|
            {
                &&& body.ensures((m,), ret)
                &&& (*m)@ == before + open_tag("room"@, quoted_arg(room.key@))
                &&& (r is Ok ==> ret is Ok)
                &&& (r is Err ==> ret == r)
                &&& bb@ == (*final(m))@ + close_tag("room"@)
            };
        if r is Ok {
            let order = choose|order: Seq<Seq<char>>|
                is_key_order(order, room.pokemon@.dom()) && (*final(m))@ == (*m)@ + room_body(
                    *state,
                    *room,
                    order,
                );
            assert(bb@ =~= before + room_markup(*state, *room, order));
        }
    }
    r
}

fn render_room_body(bb: &mut BBCode, state: &State, room: &Room) -> (r: Rendered)
    ensures
        room_body_rendered(*state, *room, r, old(bb)@, final(bb)@),
{
    let ghost at_start = bb@;
    let title = |bb: &mut BBCode| ensures final(bb)@ == old(bb)@ + room.name@, {
        bb.text(room.name.as_str());
    };
    bb.tag("room-name", title);
    assert(bb@ =~= at_start + room_head(*room));
    let ghost start = bb@;
    let keys = room.pokemon.keys();
    let ghost order = keys@.map_values(|s: String| s@);
    let mut i: usize = 0;
    while i < keys.len()
        invariant
            i <= keys@.len(),
            order == keys@.map_values(|s: String| s@),
            is_key_order(order, room.pokemon@.dom()),
            start == at_start + room_head(*room),
            at_start == old(bb)@,
            bb@ == start + members_markup(*state, *room, order.take(i as int)),
            forall|j: int| 0 <= j < i ==> member_ok(*state, #[trigger] room.pokemon@[order[j]]),
        decreases keys@.len() - i,
    {
        assert(order.to_set().contains(order[i as int]));
        let member = match room.pokemon.get(keys[i].as_str()) {
            Ok(member) => member,
            Err(e) => {
                return Err(e);
            },
        };
        let ghost before = bb@;
        match render_member(bb, state, member) {
            Ok(()) => {},
            Err(e) => {
                assert(room_body_failed(*state, *room, e, at_start, bb@)) by {
                    assert(bb@ =~= at_start + room_head(*room) + members_markup(
                        *state,
                        *room,
                        order.take(i as int),
                    ) + failed_member_markup(*state, room.pokemon@[order[i as int]]));
                }
                assert(room.pokemon@.contains_key(order[i as int]));
                assert(!member_ok(*state, room.pokemon@[order[i as int]]));
                return Err(e);
            },
        }
        assert(order.take(i + 1).drop_last() =~= order.take(i as int));
        assert(order.take(i + 1).last() == order[i as int]);
        assert(bb@ =~= start + members_markup(*state, *room, order.take(i + 1)));
        i = i + 1;
    }
    proof {
        assert(order.take(keys@.len() as int) =~= order);
        assert forall|k: Seq<char>| #[trigger]
            room.pokemon@.contains_key(k) implies member_ok(*state, room.pokemon@[k]) by {
            assert(order.to_set().contains(k));
            let j = choose|j: int| 0 <= j < order.len() && order[j] == k;
            assert(member_ok(*state, room.pokemon@[order[j]]));
        }
        assert(bb@ =~= at_start + room_body(*state, *room, order));
    }
    Ok(())
}

fn render_member(bb: &mut BBCode, state: &State, member: &RoomMember) -> (r: Rendered)
    ensures
        match r {
            Ok(()) => member_ok(*state, *member) && final(bb)@ == old(bb)@ + pokemon_markup(
                *state,
                state.src.pokemon@[member.key@],
            ),
            Err(e) => !member_ok(*state, *member) && member_fails_with(*state, *member, e)
                && final(bb)@ == old(bb)@ + failed_member_markup(*state, *member),
        },
{
    let pokemon = match state.src.pokemon.get(member.key.as_str()) {
        Ok(pokemon) => pokemon,
        Err(e) => {
            assert(bb@ =~= bb@ + failed_member_markup(*state, *member));
            return Err(e);
        },
    };
    let ghost before = bb@;
    let label = (|bb: &mut BBCode| -> (r: Rendered)
        ensures
            label_rendered(*state, *pokemon, r, old(bb)@, final(bb)@),
        { render_label(bb, state, pokemon) });
    let out = bb.tag_with("pokemon", &pokemon.name, label);
    let r: Rendered = match out {
        Ok(_) => Ok(()),
        Err(e) => Err(e),
    };
    proof {
        assert(exists|m: &mut BBCode, ret: Rendered|
            {
                &&& label.ensures((m,), ret)
                &&& (*m)@ == before + open_tag("pokemon"@, quoted_arg(pokemon.name@))
                &&& (r is Ok ==> ret is Ok)
                &&& (r is Err ==> ret == r)
                &&& bb@ == (*final(m))@ + close_tag("pokemon"@)
            });
        let (m, ret) = choose|m: &mut BBCode, ret: Rendered|
            {
                &&& label.ensures((m,), ret)
                &&& (*m)@ == before + open_tag("pokemon"@, quoted_arg(pokemon.name@))
                &&& (r is Ok ==> ret is Ok)
                &&& (r is Err ==> ret == r)
                &&& bb@ == (*final(m))@ + close_tag("pokemon"@)
            };
        if r is Ok {
            assert(bb@ =~= before + pokemon_markup(*state, *pokemon));
        } else {
            assert(bb@ =~= before + failed_member_markup(*state, *member));
        }
    }
    r
}

fn render_label(bb: &mut BBCode, state: &State, pokemon: &Pokemon) -> (r: Rendered)
    ensures
        label_rendered(*state, *pokemon, r, old(bb)@, final(bb)@),
{
    let growth = match state.growth_state(pokemon) {
        Ok(growth) => growth,
        Err(e) => {
            return Err(e);
        },
    };
    proof {
        let species = state.species@[pokemon.species.spec_from_key()];
        lemma_stage_species(
            growth,
            pokemon.growth,
            line_keys(species.line),
            species.key@,
            state.post_count,
        );
    }
    match growth.species_key() {
        Some(species_key) => {
            let species = match state.species.get(species_key.as_str()) {
                Ok(species) => species,
                Err(e) => {
                    return Err(e);
                },
            };
            bb.text(species.name.as_str());
        },
        None => {
            bb.text("egg");
        },
    }
    Ok(())
}

} // verus!
