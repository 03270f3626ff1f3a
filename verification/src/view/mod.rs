//! Rendering of the page: BBCode markup, inline CSS, asset addresses and units.
pub mod assets;
pub mod bbcode;
pub mod color;
pub mod css;
pub mod room;
pub mod unit;

use self::assets::{asset_url, room_asset};
use self::bbcode::{close_tag, open_tag, quoted_arg, BBCode};
use self::css::{declaration, declarations, Css};
use crate::error::Error;
use crate::model::line::line_keys;
use crate::model::pokemon::Pokemon;
use crate::model::room::{position_pairs, Room, RoomMember, RoomMemberPosition};
use crate::state::growth::growth_defined;
use crate::state::{growth_fails_with, State};
use crate::text::decimal;
use vstd::prelude::*;

verus! {

/// What rendering a part of the page gives: nothing, or why it failed.
pub type Rendered = Result<(), Error>;

/// The background of a shiny pokemon's sprite.
pub const SPARKLE: &'static str = "url('/images/sparkle.gif')";

/// `order` lists every key of `dom` exactly once.
pub open spec fn is_key_order(order: Seq<Seq<char>>, dom: Set<Seq<char>>) -> bool {
    order.no_duplicates() && order.to_set() == dom
}

/// The species that `pokemon` starts as was fetched, and its growth stage at
/// the state's post count is defined.
pub open spec fn growth_ok(state: State, pokemon: Pokemon) -> bool {
    let key = pokemon.species.spec_from_key();
    state.species@.contains_key(key) && growth_defined(
        pokemon.growth,
        line_keys(state.species@[key].line).len(),
        state.post_count,
    )
}

/// The placed pokemon exists and its growth stage can be told.
pub open spec fn placement_ok(state: State, member: RoomMember) -> bool {
    state.src.pokemon@.contains_key(member.key@) && growth_ok(
        state,
        state.src.pokemon@[member.key@],
    )
}

/// Every pokemon placed in the room can be rendered.
pub open spec fn room_ok(state: State, room: Room) -> bool {
    forall|k: Seq<char>| #[trigger]
        room.pokemon@.contains_key(k) ==> placement_ok(state, room.pokemon@[k])
}

/// Every room can be rendered.
pub open spec fn rooms_ok(state: State) -> bool {
    forall|k: Seq<char>| #[trigger]
        state.src.rooms@.contains_key(k) ==> room_ok(state, state.src.rooms@[k])
}

/// The CSS declarations of a position: its two edges with pixel-less offsets.
pub open spec fn position_css(p: RoomMemberPosition) -> Seq<char> {
    declaration(position_pairs(p)[0].0, decimal(position_pairs(p)[0].1 as nat)) + declaration(
        position_pairs(p)[1].0,
        decimal(position_pairs(p)[1].1 as nat),
    )
}

/// The inline style of a placed sprite.
pub open spec fn sprite_css(member: RoomMember, shiny: bool) -> Seq<char> {
    declaration("position"@, "absolute"@) + (if member.flipped {
        declaration("transform"@, "scaleX(-1)"@)
    } else {
        Seq::empty()
    }) + (if shiny {
        declaration("background-image"@, SPARKLE@)
    } else {
        Seq::empty()
    }) + position_css(member.position)
}

/// The markup of one placed pokemon: a styled `div` with its name.
pub open spec fn placement_markup(pokemon: Pokemon, member: RoomMember) -> Seq<char> {
    open_tag("div"@, quoted_arg(sprite_css(member, pokemon.shiny))) + pokemon.name@ + close_tag(
        "div"@,
    )
}

/// The markup of the room's placements, in the given order of placement keys.
pub open spec fn placements_markup(state: State, room: Room, order: Seq<Seq<char>>) -> Seq<char>
    decreases order.len(),
{
    if order.len() == 0 {
        Seq::empty()
    } else {
        let member = room.pokemon@[order.last()];
        placements_markup(state, room, order.drop_last()) + placement_markup(
            state.src.pokemon@[member.key@],
            member,
        )
    }
}

/// The `div` of a placed pokemon: its style is `position:absolute;`, then
/// `transform:scaleX(-1);` exactly when the placement is flipped, then the
/// sparkle background exactly when the pokemon is shiny (each regardless of
/// the other), then the offsets of its position; it holds the pokemon's name.
pub proof fn lemma_placement_div(pokemon: Pokemon, member: RoomMember)
    ensures
        placement_markup(pokemon, member) == "[div=\"position:absolute;"@ + (if member.flipped {
            "transform:scaleX(-1);"@
        } else {
            Seq::empty()
        }) + (if pokemon.shiny {
            "background-image:url('/images/sparkle.gif');"@
        } else {
            Seq::empty()
        }) + position_css(member.position) + "\"]"@ + pokemon.name@ + "[/div]"@,
{
    reveal_strlit("[div=\"position:absolute;");
    reveal_strlit("transform:scaleX(-1);");
    reveal_strlit("background-image:url('/images/sparkle.gif');");
    reveal_strlit("\"]");
    reveal_strlit("[/div]");
    reveal_strlit("[");
    reveal_strlit("]");
    reveal_strlit("[/");
    reveal_strlit("div");
    reveal_strlit("=\"");
    reveal_strlit("\"");
    reveal_strlit("position");
    reveal_strlit(":");
    reveal_strlit("absolute");
    reveal_strlit(";");
    reveal_strlit("transform");
    reveal_strlit("scaleX(-1)");
    reveal_strlit("background-image");
    reveal_strlit("url('/images/sparkle.gif')");
    assert(placement_markup(pokemon, member) =~= "[div=\"position:absolute;"@ + (if member.flipped {
        "transform:scaleX(-1);"@
    } else {
        Seq::empty()
    }) + (if pokemon.shiny {
        "background-image:url('/images/sparkle.gif');"@
    } else {
        Seq::empty()
    }) + position_css(member.position) + "\"]"@ + pokemon.name@ + "[/div]"@);
}

/// The address of a room's background image.
pub open spec fn room_image(room: Room) -> Seq<char> {
    asset_url("rooms/"@ + room.key@ + ".png"@)
}

/// The tag of a room's background image.
pub open spec fn image_markup(room: Room) -> Seq<char> {
    open_tag("img"@, Seq::empty()) + room_image(room) + close_tag("img"@)
}

/// The content of a room's slide: its background image, then its placements.
pub open spec fn slide_body(state: State, room: Room, order: Seq<Seq<char>>) -> Seq<char> {
    image_markup(room) + placements_markup(state, room, order)
}

/// The slide of a room, titled with its name.
pub open spec fn slide_markup(state: State, room: Room, order: Seq<Seq<char>>) -> Seq<char> {
    open_tag("slide"@, quoted_arg(room.name@)) + slide_body(state, room, order) + close_tag(
        "slide"@,
    )
}

/// The slides of the rooms in the order `rooms`, each room's placements in
/// the matching order of `orders`.
pub open spec fn slides_markup(
    state: State,
    rooms: Seq<Seq<char>>,
    orders: Seq<Seq<Seq<char>>>,
) -> Seq<char>
    decreases rooms.len(),
{
    if rooms.len() == 0 {
        Seq::empty()
    } else {
        slides_markup(state, rooms.drop_last(), orders.drop_last()) + slide_markup(
            state,
            state.src.rooms@[rooms.last()],
            orders.last(),
        )
    }
}

/// `rooms` lists every room once and `orders` every room's placements once.
pub open spec fn is_page_order(state: State, rooms: Seq<Seq<char>>, orders: Seq<Seq<Seq<char>>>) -> bool {
    &&& is_key_order(rooms, state.src.rooms@.dom())
    &&& orders.len() == rooms.len()
    &&& forall|i: int|
        0 <= i < rooms.len() ==> is_key_order(
            #[trigger] orders[i],
            state.src.rooms@[rooms[i]].pokemon@.dom(),
        )
}

/// `after` is `before` followed by the slides of all rooms, in some order
/// of the rooms and of each room's placements.
pub open spec fn slides_written(state: State, before: Seq<char>, after: Seq<char>) -> bool {
    exists|rooms: Seq<Seq<char>>, orders: Seq<Seq<Seq<char>>>|
        is_page_order(state, rooms, orders) && after == before + slides_markup(
            state,
            rooms,
            orders,
        )
}

/// `after` is `before` followed by the slide content of `room`, its
/// placements in some order.
pub open spec fn slide_body_written(state: State, room: Room, before: Seq<char>, after: Seq<char>) -> bool {
    exists|order: Seq<Seq<char>>|
        is_key_order(order, room.pokemon@.dom()) && after == before + slide_body(state, room, order)
}

/// `e` is why the placement cannot be rendered: its pokemon is unknown
/// (`Error::UnknownEntry` with the pokemon's key), or the growth stage of that
/// pokemon cannot be told.
pub open spec fn placement_fails_with(state: State, member: RoomMember, e: Error) -> bool {
    if state.src.pokemon@.contains_key(member.key@) {
        growth_fails_with(state, state.src.pokemon@[member.key@], e)
    } else {
        e matches Error::UnknownEntry(k) && k@ == member.key@
    }
}

/// Writing a room's slide content from `before` to `after` stopped, failing
/// with `e`, at a placement that cannot be rendered: after the background
/// image, the placements before it, in some order of the room's placements,
/// were written, and nothing of the failing one.
pub open spec fn slide_body_failed(
    state: State,
    room: Room,
    e: Error,
    before: Seq<char>,
    after: Seq<char>,
) -> bool {
    exists|order: Seq<Seq<char>>, j: int|
        {
            &&& is_key_order(order, room.pokemon@.dom())
            &&& 0 <= j < order.len()
            &&& forall|l: int|
                0 <= l < j ==> placement_ok(state, #[trigger] room.pokemon@[order[l]])
            &&& placement_fails_with(state, room.pokemon@[order[j]], e)
            &&& after == before + image_markup(room) + placements_markup(state, room, order.take(j))
        }
}

/// Writing a room's slide from `before` to `after` failed with `e`: its
/// content stopped at a failing placement, and the slide tag was closed.
pub open spec fn slide_failed(
    state: State,
    room: Room,
    e: Error,
    before: Seq<char>,
    after: Seq<char>,
) -> bool {
    exists|mid: Seq<char>|
        slide_body_failed(state, room, e, before + open_tag("slide"@, quoted_arg(room.name@)), mid)
            && after == mid + close_tag("slide"@)
}

/// Writing the rooms' slides from `before` to `after` failed with `e`: in
/// some order of the rooms, the slides of the rooms before the failing one
/// were written whole, then the failing room's slide up to its failing
/// placement, and no slide after it.
pub open spec fn slides_failed(state: State, e: Error, before: Seq<char>, after: Seq<char>) -> bool {
    exists|rooms: Seq<Seq<char>>, orders: Seq<Seq<Seq<char>>>|
        {
            &&& is_key_order(rooms, state.src.rooms@.dom())
            &&& orders.len() < rooms.len()
            &&& forall|l: int|
                0 <= l < orders.len() ==> is_key_order(
                    #[trigger] orders[l],
                    state.src.rooms@[rooms[l]].pokemon@.dom(),
                ) && room_ok(state, state.src.rooms@[rooms[l]])
            &&& slide_failed(
                state,
                state.src.rooms@[rooms[orders.len() as int]],
                e,
                before + slides_markup(state, rooms.take(orders.len() as int), orders),
                after,
            )
        }
}

/// The outcome of rendering all rooms' slides from `before` to `after`: it
/// succeeds exactly when every room can be rendered, and then writes the
/// slides; otherwise it stops at the first placement that cannot be rendered.
pub open spec fn rooms_rendered(state: State, r: Rendered, before: Seq<char>, after: Seq<char>) -> bool {
    match r {
        Ok(()) => rooms_ok(state) && slides_written(state, before, after),
        Err(e) => !rooms_ok(state) && slides_failed(state, e, before, after),
    }
}

/// The outcome of rendering a room's slide content from `before` to `after`:
/// it succeeds exactly when every placement can be rendered, and then
/// writes the content; otherwise it stops at the first placement that cannot
/// be rendered.
pub open spec fn slide_body_rendered(
    state: State,
    room: Room,
    r: Rendered,
    before: Seq<char>,
    after: Seq<char>,
) -> bool {
    match r {
        Ok(()) => room_ok(state, room) && slide_body_written(state, room, before, after),
        Err(e) => !room_ok(state, room) && slide_body_failed(state, room, e, before, after),
    }
}

/// Renders the whole page: the rooms' slides inside a `tabs` tag. Fails as
/// rendering the rooms' slides fails, with the same error.
pub fn render(state: &State) -> (result: Result<String, Error>)
    ensures
        exists|r: Rendered, text: Seq<char>|
            {
                &&& rooms_rendered(*state, r, open_tag("tabs"@, Seq::empty()), text)
                &&& match (r, result) {
                    (Ok(()), Ok(s)) => s@ == text + close_tag("tabs"@),
                    (Err(e1), Err(e2)) => e1 == e2,
                    _ => false,
                }
            },
{
    let mut bb = BBCode::new();
    let body = (|bb: &mut BBCode| -> (r: Rendered)
        ensures
            rooms_rendered(*state, r, old(bb)@, final(bb)@),
        { render_room(bb, state) });
    let out = bb.tag("tabs", body);
    match out {
        Ok(_) => Ok(bb.as_text()),
        Err(e) => Err(e),
    }
}

/// Renders every room as a slide: its background image, then each placed
/// pokemon as a `div` positioned and styled by its placement. Fails when some
/// placed pokemon is unknown or its growth stage cannot be told; the slide
/// being written is then closed and no later room is written.
pub fn render_room(bb: &mut BBCode, state: &State) -> (r: Result<(), Error>)
    ensures
        rooms_rendered(*state, r, old(bb)@, final(bb)@),
{
    let keys = state.src.rooms.keys();
    let ghost room_order = keys@.map_values(|s: String| s@);
    let ghost mut orders: Seq<Seq<Seq<char>>> = Seq::empty();
    let ghost start = bb@;
    let mut i: usize = 0;
    while i < keys.len()
        invariant
            i <= keys@.len(),
            room_order == keys@.map_values(|s: String| s@),
            is_key_order(room_order, state.src.rooms@.dom()),
            start == old(bb)@,
            orders.len() == i,
            forall|j: int|
                0 <= j < i ==> is_key_order(
                    #[trigger] orders[j],
                    state.src.rooms@[room_order[j]].pokemon@.dom(),
                ),
            forall|j: int|
                0 <= j < i ==> room_ok(*state, #[trigger] state.src.rooms@[room_order[j]]),
            bb@ == start + slides_markup(*state, room_order.take(i as int), orders),
        decreases keys@.len() - i,
    {
        assert(room_order.to_set().contains(room_order[i as int]));
        let room = match state.src.rooms.get(keys[i].as_str()) {
            Ok(room) => room,
            Err(e) => {
                return Err(e);
            },
        };
        let ghost before = bb@;
        match render_slide(bb, state, room) {
            Ok(()) => {},
            Err(e) => {
                proof {
                    assert(slide_failed(
                        *state,
                        state.src.rooms@[room_order[orders.len() as int]],
                        e,
                        start + slides_markup(*state, room_order.take(orders.len() as int), orders),
                        bb@,
                    ));
                    assert(slides_failed(*state, e, start, bb@));
                }
                return Err(e);
            },
        }
        let ghost order = choose|order: Seq<Seq<char>>|
            is_key_order(order, room.pokemon@.dom()) && bb@ == before + slide_markup(
                *state,
                *room,
                order,
            );
        proof {
            let old_orders = orders;
            orders = orders.push(order);
            assert(room_order.take(i + 1).drop_last() =~= room_order.take(i as int));
            assert(orders.drop_last() =~= old_orders);
            assert(room_order.take(i + 1).last() == room_order[i as int]);
            assert(bb@ =~= start + slides_markup(*state, room_order.take(i + 1), orders));
        }
        i = i + 1;
    }
    assert(room_order.take(keys@.len() as int) =~= room_order);
    assert(is_page_order(*state, room_order, orders));
    assert(slides_written(*state, start, bb@));
    assert(rooms_ok(*state)) by {
        assert forall|k: Seq<char>| #[trigger]
            state.src.rooms@.contains_key(k) implies room_ok(*state, state.src.rooms@[k]) by {
            assert(room_order.to_set().contains(k));
        }
    }
    Ok(())
}

/// Writes a room's slide, titled with its name; on failure the slide is
/// closed after the placements written so far.
fn render_slide(bb: &mut BBCode, state: &State, room: &Room) -> (r: Rendered)
    ensures
        match r {
            Ok(()) => room_ok(*state, *room) && exists|order: Seq<Seq<char>>|
                is_key_order(order, room.pokemon@.dom()) && final(bb)@ == old(bb)@ + slide_markup(
                    *state,
                    *room,
                    order,
                ),
            Err(e) => !room_ok(*state, *room) && slide_failed(
                *state,
                *room,
                e,
                old(bb)@,
                final(bb)@,
            ),
        },
{
    let ghost before = bb@;
    let body = (|bb: &mut BBCode| -> (r: Rendered)
        ensures
            slide_body_rendered(*state, *room, r, old(bb)@, final(bb)@),
        { render_slide_body(bb, state, room) });
    let out = bb.tag_with("slide", &room.name, body);
    let r: Rendered = match out {
        Ok(_) => Ok(()),
        Err(e) => Err(e),
    };
    proof {
        assert(exists|m: &mut BBCode, ret: Rendered|
            {
                &&& body.ensures((m,), ret)
                &&& (*m)@ == before + open_tag("slide"@, quoted_arg(room.name@))
                &&& (r is Ok ==> ret is Ok)
                &&& (r is Err ==> ret == r)
                &&& bb@ == (*final(m))@ + close_tag("slide"@)
            });
        let (m, ret) = choose|m: &mut BBCode, ret: Rendered|
            {
                &&& body.ensures((m,), ret)
                &&& (*m)@ == before + open_tag("slide"@, quoted_arg(room.name@))
                &&& (r is Ok ==> ret is Ok)
                &&& (r is Err ==> ret == r)
                &&& bb@ == (*final(m))@ + close_tag("slide"@)
            };
        if r is Ok {
            let order = choose|order: Seq<Seq<char>>|
                is_key_order(order, room.pokemon@.dom()) && (*final(m))@ == (*m)@ + slide_body(
                    *state,
                    *room,
                    order,
                );
            assert(bb@ =~= before + slide_markup(*state, *room, order));
        }
    }
    r
}

/// Writes one placed pokemon: a `div` styled by its placement, holding its name.
fn render_placement(bb: &mut BBCode, pokemon: &Pokemon, member: &RoomMember)
    ensures
        final(bb)@ == old(bb)@ + placement_markup(*pokemon, *member),
{
    let pairs = member.position.unpack();
    let css = Css::new().set("position", "absolute").setopt(
        member.flipped,
        "transform",
        "scaleX(-1)",
    ).setopt(pokemon.shiny, "background-image", SPARKLE).extend(pairs);
    proof {
        reveal_with_fuel(declarations, 3);
        assert(pairs@.drop_last().drop_last() =~= Seq::<(&'static str, u16)>::empty());
        assert(css@ =~= sprite_css(*member, pokemon.shiny));
    }
    let ghost before = bb@;
    let name = |bb: &mut BBCode| ensures final(bb)@ == old(bb)@ + pokemon.name@, {
        bb.text(pokemon.name.as_str());
    };
    bb.tag_with("div", css, name);
    assert(bb@ =~= before + placement_markup(*pokemon, *member));
}

/// Writes a room's slide content: its background image, then every placed
/// pokemon in the room map's own order, stopping at the first one that
/// cannot be rendered.
fn render_slide_body(bb: &mut BBCode, state: &State, room: &Room) -> (r: Rendered)
    ensures
        slide_body_rendered(*state, *room, r, old(bb)@, final(bb)@),
{
    let ghost at_start = bb@;
    let image = |bb: &mut BBCode| ensures final(bb)@ == old(bb)@ + room_image(*room), {
        bb.text(room_asset(room.key.as_str()));
    };
    bb.tag("img", image);
    assert(bb@ =~= at_start + image_markup(*room));
    let ghost start = bb@;
    let keys = room.pokemon.keys();
    let ghost order = keys@.map_values(|s: String| s@);
    let mut i: usize = 0;
    while i < keys.len()
        invariant
            i <= keys@.len(),
            order == keys@.map_values(|s: String| s@),
            is_key_order(order, room.pokemon@.dom()),
            start == at_start + image_markup(*room),
            at_start == old(bb)@,
            bb@ == start + placements_markup(*state, *room, order.take(i as int)),
            forall|j: int|
                0 <= j < i ==> placement_ok(*state, #[trigger] room.pokemon@[order[j]]),
        decreases keys@.len() - i,
    {
        assert(order.to_set().contains(order[i as int]));
        let member = match room.pokemon.get(keys[i].as_str()) {
            Ok(member) => member,
            Err(e) => {
                return Err(e);
            },
        };
        let pokemon = match state.src.pokemon.get(member.key.as_str()) {
            Ok(pokemon) => pokemon,
            Err(e) => {
                assert(slide_body_failed(*state, *room, e, at_start, bb@)) by {
                    assert(placement_fails_with(*state, room.pokemon@[order[i as int]], e));
                }
                assert(room.pokemon@.contains_key(order[i as int]));
                assert(!placement_ok(*state, room.pokemon@[order[i as int]]));
                return Err(e);
            },
        };
        match state.growth_state(pokemon) {
            Ok(_) => {},
            Err(e) => {
                assert(slide_body_failed(*state, *room, e, at_start, bb@)) by {
                    assert(placement_fails_with(*state, room.pokemon@[order[i as int]], e));
                }
                assert(room.pokemon@.contains_key(order[i as int]));
                assert(!placement_ok(*state, room.pokemon@[order[i as int]]));
                return Err(e);
            },
        }
        let ghost before = bb@;
        render_placement(bb, pokemon, member);
        proof {
            assert(order.take(i + 1).drop_last() =~= order.take(i as int));
            assert(order.take(i + 1).last() == order[i as int]);
            assert(bb@ =~= start + placements_markup(*state, *room, order.take(i + 1)));
        }
        i = i + 1;
    }
    proof {
        assert(order.take(keys@.len() as int) =~= order);
        assert forall|k: Seq<char>| #[trigger]
            room.pokemon@.contains_key(k) implies placement_ok(*state, room.pokemon@[k]) by {
            assert(order.to_set().contains(k));
            let j = choose|j: int| 0 <= j < order.len() && order[j] == k;
            assert(placement_ok(*state, room.pokemon@[order[j]]));
        }
        assert(bb@ =~= at_start + slide_body(*state, *room, order));
    }
    Ok(())
}

} // verus!
