use vppmake::error::Error;
use vppmake::text::to_text;
use vppmake::view::assets::{egg_asset, pokemon_asset, room_asset, type_icon_asset, BASE};
use vppmake::view::bbcode::BBCode;
use vppmake::view::css::Css;
use vppmake::view::unit::{absolute, Px};
use vppmake::view::{color, unit};

#[test]
fn css_set_setopt_extend() {
    let css = Css::new()
        .set("position", "absolute")
        .setopt(true, "transform", "scaleX(-1)")
        .setopt(false, "background-image", "none")
        .extend([("top", 10u16), ("left", 20u16)]);
    assert_eq!(to_text(&css), "position:absolute;transform:scaleX(-1);top:10;left:20;");
}

#[test]
fn css_empty() {
    assert_eq!(to_text(&Css::new()), "");
}

#[test]
fn css_extend_is_repeated_set() {
    let a = Css::new().extend([("a", "1"), ("b", "2")]);
    let b = Css::new().set("a", "1").set("b", "2");
    assert_eq!(to_text(&a), to_text(&b));
}

#[test]
fn css_extend_with_pixels() {
    let css = Css::new().extend(absolute([("bottom", 0), ("right", 65535)]));
    assert_eq!(to_text(&css), "bottom:0px;right:65535px;");
}

#[test]
fn bbcode_tag_and_text() {
    let mut bb = BBCode::new();
    bb.tag("b", |bb: &mut BBCode| {
        bb.text("bold").text(" text");
    });
    assert_eq!(bb.as_text(), "[b]bold text[/b]");
}

#[test]
fn bbcode_tag_with_quoted_and_unquoted() {
    let mut bb = BBCode::new();
    bb.tag_with("url", "http://a", |bb: &mut BBCode| {
        bb.text("link");
    });
    bb.tag_with_unquoted("size", 12u16, |bb: &mut BBCode| {
        bb.text("big");
    });
    assert_eq!(bb.as_text(), "[url=\"http://a\"]link[/url][size=12]big[/size]");
}

#[test]
fn bbcode_tag_with_multi() {
    let mut bb = BBCode::new();
    bb.tag_with_multi("img", (("w", "10"), ("h", 20u16)), |_bb: &mut BBCode| {});
    assert_eq!(bb.as_text(), "[img w=\"10\" h=\"20\"][/img]");
}

#[test]
fn bbcode_nested_tags() {
    let mut bb = BBCode::new();
    bb.tag("a", |bb: &mut BBCode| {
        bb.tag("b", |bb: &mut BBCode| {
            bb.text("x");
        });
    });
    assert_eq!(bb.as_text(), "[a][b]x[/b][/a]");
}

#[test]
fn bbcode_failing_callback_closes_tag_and_returns_error() {
    let mut bb = BBCode::new();
    let r = bb.tag("x", |bb: &mut BBCode| -> Result<(), Error> {
        bb.text("partial");
        Err(Error::NoTypes)
    });
    assert!(matches!(r, Err(Error::NoTypes)));
    assert_eq!(bb.as_text(), "[x]partial[/x]");
    let ok = bb.tag("y", |_bb: &mut BBCode| -> Result<(), Error> { Ok(()) });
    match ok {
        Ok(b) => {
            b.text("!");
        }
        Err(_) => panic!("the callback succeeded"),
    }
    assert_eq!(bb.as_text(), "[x]partial[/x][y][/y]!");
}

#[test]
fn bbcode_tag_hands_back_builder() {
    let mut bb = BBCode::new();
    bb.tag("tabs", |bb: &mut BBCode| {
        bb.tag("i", |bb: &mut BBCode| {
            bb.text("x");
        });
        bb.text("y");
    })
    .text("z");
    assert_eq!(bb.as_text(), "[tabs][i]x[/i]y[/tabs]z");
}

#[test]
fn bbcode_tag_variants_hand_back_builder() {
    let mut bb = BBCode::new();
    bb.tag_with("url", "x.com", |bb: &mut BBCode| {
        bb.text("site");
    })
    .tag_with_unquoted("size", 5u16, |_bb: &mut BBCode| {})
    .tag_with_multi("img", (("w", 10u16), ("h", 20u16)), |bb: &mut BBCode| {
        bb.text("u");
    });
    assert_eq!(
        bb.as_text(),
        "[url=\"x.com\"]site[/url][size=5][/size][img w=\"10\" h=\"20\"]u[/img]"
    );
}

#[test]
fn assets_addresses() {
    assert_eq!(egg_asset(), format!("{BASE}pokemon/egg.png"));
    assert_eq!(
        pokemon_asset("p1", "pikachu"),
        format!("{BASE}pokemon/p1-pikachu.png")
    );
    assert_eq!(room_asset("garden"), format!("{BASE}rooms/garden.png"));
    assert_eq!(type_icon_asset("fire"), format!("{BASE}types/icons/fire.svg"));
    assert!(BASE.starts_with("https://"));
}

#[test]
fn colors() {
    assert_eq!(color::color([255, 0, 16]), "rgb(255, 0, 16)");
    assert_eq!(unit::color([1, 22, 103]), "rgb(1, 22, 103)");
}

#[test]
fn pixels() {
    let [(a, av), (b, bv)] = absolute([("top", 12), ("left", 0)]);
    assert_eq!((a, b), ("top", "left"));
    assert_eq!(to_text(&av), "12px");
    assert_eq!(to_text(&bv), "0px");
    assert_eq!(to_text(&Px(100)), "100px");
}

#[test]
fn decimal_text() {
    assert_eq!(to_text(&0u16), "0");
    assert_eq!(to_text(&9u16), "9");
    assert_eq!(to_text(&10u16), "10");
    assert_eq!(to_text(&65535u16), "65535");
    assert_eq!(to_text(&255u8), "255");
}

#[test]
fn bbcode_text_takes_chars_and_integers() {
    let mut bb = BBCode::new();
    bb.text("a").text(1).text('b');
    assert_eq!(bb.as_text(), "a1b");
    let name = String::from("c");
    bb.text(&&"d").text(&name).text(&7u8).text(&-3i64);
    assert_eq!(bb.as_text(), "a1bdc7-3");
}

#[test]
fn text_of_every_integer_type() {
    assert_eq!(to_text(&-128i8), "-128");
    assert_eq!(to_text(&i16::MIN), i16::MIN.to_string());
    assert_eq!(to_text(&-7i32), "-7");
    assert_eq!(to_text(&0i64), "0");
    assert_eq!(to_text(&i128::MIN), i128::MIN.to_string());
    assert_eq!(to_text(&i128::MAX), i128::MAX.to_string());
    assert_eq!(to_text(&-42isize), "-42");
    assert_eq!(to_text(&u32::MAX), u32::MAX.to_string());
    assert_eq!(to_text(&u64::MAX), u64::MAX.to_string());
    assert_eq!(to_text(&u128::MAX), u128::MAX.to_string());
    assert_eq!(to_text(&1234usize), "1234");
    assert_eq!(to_text(&'é'), "é");
}
