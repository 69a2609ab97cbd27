use oeee_cafe_desktop::badge::parse;
use oeee_cafe_desktop::bridge::{reactions, speaks, Message, Page, Place, Reaction, Theme, MOST};
use oeee_cafe_desktop::words::Words;

#[test]
fn the_count_is_a_number_or_none() {
    assert_eq!(parse("3"), 3);
    assert_eq!(parse(" 12 "), 12);
    assert_eq!(parse("0"), 0);
    assert_eq!(parse("-4"), 0);
    assert_eq!(parse("null"), 0);
    assert_eq!(parse("\"x\""), 0);
}

#[test]
fn a_count_past_the_largest_number_is_none() {
    assert_eq!(parse("9223372036854775807"), i64::MAX);
    assert_eq!(parse("9223372036854775808"), 0);
    assert_eq!(parse("99999999999999999999"), 0);
    assert_eq!(parse("+7"), 7);
    assert_eq!(parse("+"), 0);
    assert_eq!(parse(""), 0);
    assert_eq!(parse("\t\n42\u{3000}"), 42);
    assert_eq!(parse("4 2"), 0);
}

#[test]
fn the_stand_in_is_never_bigger_than_a_button() {
    assert_eq!(
        Place { x: -5, y: -5, width: 5000, height: 5000 }.bounded(),
        Some(Place { x: 0, y: 0, width: MOST, height: MOST })
    );
    assert_eq!(Place { x: 0, y: 0, width: 0, height: 52 }.bounded(), None);
}

#[test]
fn a_bounded_place_stays_as_it_is() {
    let place = Place { x: 1782, y: 0, width: 69, height: 78 };
    assert_eq!(place.bounded(), Some(place));
    assert_eq!(place.bounded().unwrap().bounded(), Some(place));
    assert_eq!(Place { x: 3, y: 4, width: 10, height: -1 }.bounded(), None);
}

#[test]
fn only_the_first_version_is_read() {
    assert!(speaks(1));
    assert!(!speaks(2));
    assert!(!speaks(0));
}

#[test]
fn a_page_nobody_is_signed_in_on_clears_the_count() {
    let page = Page { signed_in: Some(false), ..Page::default() };
    assert_eq!(reactions(Message::Page(page), false, false), vec![Reaction::Badge(0)]);
    let page = Page { signed_in: Some(false), ..Page::default() };
    assert_eq!(
        reactions(Message::Page(page), true, false),
        vec![
            Reaction::Badge(0),
            Reaction::Presence(Page { signed_in: Some(false), ..Page::default() })
        ]
    );
    let page = Page { signed_in: Some(true), ..Page::default() };
    assert_eq!(reactions(Message::Page(page), false, false), vec![]);
}

#[test]
fn a_build_sells_through_one_store_at_most() {
    let products = || vec!["3456780".to_string()];
    assert_eq!(
        reactions(Message::Prices { products: products() }, true, true),
        vec![Reaction::SteamPrices(products())]
    );
    assert_eq!(
        reactions(Message::Prices { products: products() }, false, true),
        vec![Reaction::MicrosoftPrices(products())]
    );
    assert_eq!(reactions(Message::Prices { products: products() }, false, false), vec![]);
    assert_eq!(
        reactions(Message::Purchase { product: "9NBLGGH4R315".into() }, false, true),
        vec![Reaction::MicrosoftSell("9NBLGGH4R315".into())]
    );
    assert_eq!(
        reactions(Message::Purchase { product: "3456780".into() }, true, false),
        vec![Reaction::SteamStore("3456780".into())]
    );
}

#[test]
fn what_the_app_hears_it_acts_on() {
    assert_eq!(reactions(Message::Unread { count: 3 }, false, false), vec![Reaction::Badge(3)]);
    assert_eq!(
        reactions(Message::Theme(Theme { ground: Some("#17172b".into()) }), false, false),
        vec![Reaction::Ground("#17172b".into())]
    );
    assert_eq!(reactions(Message::Theme(Theme::default()), false, false), vec![]);
    assert_eq!(
        reactions(Message::Words(Words::default()), false, false),
        vec![Reaction::Hear(Words::default())]
    );
    assert_eq!(reactions(Message::SignIn, false, false), vec![Reaction::SignIn]);
    assert_eq!(reactions(Message::Other, true, true), vec![]);
    assert_eq!(
        reactions(Message::Caption { place: None }, false, false),
        vec![Reaction::Caption(None)]
    );
}

use oeee_cafe_desktop::snap::{show_script, Answer, CaptionMessage, Pointer, StandIn};

fn nothing() -> Answer {
    Answer { maximise_button: false, track_leaving: false, show: None, toggle: false }
}

#[test]
fn the_stand_in_says_it_is_the_maximise_button() {
    let mut stand_in = StandIn::new();
    let answer = stand_in.on_message(CaptionMessage::HitTest);
    assert!(answer.maximise_button);
    assert!(!answer.toggle);
    assert_eq!(answer.show, None);
}

#[test]
fn a_press_and_a_release_on_the_button_maximises() {
    let mut stand_in = StandIn::new();
    let moved = stand_in.on_message(CaptionMessage::PointerMoved);
    assert_eq!(
        moved,
        Answer { maximise_button: false, track_leaving: true, show: Some(Pointer::Hot), toggle: false }
    );
    assert_eq!(stand_in.on_message(CaptionMessage::PointerMoved), nothing());
    assert_eq!(
        stand_in.on_message(CaptionMessage::Pressed),
        Answer { maximise_button: false, track_leaving: false, show: Some(Pointer::Pressed), toggle: false }
    );
    assert_eq!(
        stand_in.on_message(CaptionMessage::Released),
        Answer { maximise_button: false, track_leaving: false, show: Some(Pointer::Hot), toggle: true }
    );
    assert_eq!(stand_in.on_message(CaptionMessage::Released), nothing());
}

#[test]
fn a_press_dragged_off_the_button_does_nothing() {
    let mut stand_in = StandIn::new();
    stand_in.on_message(CaptionMessage::PointerMoved);
    stand_in.on_message(CaptionMessage::Pressed);
    assert_eq!(
        stand_in.on_message(CaptionMessage::PointerLeft),
        Answer { maximise_button: false, track_leaving: false, show: Some(Pointer::Away), toggle: false }
    );
    assert_eq!(stand_in.on_message(CaptionMessage::Released), nothing());
}

#[test]
fn coming_back_pressed_shows_the_button_pressed() {
    let mut stand_in = StandIn::new();
    stand_in.on_message(CaptionMessage::Pressed);
    let moved = stand_in.on_message(CaptionMessage::PointerMoved);
    assert_eq!(moved.show, Some(Pointer::Pressed));
    assert!(moved.track_leaving);
}

#[test]
fn the_page_is_told_how_to_show_its_button() {
    assert_eq!(
        show_script(Pointer::Hot),
        "window.oeeeApp && window.oeeeApp.caption && window.oeeeApp.caption({pointer: \"hot\"})"
    );
    assert_eq!(
        show_script(Pointer::Away),
        "window.oeeeApp && window.oeeeApp.caption && window.oeeeApp.caption({pointer: \"\"})"
    );
}
