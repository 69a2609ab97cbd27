use oeee_cafe_desktop::chrome::{background, hex_colour, user_agent, Color, Ground, Theme};

const EDGE: &str = "Mozilla/5.0 (Windows NT 10.0; Win64; x64) AppleWebKit/537.36 (KHTML, like Gecko) Chrome/140.0.0.0 Safari/537.36 Edg/140.0.0.0";

#[test]
fn the_app_names_itself_once_after_the_webviews_own() {
    let edge = EDGE;
    let named = user_agent(edge, None);
    assert_eq!(named, format!("{edge} OeeeCafe/windows"));
    assert_eq!(user_agent(&named, None), named);
}

#[test]
fn a_build_that_sells_names_its_store_after_the_app() {
    let edge = EDGE;
    let named = user_agent(edge, Some("steam"));
    assert_eq!(named, format!("{edge} OeeeCafe/windows store/steam"));
    assert_eq!(user_agent(&named, Some("steam")), named);
    assert_eq!(
        user_agent(edge, Some("microsoft")),
        format!("{edge} OeeeCafe/windows store/microsoft")
    );
}

#[test]
fn another_apps_name_counts_only_as_a_part_of_its_own() {
    assert_eq!(user_agent("OeeeCafe/ios", None), "OeeeCafe/ios");
    assert_eq!(user_agent("x NotOeeeCafe/ios", None), "x NotOeeeCafe/ios OeeeCafe/windows");
    assert_eq!(user_agent("", None), " OeeeCafe/windows");
}

#[test]
fn the_sites_ground_is_read_as_it_says_it() {
    assert_eq!(hex_colour("#ccccff"), Some(Color(0xcc, 0xcc, 0xff, 0xff)));
    assert_eq!(hex_colour(" #17172b "), Some(Color(0x17, 0x17, 0x2b, 0xff)));
    assert_eq!(hex_colour("#ccf"), Some(Color(0xcc, 0xcc, 0xff, 0xff)));
    assert_eq!(hex_colour("#17172b80"), Some(Color(0x17, 0x17, 0x2b, 0x80)));
}

#[test]
fn a_colour_that_is_not_hex_is_nothing() {
    for text in ["", "#", "ccccff", "#ccccf", "#gggggg", "rgb(204, 204, 255)", "lavender"] {
        assert_eq!(hex_colour(text), None, "{text}");
    }
}

#[test]
fn a_short_colour_with_alpha_doubles_each_digit() {
    assert_eq!(hex_colour("#CcF8"), Some(Color(0xcc, 0xcc, 0xff, 0x88)));
}

#[test]
fn until_the_site_says_the_ground_is_neos() {
    assert_eq!(background(Theme::Light), Color(0xcc, 0xcc, 0xff, 0xff));
    assert_eq!(background(Theme::Dark), Color(0x17, 0x17, 0x2b, 0xff));
    let ground = Ground::new();
    assert_eq!(ground.on_theme_changed(Theme::Dark), Some(Color(0x17, 0x17, 0x2b, 0xff)));
    assert_eq!(ground.paint_background(Some(Theme::Light)), Some(Color(0xcc, 0xcc, 0xff, 0xff)));
    assert_eq!(ground.paint_background(None), None);
}

#[test]
fn once_the_site_has_said_its_ground_it_holds() {
    let mut ground = Ground::new();
    assert_eq!(ground.paint_ground("#17172b"), Some(Color(0x17, 0x17, 0x2b, 0xff)));
    assert_eq!(ground.on_theme_changed(Theme::Light), None);
    assert_eq!(ground.paint_background(Some(Theme::Light)), Some(Color(0x17, 0x17, 0x2b, 0xff)));
    // A colour the app cannot read leaves what was said.
    assert_eq!(ground.paint_ground("lavender"), None);
    assert_eq!(ground.said_ground(), Some(Color(0x17, 0x17, 0x2b, 0xff)));
}

use oeee_cafe_desktop::chrome::{window_control, WindowControl};

#[test]
fn the_toolbars_controls_ask_for_the_window() {
    assert_eq!(window_control("minimize"), Some(WindowControl::Minimize));
    assert_eq!(window_control("maximize"), Some(WindowControl::Maximize));
    assert_eq!(window_control("close"), Some(WindowControl::Close));
    assert_eq!(window_control("drag"), None);
    assert_eq!(window_control("Close"), None);
}
