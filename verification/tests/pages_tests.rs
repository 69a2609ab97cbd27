use oeee_cafe_desktop::address::Address;
use oeee_cafe_desktop::contract::members_called;
use oeee_cafe_desktop::handoff::to_open;
use oeee_cafe_desktop::menu::{fallback, script_for, site_command_script};
use oeee_cafe_desktop::navigation::stays_in_app;
use oeee_cafe_desktop::notify::{destination, escape, toast_xml};
use oeee_cafe_desktop::offline::{gateway_answered, loader_for, loader_pairs};
use oeee_cafe_desktop::site::{for_tests, is_site, loader, pattern};

fn url(value: &str) -> Address {
    Address::from_text(value).unwrap()
}

fn site() -> Address {
    for_tests().unwrap()
}

#[test]
fn the_site_and_the_loader_stay_in_the_app() {
    let site = site();
    assert!(stays_in_app(&url("https://oeee.cafe/communities"), &site));
    assert!(stays_in_app(&url("tauri://localhost/index.html"), &site));
    assert!(stays_in_app(&url("http://tauri.localhost/index.html"), &site));
}

#[test]
fn everything_else_goes_to_the_browser() {
    let site = site();
    assert!(!stays_in_app(&url("https://example.com/"), &site));
    assert!(!stays_in_app(&url("http://oeee.cafe/"), &site));
    assert!(!stays_in_app(&url("https://oeee.cafe.example.com/"), &site));
    assert!(!stays_in_app(&url("mailto:someone@example.com"), &site));
}

#[test]
fn a_page_made_by_the_page_stays() {
    let site = site();
    assert!(stays_in_app(&url("about:blank"), &site));
    assert!(stays_in_app(&url("data:text/plain,hi"), &site));
    assert!(!stays_in_app(&url("ftp://oeee.cafe/"), &site));
}

#[test]
fn a_notification_goes_only_to_a_page_of_the_site() {
    assert_eq!(
        destination(&site(), "/@artist/9c881320").map(|u| u.as_str().to_string()),
        Some("https://oeee.cafe/@artist/9c881320".to_string())
    );
    assert!(destination(&site(), "https://evil.example/").is_none());
    assert!(destination(&site(), "//evil.example/").is_none());
    assert!(destination(&site(), "/\\evil.example/").is_none());
    assert!(destination(&site(), "javascript:alert(1)").is_none());
}

#[test]
fn the_words_are_text_in_the_toast() {
    let xml = toast_xml("<b>tandemaus</b>", "commented on \"오이\" & more");
    assert!(xml.contains("<text>&lt;b&gt;tandemaus&lt;/b&gt;</text>"));
    assert!(xml.contains("<text>commented on &quot;오이&quot; &amp; more</text>"));
}

#[test]
fn every_character_xml_gives_a_meaning_to_is_escaped() {
    assert_eq!(escape("a'b<>&\""), "a&apos;b&lt;&gt;&amp;&quot;");
    assert_eq!(
        toast_xml("", ""),
        "<toast><visual><binding template=\"ToastGeneric\"><text></text><text></text></binding></visual></toast>"
    );
}

#[test]
fn a_gateway_speaking_for_the_site_is_the_site_unreachable() {
    assert!(gateway_answered(502));
    assert!(gateway_answered(522));
    assert!(!gateway_answered(500));
    assert!(!gateway_answered(404));
    assert!(!gateway_answered(200));
}

#[test]
fn every_gateway_status() {
    for status in [502, 503, 504, 520, 521, 522, 523, 524, 525, 526, 527, 530] {
        assert!(gateway_answered(status), "{status}");
    }
    for status in [501, 505, 519, 528, 529, 531] {
        assert!(!gateway_answered(status), "{status}");
    }
}

#[test]
fn the_loader_goes_back_to_the_page() {
    let loader = url("http://tauri.localhost/index.html?site=https%3A%2F%2Foeee.cafe%2F");
    let back = loader_for(&loader, &url("https://oeee.cafe/communities?page=2"));
    let back = url::Url::parse(back.as_str()).unwrap();
    let query: Vec<(String, String)> = back.query_pairs().into_owned().collect();
    assert_eq!(back.path(), "/index.html");
    assert_eq!(
        query,
        vec![
            ("site".into(), "https://oeee.cafe/".into()),
            ("page".into(), "https://oeee.cafe/communities?page=2".into()),
            ("offline".into(), "1".into()),
        ]
    );
}

#[test]
fn a_loader_told_no_site_goes_back_to_the_page_alone() {
    let pairs = [("other".to_string(), "x".to_string())];
    assert_eq!(
        loader_pairs(&pairs, "https://oeee.cafe/"),
        vec![
            ("page".to_string(), "https://oeee.cafe/".to_string()),
            ("offline".to_string(), "1".to_string()),
        ]
    );
    let pairs = [
        ("site".to_string(), "a".to_string()),
        ("site".to_string(), "b".to_string()),
    ];
    assert_eq!(loader_pairs(&pairs, "p")[0], ("site".to_string(), "a".to_string()));
}

#[test]
fn the_pattern_covers_the_site_and_nothing_else() {
    assert_eq!(pattern(&url("https://oeee.cafe/")), "https://oeee.cafe/*");
    assert_eq!(pattern(&url("http://127.0.0.1:8765/")), "http://127.0.0.1:8765/*");
}

#[test]
fn only_the_sites_own_pages_are_the_site() {
    let site = site();
    assert!(is_site(&url("https://oeee.cafe/draw"), &site));
    assert!(!is_site(&url("tauri://localhost/index.html"), &site));
    assert!(!is_site(&url("http://tauri.localhost/index.html"), &site));
    assert!(!is_site(&url("http://oeee.cafe/draw"), &site));
}

#[test]
fn an_opaque_address_is_not_even_itself() {
    let loader = url("tauri://localhost/index.html");
    assert!(!is_site(&loader, &loader));
    assert!(is_site(&site(), &site()));
}

#[test]
fn the_loader_is_told_the_site() {
    assert_eq!(loader(&site()), "index.html?site=https%3A%2F%2Foeee.cafe%2F");
    assert_eq!(
        loader(&url("https://oeee.test/a b")),
        "index.html?site=https%3A%2F%2Foeee.test%2Fa%2520b"
    );
}

#[test]
fn a_site_command_asks_the_page_and_falls_back_to_the_place() {
    let script = script_for("site:communities", &site()).unwrap();
    assert!(script.contains(r#"window.oeeeCommand("communities")"#));
    assert!(script.contains(r#"location.href = "https://oeee.cafe/communities""#));
}

#[test]
fn search_asks_the_page_and_falls_back_to_the_search_page() {
    let script = script_for("site:search", &site()).unwrap();
    assert!(script.contains(r#"window.oeeeCommand("search")"#));
    assert!(script.contains(r#"location.href = "https://oeee.cafe/search""#));
}

#[test]
fn a_command_that_is_not_a_place_only_asks() {
    let script = script_for("site:theme-dark", &site()).unwrap();
    assert!(script.contains(r#"window.oeeeCommand("theme-dark")"#));
    assert!(!script.contains("location.href"));
}

#[test]
fn page_commands_and_unknown_ids() {
    assert_eq!(script_for("page:back", &site()).as_deref(), Some("history.back();"));
    assert!(script_for("copy", &site()).is_none());
}

#[test]
fn every_page_command_and_place() {
    assert_eq!(script_for("page:forward", &site()).as_deref(), Some("history.forward();"));
    assert_eq!(script_for("page:reload", &site()).as_deref(), Some("location.reload();"));
    assert_eq!(fallback("drafts"), Some("/posts/drafts"));
    assert_eq!(fallback("about"), Some("/"));
    assert_eq!(fallback("theme-light"), None);
    assert_eq!(
        site_command_script("\"a\"", Some("\"b\"")),
        "if (!(window.oeeeCommand && window.oeeeCommand(\"a\"))) { location.href = \"b\"; }"
    );
    assert_eq!(
        site_command_script("\"a\"", None),
        "if (!(window.oeeeCommand && window.oeeeCommand(\"a\"))) {  }"
    );
}

#[test]
fn the_browser_opens_only_at_the_site() {
    assert_eq!(
        to_open(&site(), "https://oeee.cafe/auth/handoff/open?id=1").map(|u| u.as_str().to_string()),
        Some("https://oeee.cafe/auth/handoff/open?id=1".to_string())
    );
    assert!(to_open(&site(), "https://evil.example/").is_none());
    assert!(to_open(&site(), "not a url").is_none());
}

#[test]
fn the_scan_reads_a_path_to_its_end() {
    const APP: &str = "window.oeeeApp";
    let source = format!("{APP} && {APP}.store && {APP}.store.prices({{}}); {APP}.caption({{");
    assert_eq!(members_called(&source), ["store", "store.prices", "caption"]);
}

#[test]
fn the_scan_leaves_out_dots_around_a_path() {
    assert_eq!(members_called("window.oeeeApp..a.b.. x"), ["a.b"]);
    assert!(members_called("window.oeeeApp window.oeeeApp").is_empty());
    assert_eq!(members_called("window.oeeeAppwindow.oeeeApp.x"), ["window.oeeeApp.x", "x"]);
}

use oeee_cafe_desktop::navigation::{new_window_route, route, Route};

#[test]
fn a_replay_goes_nowhere_and_sign_ins_are_carried_out() {
    assert_eq!(route(true, true, true, true), Route::Nowhere);
    assert_eq!(route(false, true, true, true), Route::SteamSignIn);
    assert_eq!(route(false, false, true, true), Route::Handoff);
    assert_eq!(route(false, false, false, true), Route::Window);
    assert_eq!(route(false, false, false, false), Route::Browser);
}

#[test]
fn no_second_window_is_opened() {
    assert_eq!(new_window_route(true, true), Route::Nowhere);
    assert_eq!(new_window_route(false, true), Route::Window);
    assert_eq!(new_window_route(false, false), Route::Browser);
}

use oeee_cafe_desktop::menu::{accelerator, bar, themes, Entry, Keys, Label, Standard};

#[test]
fn every_command_of_the_bar_has_its_keys() {
    let menus = bar();
    assert_eq!(menus.len(), 6);
    let titles: Vec<Option<Label>> = menus.iter().map(|m| m.title).collect();
    assert_eq!(
        titles,
        vec![None, Some(Label::File), Some(Label::Edit), Some(Label::View), Some(Label::Window), Some(Label::Help)]
    );
    assert_eq!(
        menus[2].entries[8],
        Entry::Site { name: "search", label: Label::Search, keys: Some(Keys { shift: false, key: 'F' }) }
    );
    assert_eq!(menus[0].entries[10], Entry::Standard(Standard::Quit, Label::Quit));
    assert_eq!(menus[3].entries.len(), 17);
    assert_eq!(menus[3].entries[14], Entry::Themes);
    assert_eq!(accelerator(Keys { shift: false, key: ',' }), "CmdOrCtrl+,");
    assert_eq!(accelerator(Keys { shift: true, key: 'N' }), "CmdOrCtrl+Shift+N");
}

#[test]
fn every_item_of_the_bar_is_answered() {
    let site = for_tests().unwrap();
    let mut entries: Vec<Entry> = bar().into_iter().flat_map(|m| m.entries).collect();
    entries.extend(themes());
    for entry in entries {
        match entry.id() {
            Some(id) => assert!(script_for(&id, &site).is_some(), "{id}"),
            None => assert!(matches!(entry, Entry::Standard(..) | Entry::Separator | Entry::Themes)),
        }
    }
    assert_eq!(
        Entry::Page { name: "back", label: Label::Back, keys: Keys { shift: false, key: '[' } }.id().as_deref(),
        Some("page:back")
    );
}

use oeee_cafe_desktop::offline::{loader_address, sent_back};

#[test]
fn only_a_page_of_the_site_is_sent_back_to_the_loader() {
    let site = for_tests().unwrap();
    let loader = loader_address("index.html?site=https%3A%2F%2Foeee.cafe%2F").unwrap();
    assert_eq!(loader.as_str(), "http://tauri.localhost/index.html?site=https%3A%2F%2Foeee.cafe%2F");
    let back = sent_back("https://oeee.cafe/communities", &site, &loader).unwrap();
    assert_eq!(
        back.as_str(),
        "http://tauri.localhost/index.html?site=https%3A%2F%2Foeee.cafe%2F&page=https%3A%2F%2Foeee.cafe%2Fcommunities&offline=1"
    );
    assert!(sent_back("https://example.com/", &site, &loader).is_none());
    assert!(sent_back("not an address", &site, &loader).is_none());
}

use oeee_cafe_desktop::site::from_setting;

#[test]
fn a_development_build_opens_where_it_is_set_to() {
    assert_eq!(from_setting(Some("https://oeee.test/")).unwrap().as_str(), "https://oeee.test/");
    assert_eq!(from_setting(Some("not an address")).unwrap().as_str(), "https://oeee.cafe/");
    assert_eq!(from_setting(None).unwrap().as_str(), "https://oeee.cafe/");
}

#[test]
fn the_toast_reads_back_the_words_it_was_sent() {
    let words = "Tom & Jerry's <b>\"new\"</b> &amp; more";
    let escaped = escape(words);
    assert!(!escaped.contains(['<', '>', '"', '\'']));
    for (at, _) in escaped.match_indices('&') {
        let tail = &escaped[at..];
        assert!(["&amp;", "&lt;", "&gt;", "&quot;", "&apos;"].iter().any(|e| tail.starts_with(e)), "{tail}");
    }
    let read = escaped
        .replace("&lt;", "<")
        .replace("&gt;", ">")
        .replace("&quot;", "\"")
        .replace("&apos;", "'")
        .replace("&amp;", "&");
    assert_eq!(read, words);
}
