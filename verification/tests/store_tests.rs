use std::collections::BTreeMap;

use oeee_cafe_desktop::close_guard::{LeaveGuard, LeaveStep};
use oeee_cafe_desktop::dialogs::{leaves, DialogAnswer};
use oeee_cafe_desktop::macos::{confirm_leaving, leaving_buttons, QuitGuard, QuitReply};
use oeee_cafe_desktop::microsoft::{decimal, ticket_script as store_ticket_script, whole_ticket, Ticket};
use oeee_cafe_desktop::steam::{hex, presence_value, rich_presence, ticket_script};
use oeee_cafe_desktop::bridge::Page;
use oeee_cafe_desktop::store::{ended_script, prices_script, purchased_script, quoted, Ending};
use oeee_cafe_desktop::webview2::{failed, WebError};
use oeee_cafe_desktop::words::{Heard, Words};

#[test]
fn prices_are_a_map_of_product_to_price_quoted_as_javascript() {
    let prices = BTreeMap::from([
        ("3456780".to_string(), "₩5,500".to_string()),
        ("9NBLGGH4R315".to_string(), "\"$4.99\"".to_string()),
    ]);
    assert_eq!(
        prices_script(&prices),
        r#"window.oeeeApp && window.oeeeApp.store && window.oeeeApp.store.prices && window.oeeeApp.store.prices({"3456780":"₩5,500","9NBLGGH4R315":"\"$4.99\""});"#
    );
}

#[test]
fn proof_of_a_purchase_is_a_list_of_strings() {
    assert_eq!(
        purchased_script(&["1400abff"]),
        r#"window.oeeeApp && window.oeeeApp.store && window.oeeeApp.store.purchased(["1400abff"]);"#
    );
}

#[test]
fn a_press_that_ends_without_proof_says_how_in_the_contracts_words() {
    assert_eq!(
        ended_script(Ending::Cancelled),
        r#"window.oeeeApp && window.oeeeApp.store && window.oeeeApp.store.ended && window.oeeeApp.store.ended("cancelled");"#
    );
    assert!(ended_script(Ending::Failed).ends_with(r#".ended("failed");"#));
}

#[test]
fn a_string_cannot_close_its_own_quotes() {
    assert_eq!(quoted("a\"b\\c\n\u{1}"), "\"a\\\"b\\\\c\\n\\u0001\"");
    assert_eq!(purchased_script(&[]), "window.oeeeApp && window.oeeeApp.store && window.oeeeApp.store.purchased([]);");
    assert!(prices_script(&BTreeMap::new()).ends_with(".prices({});"));
}

fn page(activity: &str, community: Option<&str>, group: Option<&str>) -> Page {
    Page {
        presence: Some(activity.to_string()),
        community: community.map(str::to_string),
        group: group.map(str::to_string),
        ..Page::default()
    }
}

#[test]
fn a_page_says_what_the_player_is_doing() {
    let drawing = page("drawing", Some("오이카페 모에화"), None);
    assert_eq!(
        rich_presence(Some(&drawing)),
        [
            ("steam_display", Some("#DrawingIn".to_string())),
            ("community", Some("오이카페 모에화".to_string())),
            ("steam_player_group", None),
        ]
    );
    assert_eq!(
        rich_presence(Some(&page("relaying", None, None)))[0].1.as_deref(),
        Some("#Relaying")
    );
    let room = page("collaborating", None, Some("0123abcd"));
    assert_eq!(
        rich_presence(Some(&room)),
        [
            ("steam_display", Some("#Collaborating".to_string())),
            ("community", None),
            ("steam_player_group", Some("0123abcd".to_string())),
        ]
    );
}

#[test]
fn anything_else_is_browsing_and_clears_what_came_before() {
    for answer in [None, Some(page("something-new", Some("x"), Some("y")))] {
        assert_eq!(
            rich_presence(answer.as_ref()),
            [
                ("steam_display", Some("#Browsing".to_string())),
                ("community", None),
                ("steam_player_group", None),
            ]
        );
    }
    // A banner is not drawn in a community, whatever the page says.
    assert_eq!(rich_presence(Some(&page("drawing-banner", Some("x"), None)))[1].1, None);
}

#[test]
fn a_community_of_only_nuls_is_none() {
    assert_eq!(
        rich_presence(Some(&page("drawing", Some("\0\0"), None))),
        [
            ("steam_display", Some("#Drawing".to_string())),
            ("community", None),
            ("steam_player_group", None),
        ]
    );
    assert_eq!(
        rich_presence(Some(&page("watching-replay", None, None)))[0].1.as_deref(),
        Some("#WatchingReplay")
    );
}

#[test]
fn a_long_name_is_cut_where_a_character_ends() {
    let long = "가".repeat(200); // 600 bytes
    let cut = presence_value(&long);
    assert!(cut.len() <= 256);
    assert_eq!(cut, "가".repeat(85));
    assert_eq!(presence_value("a\0b"), "ab");
}

#[test]
fn a_name_of_exactly_the_room_is_kept_whole() {
    let full = "a".repeat(256);
    assert_eq!(presence_value(&full), full);
    assert_eq!(presence_value(&"a".repeat(300)), full);
    assert_eq!(presence_value(&format!("{}😀", "a".repeat(253))), "a".repeat(253));
}

#[test]
fn a_ticket_is_hex() {
    assert_eq!(hex(&[0x14, 0x00, 0xab, 0xff]), "1400abff");
    assert_eq!(hex(&[]), "");
}

#[test]
fn a_ticket_reaches_the_page_quoted_as_javascript() {
    assert_eq!(
        ticket_script(Some("14\"00ab")),
        r#"window.oeeeApp && window.oeeeApp.steam && window.oeeeApp.steam.ticket("14\"00ab");"#
    );
    assert!(ticket_script(None).ends_with(".ticket(null);"));
}

#[test]
fn the_ticket_is_asked_for_and_answered_in_the_apps_own_event() {
    let script = store_ticket_script(7);
    assert!(script.contains(r#"event: "oeee-store-ticket", payload: { id: 7, answer: answer || null }"#));
    assert!(script.contains("store.ticket()"));
    assert!(script.contains(r#"typeof store.ticket !== "function") return reply(null)"#));
}

#[test]
fn a_number_is_written_in_decimal() {
    assert_eq!(decimal(0), "0");
    assert_eq!(decimal(7), "7");
    assert_eq!(decimal(1234567890), "1234567890");
    assert_eq!(decimal(u64::MAX), u64::MAX.to_string());
}

#[test]
fn half_a_ticket_is_none() {
    assert_eq!(
        whole_ticket("eyJ0".into(), "0f3c".into()),
        Some(Ticket { ticket: "eyJ0".into(), user: "0f3c".into() })
    );
    assert_eq!(whole_ticket("".into(), "0f3c".into()), None);
    assert_eq!(whole_ticket("eyJ0".into(), "".into()), None);
}

#[test]
fn only_leave_leaves() {
    let words = Words::default();
    let leave = words.leave.as_str();
    assert!(leaves(&DialogAnswer::Custom(leave.into()), leave));
    assert!(!leaves(&DialogAnswer::Custom(words.stay.clone()), leave));
    assert!(!leaves(&DialogAnswer::Cancel, leave));
}

#[test]
fn the_words_are_the_last_a_page_sent() {
    let mut heard = Heard::new();
    assert_eq!(heard.words(), Words::default());
    assert_eq!(heard.words().leave, "Leave");
    let korean = Words { leave: "떠나기".into(), ..Words::default() };
    heard.heard(korean.clone());
    assert_eq!(heard.words(), korean);
    assert_eq!(heard.words().stay, Words::default().stay);
}

#[test]
fn only_the_second_button_leaves_on_a_mac() {
    let buttons = leaving_buttons(&Words::default());
    assert_eq!(buttons, ["Stay".to_string(), "Leave".to_string()]);
    assert!(confirm_leaving(1));
    assert!(!confirm_leaving(0));
    assert!(!confirm_leaving(2));
}

#[test]
fn a_quit_the_page_agreed_to_goes_now() {
    let mut guard = QuitGuard::new();
    assert_eq!(guard.should_terminate(true), QuitReply::Cancel);
    assert_eq!(guard.should_terminate(false), QuitReply::Now);
    guard.agree();
    assert_eq!(guard.should_terminate(true), QuitReply::Now);
}

#[test]
fn closing_over_a_drawing_asks_once_and_goes_only_on_leave() {
    let mut guard = LeaveGuard::new();
    assert_eq!(guard.close_requested(true), LeaveStep::AskPage);
    assert_eq!(guard.close_requested(true), LeaveStep::AlreadyAsking);
    assert_eq!(guard.page_answered("true"), LeaveStep::AskPlayer);
    assert_eq!(guard.close_requested(true), LeaveStep::AlreadyAsking);
    assert_eq!(guard.player_answered(false), LeaveStep::Stay);
    assert_eq!(guard.close_requested(true), LeaveStep::AskPage);
    assert_eq!(guard.page_answered("false"), LeaveStep::Go);
    assert_eq!(guard.close_requested(false), LeaveStep::Go);
    assert_eq!(guard.close_requested(true), LeaveStep::AskPage);
    assert_eq!(guard.page_unreachable(), LeaveStep::Close);
    assert_eq!(guard.close_requested(true), LeaveStep::AskPage);
    assert_eq!(guard.page_answered("true"), LeaveStep::AskPlayer);
    assert_eq!(guard.player_answered(true), LeaveStep::Go);
}

#[test]
fn no_answer_is_unreachable() {
    assert!(failed(false, WebError::CannotConnect, 0));
    assert!(failed(false, WebError::Timeout, 0));
}

#[test]
fn a_gateway_answering_is_unreachable() {
    assert!(failed(false, WebError::Unknown, 502));
    assert!(failed(true, WebError::Unknown, 522));
}

#[test]
fn the_site_answering_or_a_stopped_navigation_is_not() {
    assert!(!failed(true, WebError::Unknown, 200));
    assert!(!failed(false, WebError::Unknown, 404));
    assert!(!failed(false, WebError::Unknown, 500));
    // A link handed to the browser, or a page the player chose to stay on.
    assert!(!failed(false, WebError::OperationCanceled, 0));
    assert!(!failed(true, WebError::Unknown, -1));
    assert!(!failed(true, WebError::Unknown, 70000));
}

use oeee_cafe_desktop::dialogs::Question;
use oeee_cafe_desktop::microsoft::{after_purchase, proof_script, AfterPurchase, PurchaseStatus};
use oeee_cafe_desktop::steam::{ticket_of, web_ticket, EMPTY_TICKET};
use oeee_cafe_desktop::waiting::Waiting;
use oeee_cafe_desktop::webview2::{question_for, ScriptDialog};

#[test]
fn the_pages_dialogs_are_asked_as_the_systems() {
    assert_eq!(question_for(ScriptDialog::Alert, "hi".to_string()), Some(Question::Alert("hi".to_string())));
    assert_eq!(question_for(ScriptDialog::Confirm, "ok?".to_string()), Some(Question::Confirm("ok?".to_string())));
    assert_eq!(question_for(ScriptDialog::BeforeUnload, String::new()), Some(Question::Leave));
    assert_eq!(question_for(ScriptDialog::Prompt, "name?".to_string()), None);
}

#[test]
fn an_answer_reaches_the_question_it_names_once() {
    let mut waiting = Waiting::new();
    waiting.wait(1, "first");
    waiting.wait(2, "second");
    assert_eq!(waiting.answered(3), None);
    assert_eq!(waiting.answered(2), Some("second"));
    assert_eq!(waiting.answered(2), None);
    assert_eq!(waiting.answered(1), Some("first"));
}

#[test]
fn only_a_purchase_the_player_owns_is_proved() {
    assert_eq!(after_purchase(PurchaseStatus::Succeeded), AfterPurchase::Prove);
    assert_eq!(after_purchase(PurchaseStatus::AlreadyPurchased), AfterPurchase::Prove);
    assert_eq!(after_purchase(PurchaseStatus::NotPurchased), AfterPurchase::Nothing);
    assert_eq!(after_purchase(PurchaseStatus::Failed(3)), AfterPurchase::Failed(3));
}

#[test]
fn a_key_is_handed_to_the_page_and_an_empty_one_is_not() {
    assert_eq!(
        proof_script("eyJr\"ey").as_deref(),
        Some(r#"window.oeeeApp && window.oeeeApp.store && window.oeeeApp.store.purchased(["eyJr\"ey"]);"#)
    );
    assert_eq!(proof_script(""), None);
}

#[test]
fn a_steam_ticket_is_as_long_as_steam_says() {
    assert_eq!(ticket_of(&[1, 2, 3, 4], 2), vec![1, 2]);
    assert_eq!(ticket_of(&[1, 2, 3, 4], 4), vec![1, 2, 3, 4]);
    assert_eq!(ticket_of(&[1, 2], 3), Vec::<u8>::new());
    assert_eq!(ticket_of(&[1, 2], -1), Vec::<u8>::new());
}

#[test]
fn an_empty_steam_ticket_is_no_ticket() {
    assert_eq!(web_ticket(Ok(vec![0x14, 0xab])), Ok("14ab".to_string()));
    assert_eq!(web_ticket(Ok(vec![])), Err(EMPTY_TICKET.to_string()));
    assert_eq!(web_ticket(Err("k_EResultFail".to_string())), Err("k_EResultFail".to_string()));
}

use oeee_cafe_desktop::macos::{button_pressed, confirmed};

#[test]
fn the_first_button_is_ok_and_the_default() {
    assert_eq!(button_pressed(1000, 1000), 0);
    assert_eq!(button_pressed(1001, 1000), 1);
    assert_eq!(button_pressed(999, 1000), 0);
    assert!(confirmed(button_pressed(1000, 1000)));
    assert!(!confirmed(button_pressed(1001, 1000)));
}

use oeee_cafe_desktop::microsoft::priced;

#[test]
fn a_product_the_store_does_not_price_is_left_out() {
    let products = vec!["9NSUPPORTER".to_string(), "9NUNKNOWN".to_string(), "9NFREE".to_string()];
    let prices = vec![Some("₩5,500".to_string()), None, Some(String::new())];
    assert_eq!(priced(products, prices), vec![("9NSUPPORTER".to_string(), "₩5,500".to_string())]);
    assert_eq!(priced(vec![], vec![]), vec![]);
}

use oeee_cafe_desktop::webview2::wide;

#[test]
fn a_copied_link_is_utf16_ended_by_a_nul() {
    assert_eq!(wide("a가😀"), vec![0x61, 0xAC00, 0xD83D, 0xDE00, 0]);
    let link = "https://oeee.cafe/@오이";
    let expected: Vec<u16> = link.encode_utf16().chain(std::iter::once(0)).collect();
    assert_eq!(wide(link), expected);
    assert_eq!(wide(""), vec![0]);
}

use oeee_cafe_desktop::dialogs::agreed;
use oeee_cafe_desktop::steam::app_id;

#[test]
fn a_dlc_is_named_by_its_app_id() {
    assert_eq!(app_id("3530540"), Some(3530540));
    assert_eq!(app_id("+7"), Some(7));
    assert_eq!(app_id("4294967295"), Some(u32::MAX));
    assert_eq!(app_id("4294967296"), None);
    assert_eq!(app_id("-1"), None);
    assert_eq!(app_id(""), None);
    assert_eq!(app_id("+"), None);
    assert_eq!(app_id(" 12"), None);
    assert_eq!(app_id("9NSUPPORTER"), None);
}

#[test]
fn only_leave_or_ok_is_agreement() {
    let words = Words::default();
    assert!(agreed(&Question::Leave, &DialogAnswer::Custom("Leave".to_string()), &words.leave));
    assert!(!agreed(&Question::Leave, &DialogAnswer::Confirm, &words.leave));
    assert!(!agreed(&Question::Leave, &DialogAnswer::Custom("Stay".to_string()), &words.leave));
    assert!(agreed(&Question::Confirm("ok?".to_string()), &DialogAnswer::Confirm, &words.leave));
    assert!(!agreed(&Question::Confirm("ok?".to_string()), &DialogAnswer::Cancel, &words.leave));
    assert!(agreed(&Question::Alert("hi".to_string()), &DialogAnswer::Confirm, &words.leave));
}

#[test]
fn a_close_over_work_runs_only_after_leave_and_once() {
    let mut guard = LeaveGuard::new();
    assert_eq!(guard.close_requested(true), LeaveStep::AskPage);
    // A second close while the page is being asked asks nothing.
    assert_eq!(guard.close_requested(true), LeaveStep::AlreadyAsking);
    assert_eq!(guard.page_answered("true"), LeaveStep::AskPlayer);
    assert_eq!(guard.close_requested(true), LeaveStep::AlreadyAsking);
    assert_eq!(guard.player_answered(false), LeaveStep::Stay);
    // The next close asks again, and nothing to lose goes at once.
    assert_eq!(guard.close_requested(true), LeaveStep::AskPage);
    assert_eq!(guard.page_answered("false"), LeaveStep::Go);
    assert_eq!(guard.close_requested(false), LeaveStep::Go);
}
