use oeee_cafe_desktop::context_menu::Item::{Named, Separator};
use oeee_cafe_desktop::context_menu::{copyable_link, kept, wanted};

#[test]
fn the_browser_goes() {
    let page = [
        Named("back"),
        Named("forward"),
        Named("reload"),
        Separator,
        Named("saveAs"),
        Named("print"),
        Named("createQrCode"),
        Separator,
        Named("inspectElement"),
    ];
    // A developer's build keeps Inspect; any other keeps nothing here.
    assert_eq!(kept(&page, true), vec![8]);
    assert!(kept(&page, false).is_empty());
}

#[test]
fn a_picture_keeps_save_and_copy() {
    let image = [
        Named("openImageInNewWindow"),
        Named("saveImageAs"),
        Named("copyImage"),
        Named("copyImageLink"),
        Separator,
        Named("createQrCode"),
    ];
    assert_eq!(kept(&image, false), vec![1, 2]);
}

#[test]
fn a_field_keeps_editing_and_spelling() {
    let field = [
        Named("spellCheck"),
        Named("spellCheck"),
        Separator,
        Named("undo"),
        Named("redo"),
        Separator,
        Named("cut"),
        Named("copy"),
        Named("paste"),
        Named("writingDirection"),
        Separator,
        Named("selectAll"),
    ];
    assert_eq!(kept(&field, false), vec![0, 1, 2, 3, 4, 5, 6, 7, 8, 10, 11]);
}

#[test]
fn separators_never_lead_trail_or_double() {
    let menu = [
        Separator,
        Named("print"),
        Separator,
        Named("copy"),
        Separator,
        Separator,
        Named("reload"),
    ];
    assert_eq!(kept(&menu, false), vec![3]);
}

#[test]
fn the_last_separator_before_a_kept_item_is_the_one_kept() {
    let menu = [
        Named("copy"),
        Separator,
        Named("print"),
        Separator,
        Named("paste"),
        Separator,
    ];
    assert_eq!(kept(&menu, false), vec![0, 3, 4]);
    assert!(kept(&[], false).is_empty());
}

#[test]
fn only_the_programs_items_are_wanted() {
    assert!(wanted("pasteAsPlainText", false));
    assert!(wanted("emoji", false));
    assert!(!wanted("inspectElement", false));
    assert!(wanted("inspectElement", true));
    assert!(!wanted("Copy", false));
}

#[test]
fn only_web_links_are_copied() {
    assert_eq!(
        copyable_link("https://oeee.cafe/@someone"),
        Some("https://oeee.cafe/@someone")
    );
    assert_eq!(copyable_link("javascript:void(0)"), None);
    assert_eq!(copyable_link("mailto:a@example.com"), None);
}

#[test]
fn a_link_is_copied_without_the_space_around_it() {
    assert_eq!(copyable_link("  http://example.com/ \n"), Some("http://example.com/"));
}

use oeee_cafe_desktop::context_menu::{plan, removed, Item, Plan};

#[test]
fn what_is_not_kept_is_taken_out_last_first() {
    let field = [
        Named("spellCheck"),
        Separator,
        Named("cut"),
        Named("writingDirection"),
        Separator,
        Named("inspectElement"),
    ];
    let keep = kept(&field, false);
    assert_eq!(keep, vec![0, 1, 2]);
    assert_eq!(removed(field.len(), &keep), vec![5, 4, 3]);
    assert_eq!(removed(3, &[0, 1, 2]), Vec::<usize>::new());
    assert_eq!(removed(3, &[]), vec![2, 1, 0]);
    assert_eq!(removed(0, &[]), Vec::<usize>::new());
}

#[test]
fn a_link_gets_copy_link_first_set_apart() {
    assert_eq!(
        plan(2, Some(" https://oeee.cafe/@someone ")),
        Plan { copy: Some("https://oeee.cafe/@someone"), separator: true, shown: true }
    );
    assert_eq!(
        plan(0, Some("https://oeee.cafe/")),
        Plan { copy: Some("https://oeee.cafe/"), separator: false, shown: true }
    );
    assert_eq!(plan(2, Some("mailto:a@example.com")), Plan { copy: None, separator: false, shown: true });
}

#[test]
fn a_menu_with_nothing_left_is_not_shown() {
    assert_eq!(plan(0, None), Plan { copy: None, separator: false, shown: false });
    assert_eq!(plan(0, Some("javascript:void(0)")), Plan { copy: None, separator: false, shown: false });
    assert!(plan(1, None).shown);
}

#[test]
fn taking_out_last_first_leaves_the_kept_items() {
    let menu = [
        Named("back"),
        Separator,
        Named("cut"),
        Named("copy"),
        Named("writingDirection"),
        Separator,
        Named("print"),
        Separator,
        Named("selectAll"),
    ];
    let keep = kept(&menu, false);
    let mut left: Vec<Item> = menu.to_vec();
    for index in removed(menu.len(), &keep) {
        left.remove(index);
    }
    let expected: Vec<Item> = keep.iter().map(|&k| menu[k]).collect();
    assert_eq!(left, expected);
    assert_eq!(left, vec![Named("cut"), Named("copy"), Separator, Named("selectAll")]);
}

#[test]
fn the_last_separator_between_two_kept_groups_stays() {
    let menu = [
        Named("cut"),
        Separator,
        Named("print"),
        Separator,
        Named("reload"),
        Named("copy"),
        Named("paste"),
        Named("saveAs"),
    ];
    // Between cut and copy, two separators: only the last stays. Between
    // copy and paste, none, and none is made.
    assert_eq!(kept(&menu, false), vec![0, 3, 5, 6]);
}
