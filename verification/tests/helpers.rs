use roseline::kouryaku::{Entry, Find, find_entry};
use roseline::irc::{
    del_hook_reply, del_vn_reply, ignore_reply, GetIrcResponse, IgnoreList,
};
use roseline::utils::ResultExt;
use roseline::text::{fmt_u64, replace_whitespace, replace_space_runs, trim_str};

#[test]
fn kouryaku_finds_by_folded_substring() {
    let entries = vec![
        Entry::new(String::from("ドラクリウス"), String::from("meroq/drac.html")),
        Entry::new(String::from("Maitetsu"), String::from("lose/maitetsu.html")),
    ];

    let hit = find_entry(&entries, &Find(String::from("ドラク"))).expect("a match");
    assert_eq!(hit.0, "ドラクリウス");
    assert_eq!(hit.1, "http://seiya-saiga.com/game/meroq/drac.html");

    let hit = find_entry(&entries, &Find(String::from("MAITETSU"))).expect("a match");
    assert_eq!(hit.1, "http://seiya-saiga.com/game/lose/maitetsu.html");

    assert!(find_entry(&entries, &Find(String::from("nothing"))).is_none());
}

#[test]
fn ignore_list_toggles() {
    let mut list = IgnoreList::new();
    assert!(!list.contains("Fltrsh"));
    assert!(list.toggle(String::from("Fltrsh")));
    assert!(list.contains("Fltrsh"));
    assert!(list.toggle(String::from("lurker")));
    assert_eq!(list.names().len(), 2);
    assert_eq!(list.list_reply(), "Ignore list: Fltrsh, lurker");

    // toggling again removes the name
    assert!(!list.toggle(String::from("Fltrsh")));
    assert!(!list.contains("Fltrsh"));
    assert!(list.contains("lurker"));
    assert_eq!(list.list_reply(), "Ignore list: lurker");
}

#[test]
fn ignore_toggle_replies() {
    assert_eq!(ignore_reply("Fltrsh", true), "Added 'Fltrsh' to ignore list");
    assert_eq!(ignore_reply("Fltrsh", false), "Removed 'Fltrsh' from ignore list");
}

#[test]
fn removal_replies_carry_the_reference() {
    assert_eq!(del_hook_reply("v9", 1), "v9: Removed hook");
    assert_eq!(del_hook_reply("v9", 0), "v9: No hook to remove.");
    assert_eq!(del_vn_reply("v9", 1), "v9: removed from DB.");
    assert_eq!(del_vn_reply("v9", 0), "v9: No such VN exists in DB.");
}

#[test]
fn irc_reply_carries_its_prefix() {
    let envelope = GetIrcResponse::new(
        String::from("#vn"),
        String::from("guest"),
        false,
        (),
    );
    assert_eq!(envelope.prefix_line("pong"), "guest: pong");
    assert_eq!(envelope.target, "#vn");
    assert!(!envelope.is_pm);

    // a channel reply goes to the target, prefixed; a private one goes
    // bare back to the sender
    let (to, line) = envelope.respond("pong");
    assert_eq!(to, "#vn");
    assert_eq!(line, "guest: pong");

    let private = GetIrcResponse::new(String::from("bot"), String::from("guest"), true, ());
    let (to, line) = private.respond("pong");
    assert_eq!(to, "guest");
    assert_eq!(line, "pong");
}

#[test]
fn format_err_prefixes_the_error() {
    let failed: Result<u32, String> = Err(String::from("no such file"));
    assert_eq!(
        failed.format_err("To start DB").unwrap_err(),
        "To start DB. Error: no such file"
    );

    let fine: Result<u32, String> = Ok(7);
    assert_eq!(fine.format_err("To start DB").unwrap(), 7);
}

#[test]
fn text_helpers_format_exactly() {
    assert_eq!(fmt_u64(0), "0");
    assert_eq!(fmt_u64(907), "907");
    assert_eq!(fmt_u64(u64::MAX), "18446744073709551615");
    assert_eq!(replace_whitespace("a b  c"), "a+b++c");
    assert_eq!(replace_whitespace("a\tb\u{3000}c"), "a+b+c");
    assert_eq!(replace_space_runs("a b \t c"), "a+b+c");
    assert_eq!(trim_str("  pad \u{3000}"), "pad");
}
