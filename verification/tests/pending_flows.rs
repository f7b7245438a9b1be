use roseline::pending::{Command, CommandResult, StepResult};
use roseline::store::Store;
use roseline::exec::{RemoteEvent, RemoteVn};

fn single(r: StepResult) -> String {
    match r {
        StepResult::Reply(CommandResult::Single(text)) => text,
        _ => panic!("expected a single reply"),
    }
}

#[test]
fn ping_replies_pong() {
    let mut store = Store::new();
    let cmd = Command::from_str(".ping").expect("a command");
    assert_eq!(single(cmd.step(&mut store, None)), "pong");
}

#[test]
fn vn_command_resolves_one_exact_hit() {
    let mut store = Store::new();
    let cmd = Command::from_str(".vn Steins;Gate").expect("a command");

    // the exact-title lookup goes on the wire first
    let (query, resumed) = match cmd.step(&mut store, None) {
        StepResult::Query(q, resumed) => (q, resumed),
        _ => panic!("expected a remote query"),
    };
    assert_eq!(
        query.line,
        "get vn basic (title = \"Steins;Gate\" or original = \"Steins;Gate\")"
    );

    // the remote answers with exactly one record
    let reply = RemoteEvent::Vns(vec![RemoteVn { id: 777, title: Some(String::from("Steins;Gate")) }]);
    assert_eq!(
        single(resumed.step(&mut store, Some(reply))),
        "Steins;Gate - https://vndb.org/v777"
    );
}

#[test]
fn set_hook_for_unknown_id_fetches_the_title() {
    let mut store = Store::new();
    let cmd = Command::from_str(".set_hook v9 \"ver A\" HW*abcd").expect("a command");

    // the store has no row 9 yet, so its record is fetched
    let (query, resumed) = match cmd.step(&mut store, None) {
        StepResult::Query(q, resumed) => (q, resumed),
        _ => panic!("expected a remote query"),
    };
    assert_eq!(query.line, "get vn basic (id = 9)");

    let reply = RemoteEvent::Vns(vec![RemoteVn { id: 9, title: Some(String::from("Foo")) }]);
    assert_eq!(
        single(resumed.step(&mut store, Some(reply))),
        "Added hook 'HW*abcd' for VN: Foo"
    );

    let vn = store.get_vn(9).expect("row inserted");
    assert_eq!(vn.title, "Foo");
    let hooks = store.get_hooks(&vn);
    assert_eq!(hooks.len(), 1);
    assert_eq!(hooks[0].version, "ver A");
    assert_eq!(hooks[0].code, "HW*abcd");

    // a second write for the same version replaces the code in place
    let cmd = Command::from_str(".set_hook v9 \"ver A\" HW*NEW").expect("a command");
    assert_eq!(single(cmd.step(&mut store, None)), "Added hook 'HW*NEW' for VN: Foo");
    let hooks = store.get_hooks(&vn);
    assert_eq!(hooks.len(), 1);
    assert_eq!(hooks[0].code, "HW*NEW");

    // the hooks are read back
    let cmd = Command::from_str(".hook v9").expect("a command");
    assert_eq!(single(cmd.step(&mut store, None)), "Foo - HW*NEW");

    // the hook goes, the VN stays
    let cmd = Command::from_str(".del_hook v9 \"ver A\"").expect("a command");
    assert_eq!(single(cmd.step(&mut store, None)), "Removed hook");
    assert!(store.get_hooks(&vn).is_empty());
    assert!(store.get_vn(9).is_some());

    // then the VN goes with everything it had
    let cmd = Command::from_str(".del_vn v9").expect("a command");
    assert_eq!(single(cmd.step(&mut store, None)), "Removed VN with all hooks");
    assert!(store.get_vn(9).is_none());
}

#[test]
fn hook_lists_every_version() {
    let mut store = Store::new();
    let vn = store.put_vn(4, String::from("Baldr"));
    store.put_hook(&vn, String::from("std"), String::from("/HA-4@0"));
    store.put_hook(&vn, String::from("dive"), String::from("/HB-8@1"));

    let cmd = Command::from_str(".hook v4").expect("a command");
    assert_eq!(
        single(cmd.step(&mut store, None)),
        "Baldr - std: /HA-4@0 | dive: /HB-8@1"
    );
}

#[test]
fn fuzzy_search_reports_too_many_hits() {
    let mut store = Store::new();
    let cmd = Command::from_str(".vn Aoi").expect("a command");
    let resumed = match cmd.step(&mut store, None) {
        StepResult::Query(_, resumed) => resumed,
        _ => panic!("expected a remote query"),
    };

    // the exact lookup is not decisive, so the fuzzy search follows
    let empty = RemoteEvent::Vns(Vec::new());
    let resumed = match resumed.step(&mut store, Some(empty)) {
        StepResult::Query(q, resumed) => {
            assert_eq!(q.line, "get vn basic (title ~ \"Aoi\" or original ~ \"Aoi\")");
            resumed
        },
        _ => panic!("expected the fuzzy query"),
    };

    let many = RemoteEvent::Vns(vec![
        RemoteVn { id: 1, title: Some(String::from("Aoi 1")) },
        RemoteVn { id: 2, title: Some(String::from("Aoi 2")) },
    ]);
    assert_eq!(
        single(resumed.step(&mut store, Some(many))),
        "There are too many hits='2'. Try yourself -> https://vndb.org/v/all?sq=Aoi"
    );
}

#[test]
fn transport_failure_fails_the_command() {
    let mut store = Store::new();
    let cmd = Command::from_str(".vn Foo").expect("a command");
    let resumed = match cmd.step(&mut store, None) {
        StepResult::Query(_, resumed) => resumed,
        _ => panic!("expected a remote query"),
    };
    match resumed.step(&mut store, Some(RemoteEvent::Failed)) {
        StepResult::Failed(msg) => assert_eq!(msg, "Unexpected VNDB error"),
        _ => panic!("expected a failure"),
    }
}

#[test]
fn vn_refs_reply_one_line_each() {
    let mut store = Store::new();
    let cmd = Command::from_str("look at v17 and u5").expect("a command");

    let resumed = match cmd.step(&mut store, None) {
        StepResult::Query(q, resumed) => {
            assert_eq!(q.line, "get vn basic (id = 17)");
            resumed
        },
        _ => panic!("expected the first object query"),
    };
    let first = RemoteEvent::Vns(vec![RemoteVn { id: 17, title: Some(String::from("Ever17")) }]);
    let resumed = match resumed.step(&mut store, Some(first)) {
        StepResult::Query(q, resumed) => {
            assert_eq!(q.line, "get user basic (id = 5)");
            resumed
        },
        _ => panic!("expected the second object query"),
    };
    let second = RemoteEvent::Vns(vec![RemoteVn { id: 5, title: Some(String::from("yorhel")) }]);
    match resumed.step(&mut store, Some(second)) {
        StepResult::Reply(CommandResult::Multi(lines)) => {
            assert_eq!(lines.len(), 2);
            assert_eq!(lines[0], "v17: Ever17 - https://vndb.org/v17");
            assert_eq!(lines[1], "u5: yorhel - https://vndb.org/u5");
        },
        _ => panic!("expected the joined reply"),
    }
}

#[test]
fn db_stats_counts_rows() {
    let mut store = Store::new();
    let vn = store.put_vn(1, String::from("One"));
    store.put_hook(&vn, String::from("a"), String::from("x"));
    let cmd = Command::from_str(".db_stats").expect("a command");
    assert_eq!(single(cmd.step(&mut store, None)), "DB has 1 VNs and 1 Hooks");
}
