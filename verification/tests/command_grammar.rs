use roseline::command::{Command, Text, Refs, GetHook, SetHook, DelHook, DelVn};

const HELP: &str = "Available commands: .ping, .vn, .hook, .set_hook, .del_hook, .del_vn";
const SET_HOOK_USAGE: &str = "Usage: <title> <version> <code>";
const DEL_HOOK_USAGE: &str = "Usage: <title> <version>";

#[test]
fn mod_should_cmd_pong() {
    match Command::from_str(" .ping") {
        Some(Command::Text(Text(text))) => assert_eq!(text, "pong"),
        _ => assert!(false),
    }

    match Command::from_str(".ping") {
        Some(Command::Text(Text(text))) => assert_eq!(text, "pong"),
        _ => assert!(false),
    }
}

#[test]
fn mod_should_cmd_help() {
    match Command::from_str(".help") {
        Some(Command::Text(Text(text))) => assert_eq!(text, HELP),
        _ => assert!(false),
    }

    match Command::from_str(" .help") {
        Some(Command::Text(Text(text))) => assert_eq!(text, HELP),
        _ => assert!(false),
    }
}

#[test]
fn mod_should_cmd_vn_ref() {
    let expected_refs: [Option<(&str, u64, bool)>; 5] = [
        Some(("v", 1u64, true)),
        Some(("v", 2u64, true)),
        Some(("u", 55u64, true)),
        Some(("c", 25u64, true)),
        None,
    ];

    let result = match Command::from_str("v1 d2 v2 u55 c25") {
        Some(Command::Refs(Refs { refs })) => refs,
        _ => {
            assert!(false);
            return;
        },
    };

    for (idx, reference) in result.iter().enumerate() {
        let expected = &expected_refs[idx];
        assert_eq!(expected.is_some(), reference.is_some());

        if let Some(expected) = expected.as_ref() {
            let reference = reference.as_ref().unwrap();

            assert_eq!(reference.kind.short(), expected.0);
            assert_eq!(reference.id, expected.1);
            assert_eq!(reference.url, expected.2);
        }
    }

    let result = Command::from_str("g1 d2 g2");
    assert!(result.is_none());

    let result = Command::from_str("2v2");
    assert!(result.is_none());
}

#[test]
fn mod_should_cmd_vn_ref_url() {
    let result = match Command::from_str("Try this Vn https://vndb.org/v125").expect("Some result")
    {
        Command::Refs(Refs { refs }) => refs,
        _ => panic!("Unexpected result"),
    };

    let first = &result[0];
    assert!(first.is_some());
    let first = first.as_ref().unwrap();
    assert_eq!(first.kind.short(), "v");
    assert_eq!(first.id, 125);
    assert_eq!(first.url, false);

    for reference in result.iter().skip(1) {
        assert!(reference.is_none());
    }

    let result = Command::from_str("Try this https://youtu.be/u7mDRIuXOUY");
    assert!(result.is_none());
}

#[test]
fn mod_should_cmd_get_hook() {
    match Command::from_str(".hook") {
        Some(Command::Text(Text(text))) => assert_eq!(text, "For which VN...?"),
        _ => panic!("Unexpected result for .hook"),
    }

    match Command::from_str(".hook Some Title") {
        Some(Command::GetHook(GetHook { title })) => assert_eq!(title, "Some Title"),
        _ => panic!("Unexpected result for .hook"),
    }
}

#[test]
fn mod_should_cmd_del_vn() {
    match Command::from_str(".del_vn") {
        Some(Command::Text(Text(text))) => assert_eq!(text, "For which VN...?"),
        _ => panic!("Unexpected result for .del_vn"),
    }

    match Command::from_str(".del_vn vn5") {
        Some(Command::DelVn(DelVn { title })) => assert_eq!(title, "vn5"),
        _ => panic!("Unexpected result for .del_vn"),
    }
}

#[test]
fn mod_should_cmd_set_hook() {
    match Command::from_str(".set_hook") {
        Some(Command::Text(Text(text))) => assert_eq!(text, SET_HOOK_USAGE),
        _ => panic!("Unexpected result for .set_hook"),
    }

    match Command::from_str(".set_hook \"g'") {
        Some(Command::Text(Text(text))) => assert!(text.len() > 0),
        _ => panic!("Unexpected result for .set_hook"),
    }

    match Command::from_str(".set_hook 1 2") {
        Some(Command::Text(Text(text))) => assert!(text.len() > 0),
        _ => panic!("Unexpected result for .set_hook"),
    }

    match Command::from_str(".set_hook title version code") {
        Some(Command::SetHook(SetHook { title, version, code })) => {
            assert_eq!(title, "title");
            assert_eq!(version, "version");
            assert_eq!(code, "code");
        },
        _ => panic!("Unexpected result for .set_hook"),
    }

    match Command::from_str(".set_hook 'title multi' version code") {
        Some(Command::SetHook(SetHook { title, version, code })) => {
            assert_eq!(title, "title multi");
            assert_eq!(version, "version");
            assert_eq!(code, "code");
        },
        _ => panic!("Unexpected result for .set_hook"),
    }
}

#[test]
fn mod_should_cmd_del_hook() {
    match Command::from_str(".del_hook") {
        Some(Command::Text(Text(text))) => assert_eq!(text, DEL_HOOK_USAGE),
        _ => panic!("Unexpected result for .del_hook"),
    }

    match Command::from_str(".del_hook 1") {
        Some(Command::Text(Text(text))) => assert!(text.len() > 0),
        _ => panic!("Unexpected result for .del_hook"),
    }

    match Command::from_str(".del_hook 1 2 3") {
        Some(Command::Text(Text(text))) => assert!(text.len() > 0),
        _ => panic!("Unexpected result for .del_hook"),
    }

    match Command::from_str(".del_hook title 'version complex'") {
        Some(Command::DelHook(DelHook { title, version })) => {
            assert_eq!(title, "title");
            assert_eq!(version, "version complex");
        },
        _ => panic!("Unexpected result for .del_hook"),
    }
}

#[test]
fn should_keep_verbs_case_sensitive() {
    assert!(Command::from_str(".PING").is_none());
    assert!(Command::from_str(".Ping").is_none());
}

#[test]
fn should_toggle_ignores() {
    match Command::from_str(".ignore Fltrsh") {
        Some(Command::Ignore(name)) => assert_eq!(name, "Fltrsh"),
        _ => panic!("Unexpected result for .ignore"),
    }
    assert!(matches!(Command::from_str(".ignore_list"), Some(Command::IgnoreList)));
    match Command::from_str(".ignore") {
        Some(Command::Text(Text(text))) => assert_eq!(text, "Who to ignore?"),
        _ => panic!("Unexpected result for .ignore"),
    }
}

#[test]
fn should_cap_refs_at_five() {
    let result = match Command::from_str("v1 v2 v3 v4 v5 v6 v7") {
        Some(Command::Refs(Refs { refs })) => refs,
        _ => panic!("Unexpected result"),
    };
    for (idx, reference) in result.iter().enumerate() {
        let reference = reference.as_ref().expect("five kept");
        assert_eq!(reference.id, (idx + 1) as u64);
    }
}
