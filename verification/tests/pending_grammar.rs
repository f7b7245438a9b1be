use roseline::pending::{Command, CommandResult, return_too_many_vn_hits};

#[test]
fn command_should_cmd_pong() {
    assert!(matches!(Command::from_str(" .ping"), Some(Command::Pong)));
    assert!(Command::from_str("ping").is_none());
}

#[test]
fn command_should_cmd_help() {
    assert!(matches!(Command::from_str(".help"), Some(Command::Help)));
    assert!(Command::from_str(".relp").is_none());
}

#[test]
fn should_replace_whitespace_for_url() {
    let expected = "There are too many hits='7'. Try yourself -> https://vndb.org/v/all?sq=Aoi+Tori";
    let result = return_too_many_vn_hits(7, "Aoi  \tTori");

    match result {
        CommandResult::Single(result) => assert_eq!(expected, result),
        _ => panic!("Unexpected!"),
    }
}

#[test]
fn command_should_cmd_vn_ref() {
    let expected_refs: [(&str, u64); 4] = [("v", 1u64), ("v", 2u64), ("u", 55u64), ("c", 25u64)];
    let result = Command::from_str("v1 d2 v2 u55 c25");
    let result = match result {
        Some(Command::VnRef(res)) if res.len() == expected_refs.len() => res,
        other => panic!("Unexpected result={:?}", other.is_some()),
    };

    for (idx, refs) in result.iter().enumerate() {
        assert_eq!(refs.0.short(), expected_refs[idx].0);
        assert_eq!(refs.1, expected_refs[idx].1);
    }

    assert!(Command::from_str("g1 d2 g2").is_none());
    assert!(Command::from_str("2v2").is_none());
}

#[test]
fn command_should_cmd_vn_ref_url() {
    let result = Command::from_str("Try this Vn https://vndb.org/v125").expect("Some result");
    let result = match result {
        Command::VnRef(res) => res,
        _ => panic!("Unexpected result"),
    };

    assert_eq!(result[0].0.short(), "v");
    assert_eq!(result[0].1, 125);
}

#[test]
fn command_should_cmd_get_hook() {
    assert!(matches!(Command::from_str(".hook"), Some(Command::GetHookHelp)));

    match Command::from_str(".hook Some Title") {
        Some(Command::GetHook(res)) => assert_eq!(res, "Some Title"),
        _ => panic!("Unexpected result"),
    }

    assert!(matches!(Command::from_str(".hook v5555"), Some(Command::GetHookById(5555))));

    match Command::from_str(".hook v5555g") {
        Some(Command::GetHook(res)) => assert_eq!(res, "v5555g"),
        _ => panic!("Unexpected result"),
    }

    match Command::from_str(".hook    gv5555") {
        Some(Command::GetHook(res)) => assert_eq!(res, "gv5555"),
        _ => panic!("Unexpected result"),
    }
}

#[test]
fn command_should_cmd_del_vn() {
    assert!(matches!(Command::from_str(".del_vn"), Some(Command::DelVnHelp)));
    assert!(matches!(Command::from_str(".del_vn v5"), Some(Command::DelVnById(5))));

    match Command::from_str(".del_vn vn5") {
        Some(Command::DelVn(res)) => assert_eq!(res, "vn5"),
        _ => panic!("Unexpected result"),
    }
}

#[test]
fn command_should_cmd_set_hook() {
    assert!(matches!(Command::from_str(".set_hook"), Some(Command::SetHookHelp(None))));
    assert!(matches!(Command::from_str(".set_hook \"g'"), Some(Command::SetHookHelp(Some(_)))));
    assert!(matches!(Command::from_str(".set_hook 1  2"), Some(Command::SetHookHelp(Some(_)))));
    assert!(matches!(
        Command::from_str(".set_hook v5 version code"),
        Some(Command::SetHookById(5, None, _, _))
    ));
    assert!(matches!(
        Command::from_str(".set_hook title version code"),
        Some(Command::SetHook(_, _, _))
    ));
}

#[test]
fn command_should_cmd_del_hook() {
    assert!(matches!(Command::from_str(".del_hook"), Some(Command::DelHookHelp(None))));
    assert!(matches!(Command::from_str(".del_hook 1"), Some(Command::DelHookHelp(Some(_)))));
    assert!(matches!(Command::from_str(".del_hook 1 2 3"), Some(Command::DelHookHelp(Some(_)))));
    assert!(matches!(
        Command::from_str(".del_hook v666 version"),
        Some(Command::DelHookById(666, _))
    ));
    assert!(matches!(Command::from_str(".del_hook title version"), Some(Command::DelHook(_, _))));
}

#[test]
fn should_cmd_db_stats() {
    assert!(matches!(Command::from_str(".db_stats"), Some(Command::DbStats)));
}
