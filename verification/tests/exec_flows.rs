use roseline::exec::{
    Executor, ResponseError, RemoteEvent, RemoteVn, GetVn, GetVnDb, FindVn, FindVnDb,
    FindVnFlow, FindVnStep, GetHook, GetHookStep, SetHook, SetHookStep, DelHook, DelHookStep,
    DelVn, DelVnStep, GetVndbObject,
};
use roseline::store::Store;

fn one(id: u64, title: &str) -> RemoteVn {
    RemoteVn { id, title: Some(String::from(title)) }
}

#[test]
fn get_vn_takes_the_first_record() {
    let msg = GetVn::new(17);
    assert_eq!(msg.query().line, "get vn basic (id = 17)");

    let vn = msg.finish(RemoteEvent::Vns(vec![one(17, "Ever17")])).expect("a record");
    assert_eq!(vn.id, 17);

    assert!(matches!(
        msg.finish(RemoteEvent::Vns(Vec::new())),
        Err(ResponseError::UnknownVn)
    ));
    assert!(matches!(msg.finish(RemoteEvent::Failed), Err(ResponseError::BadVndb)));
    assert!(matches!(
        msg.finish(RemoteEvent::Unexpected),
        Err(ResponseError::BadVndbResponse)
    ));
}

#[test]
fn find_vn_falls_back_to_fuzzy() {
    let msg = FindVn::new(String::from("Aoi"));
    assert_eq!(msg.query().line, "get vn basic (title = \"Aoi\" or original = \"Aoi\")");

    // a decisive exact hit concludes
    match msg.step(FindVnFlow::AwaitExact, RemoteEvent::Vns(vec![one(3, "Aoi")])) {
        FindVnStep::Done(Ok(vn)) => assert_eq!(vn.id, 3),
        _ => panic!("expected the record"),
    }

    // no exact hit: the fuzzy search follows
    let flow = match msg.step(FindVnFlow::AwaitExact, RemoteEvent::Vns(Vec::new())) {
        FindVnStep::Query(q, flow) => {
            assert_eq!(q.line, "get vn basic (title ~ \"Aoi\" or original ~ \"Aoi\")");
            flow
        },
        _ => panic!("expected the fuzzy query"),
    };

    match msg.step(flow, RemoteEvent::Vns(vec![one(1, "Aoi 1"), one(2, "Aoi 2")])) {
        FindVnStep::Done(Err(ResponseError::TooMany(n, q))) => {
            assert_eq!(n, 2);
            assert_eq!(q, "Aoi");
        },
        _ => panic!("expected too many hits"),
    }
    match msg.step(FindVnFlow::AwaitFuzzy, RemoteEvent::Vns(Vec::new())) {
        FindVnStep::Done(Err(ResponseError::UnknownVn)) => (),
        _ => panic!("expected no VN"),
    }
}

#[test]
fn local_lookups_read_the_store() {
    let mut exec = Executor::default_threads(2);
    let row = exec.store.put_vn(5, String::from("Clannad"));
    exec.store.put_hook(&row, String::from("std"), String::from("/H@0"));

    let found = exec.handle_get_vn_db(GetVnDb::new(5)).unwrap().expect("a row");
    assert_eq!(found.title, "Clannad");
    assert!(exec.handle_get_vn_db(GetVnDb::new(6)).unwrap().is_none());

    let found = exec.handle_find_vn_db(FindVnDb::new(String::from("clan"))).unwrap();
    assert_eq!(found.expect("one match").id, 5);
    assert!(exec.handle_find_vn_db(FindVnDb::new(String::from("zzz"))).unwrap().is_none());

    exec.store.put_vn(6, String::from("Clannad After"));
    match exec.handle_find_vn_db(FindVnDb::new(String::from("clan"))) {
        Err(ResponseError::TooManyDb(2)) => (),
        _ => panic!("expected two local matches"),
    }
}

#[test]
fn get_hook_prefers_the_store() {
    let mut exec = Executor::new(Store::new());
    let row = exec.store.put_vn(9, String::from("Foo"));
    exec.store.put_hook(&row, String::from("ver A"), String::from("HW*abcd"));

    // by reference, straight from the store
    match exec.handle_get_hook(&GetHook(String::from("v9"))) {
        GetHookStep::Done(Ok(data)) => {
            assert_eq!(data.data.id, 9);
            assert_eq!(data.hooks.len(), 1);
        },
        _ => panic!("expected the stored data"),
    }

    // a reference of another kind is refused
    match exec.handle_get_hook(&GetHook(String::from("c9"))) {
        GetHookStep::Done(Err(ResponseError::InvalidVnId(kind, 9))) => {
            assert_eq!(kind.short(), "c");
        },
        _ => panic!("expected the kind complaint"),
    }

    // a unique local title match avoids the wire
    match exec.handle_get_hook(&GetHook(String::from("foo"))) {
        GetHookStep::Done(Ok(data)) => assert_eq!(data.data.title, "Foo"),
        _ => panic!("expected the stored data"),
    }

    // an unknown title asks the remote, then reads the store for the hit
    let flow = match exec.handle_get_hook(&GetHook(String::from("Bar"))) {
        GetHookStep::Query(q, flow) => {
            assert_eq!(q.line, "get vn basic (title = \"Bar\" or original = \"Bar\")");
            flow
        },
        _ => panic!("expected the exact query"),
    };
    match exec.resume_get_hook(
        &GetHook(String::from("Bar")),
        flow,
        RemoteEvent::Vns(vec![one(9, "Foo")]),
    ) {
        GetHookStep::Done(Ok(data)) => assert_eq!(data.data.id, 9),
        _ => panic!("expected the stored data"),
    }
}

#[test]
fn set_hook_inserts_the_remote_record() {
    let mut exec = Executor::new(Store::new());
    let msg = SetHook::new(
        String::from("v9"),
        String::from("ver A"),
        String::from("HW*abcd"),
    );

    let flow = match exec.handle_set_hook(&msg) {
        SetHookStep::Query(q, flow) => {
            assert_eq!(q.line, "get vn basic (id = 9)");
            flow
        },
        _ => panic!("expected the record fetch"),
    };

    match exec.resume_set_hook(&msg, flow, RemoteEvent::Vns(vec![one(9, "Foo")])) {
        SetHookStep::Done(Ok(hook)) => {
            assert_eq!(hook.vn_id, 9);
            assert_eq!(hook.code, "HW*abcd");
        },
        _ => panic!("expected the written row"),
    }
    assert_eq!(exec.store.get_vn(9).expect("inserted").title, "Foo");
}

#[test]
fn del_flows_resolve_before_deleting() {
    let mut exec = Executor::new(Store::new());
    let row = exec.store.put_vn(9, String::from("Foo"));
    exec.store.put_hook(&row, String::from("ver A"), String::from("HW*abcd"));

    // removing the hook leaves the VN row, and the transport reply names
    // the reference the user gave
    let msg = DelHook::new(String::from("v9"), String::from("ver A"));
    let removed = match exec.handle_del_hook(&msg) {
        DelHookStep::Done(Ok(n)) => n,
        _ => panic!("expected one removed hook"),
    };
    assert_eq!(removed, 1);
    assert_eq!(roseline::irc::del_hook_reply(&msg.title, removed), "v9: Removed hook");
    let vn = exec.store.get_vn(9).expect("the VN row remains");
    assert!(exec.store.get_hooks(&vn).is_empty());

    let removed = match exec.handle_del_vn(&DelVn(String::from("v9"))) {
        DelVnStep::Done(Ok(n)) => n,
        _ => panic!("expected one removed row"),
    };
    assert_eq!(removed, 1);
    assert_eq!(roseline::irc::del_vn_reply("v9", removed), "v9: removed from DB.");
    assert!(exec.store.get_vn(9).is_none());
}

#[test]
fn object_lookup_passes_the_payload_through() {
    let msg = GetVndbObject::new(55, roseline::protocol::Kind::User);
    assert_eq!(msg.query().line, "get user basic (id = 55)");
    let payload = msg
        .finish(RemoteEvent::Raw(String::from("{\"items\":[]}")))
        .expect("the payload");
    assert_eq!(payload, "{\"items\":[]}");
    assert!(matches!(
        msg.finish(RemoteEvent::Vns(Vec::new())),
        Err(ResponseError::BadVndbResponse)
    ));
}

#[test]
fn error_lines_match_the_taxonomy() {
    assert_eq!(
        ResponseError::BadVndb.to_text(),
        "Error with VNDB. Forgive me, I cannot execute your request"
    );
    assert_eq!(ResponseError::BadVndbResponse.to_text(), "Bad VNDB response. Forgive me.");
    assert_eq!(ResponseError::UnknownVn.to_text(), "No such VN could be found.");
    assert_eq!(
        ResponseError::TooMany(7, String::from("Aoi Tori")).to_text(),
        "There are too many hits>='7'. Try yourself -> https://vndb.org/v/all?sq=Aoi+Tori"
    );
    // every white-space character becomes a `+`, not only spaces
    assert_eq!(
        ResponseError::TooMany(7, String::from("Aoi \tTori")).to_text(),
        "There are too many hits>='7'. Try yourself -> https://vndb.org/v/all?sq=Aoi++Tori"
    );
    assert_eq!(
        ResponseError::TooManyDb(3).to_text(),
        "Found '3' matches in DB. Try a better query."
    );
    assert_eq!(
        ResponseError::InvalidVnId(roseline::protocol::Kind::Character, 9).to_text(),
        "c9 is not an VN ID"
    );
    assert_eq!(
        ResponseError::Internal(String::from("boom")).to_text(),
        "ごめんなさい、エラー: boom"
    );
}
