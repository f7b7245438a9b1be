use roseline::store::Store;
use roseline::db::{GetVnData, PutVn, PutHook, SearchVn, DelVnData, DelHook};

#[test]
fn put_vn_keeps_first_title() {
    let mut store = Store::new();
    let row = store.put_vn(7, String::from("First"));
    assert_eq!(row.id, 7);
    assert_eq!(row.title, "First");

    let again = store.put_vn(7, String::from("Second"));
    assert_eq!(again.title, "First");
    assert_eq!(store.count_vns(), 1);
}

#[test]
fn put_hook_updates_in_place() {
    let mut store = Store::new();
    let vn = store.put_vn(9, String::from("Foo"));
    let first = store.put_hook(&vn, String::from("ver A"), String::from("HW*abcd"));
    assert_eq!(first.code, "HW*abcd");
    assert_eq!(store.count_hooks(), 1);

    let second = store.put_hook(&vn, String::from("ver A"), String::from("HW*NEW"));
    assert_eq!(second.code, "HW*NEW");
    assert_eq!(store.count_hooks(), 1);

    let hooks = store.get_hooks(&vn);
    assert_eq!(hooks.len(), 1);
    assert_eq!(hooks[0].version, "ver A");
    assert_eq!(hooks[0].code, "HW*NEW");
}

#[test]
fn delete_vn_cascades() {
    let mut store = Store::new();
    let vn = store.put_vn(9, String::from("Foo"));
    store.put_hook(&vn, String::from("ver A"), String::from("HW*abcd"));
    store.put_hook(&vn, String::from("ver B"), String::from("HW*efgh"));
    assert_eq!(store.count_hooks(), 2);

    let removed = store.delete_vn(9);
    assert_eq!(removed, 1);
    assert!(store.get_vn(9).is_none());
    assert_eq!(store.count_hooks(), 0);
    assert_eq!(store.delete_vn(9), 0);
}

#[test]
fn delete_hook_leaves_vn() {
    let mut store = Store::new();
    let vn = store.put_vn(9, String::from("Foo"));
    store.put_hook(&vn, String::from("ver A"), String::from("HW*abcd"));

    let removed = store.delete_hook(&vn, &String::from("ver A"));
    assert_eq!(removed, 1);
    assert!(store.get_hooks(&vn).is_empty());
    assert!(store.get_vn(9).is_some());
    assert_eq!(store.delete_hook(&vn, &String::from("ver A")), 0);
}

#[test]
fn search_is_case_insensitive() {
    let mut store = Store::new();
    store.put_vn(1, String::from("Steins;Gate"));
    store.put_vn(2, String::from("Clannad"));

    let found = store.search_vn("steins");
    assert_eq!(found.len(), 1);
    assert_eq!(found[0].id, 1);

    let found = store.search_vn("A");
    assert_eq!(found.len(), 2);

    assert!(store.search_vn("zero").is_empty());
}

#[test]
fn message_surface_matches_direct_calls() {
    let mut store = Store::new();
    let vn = PutVn { id: 3, title: String::from("Baldr") }.apply(&mut store).unwrap();
    PutHook { vn, version: String::from("std"), code: String::from("/HSN4@0") }
        .apply(&mut store)
        .unwrap();

    let data = GetVnData(3).apply(&store).unwrap().expect("stored");
    assert_eq!(data.data.title, "Baldr");
    assert_eq!(data.hooks.len(), 1);

    let found = SearchVn(String::from("bal")).apply(&store).unwrap();
    assert_eq!(found.len(), 1);

    let vn = store.get_vn(3).unwrap();
    assert_eq!(DelHook { vn, version: String::from("std") }.apply(&mut store).unwrap(), 1);
    assert_eq!(DelVnData(3).apply(&mut store).unwrap(), 1);
    assert!(GetVnData(3).apply(&store).unwrap().is_none());
}
