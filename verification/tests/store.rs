use upm::account::Account;
use upm::model::Data;
use upm::model::DataItem;
use upm::model::ModelError;
use upm::model::ModelList;
use upm::model::ModelObject;
use upm::store::MemoryList;

fn record(name: &str, password: &str) -> Data {
    let mut a = Account::new();
    a.name = name.to_string();
    a.password = password.to_string();
    a.object_data()
}

fn same(a: &Data, b: &Data) -> bool {
    a.key == b.key
        && a.data_items.len() == b.data_items.len()
        && a.data_items
            .iter()
            .zip(b.data_items.iter())
            .all(|(x, y)| x.fieldnr == y.fieldnr && x.contents == y.contents)
}

#[test]
fn add_then_get_returns_the_record() {
    let mut list = MemoryList::new();
    let d = record("k", "pw");
    assert_eq!(list.add("k", d.clone()), Ok(()));
    let got = list.get("k").ok().expect("record");
    assert!(same(&got, &d));
    let again = list.get("k").ok().expect("record");
    assert!(same(&again, &d));
}

#[test]
fn remove_then_get_is_not_found() {
    let mut list = MemoryList::new();
    let d = record("k", "pw");
    assert_eq!(list.add("k", d.clone()), Ok(()));
    let removed = list.rm("k").ok().expect("record");
    assert!(same(&removed, &d));
    assert!(matches!(list.get("k"), Err(ModelError::NotFound)));
    assert!(matches!(list.rm("k"), Err(ModelError::NotFound)));
}

#[test]
fn add_twice_is_a_duplicate() {
    let mut list = MemoryList::new();
    assert_eq!(list.add("k", record("k", "first")), Ok(()));
    assert_eq!(list.add("k", record("k", "second")), Err(ModelError::DuplicateKey));
    let got = list.get("k").ok().expect("record");
    assert_eq!(got.data_items[2].contents, "first");
    assert_eq!(list.keys(), vec!["k".to_string()]);
}

#[test]
fn get_on_empty_store_is_not_found() {
    let list = MemoryList::new();
    assert!(matches!(list.get("k"), Err(ModelError::NotFound)));
    assert!(list.keys().is_empty());
}

#[test]
fn update_replaces_the_record() {
    let mut list = MemoryList::new();
    assert_eq!(list.add("a", record("a", "one")), Ok(()));
    assert_eq!(list.add("b", record("b", "two")), Ok(()));
    assert_eq!(list.update("a", record("a", "three")), Ok(()));
    assert_eq!(list.get("a").ok().expect("record").data_items[2].contents, "three");
    assert_eq!(list.get("b").ok().expect("record").data_items[2].contents, "two");
    assert_eq!(list.keys().len(), 2);
}

#[test]
fn update_of_absent_key_is_not_found() {
    let mut list = MemoryList::new();
    assert_eq!(list.add("a", record("a", "one")), Ok(()));
    assert_eq!(list.update("b", record("b", "two")), Err(ModelError::NotFound));
    assert!(matches!(list.get("b"), Err(ModelError::NotFound)));
    assert_eq!(list.keys(), vec!["a".to_string()]);
}

#[test]
fn remove_keeps_the_other_records() {
    let mut list = MemoryList::new();
    for k in ["a", "b", "c"] {
        assert_eq!(list.add(k, record(k, k)), Ok(()));
    }
    assert!(list.rm("b").is_ok());
    let mut keys = list.keys();
    keys.sort();
    assert_eq!(keys, vec!["a".to_string(), "c".to_string()]);
    assert_eq!(list.get("a").ok().expect("record").data_items[2].contents, "a");
    assert_eq!(list.get("c").ok().expect("record").data_items[2].contents, "c");
    assert_eq!(list.add("b", record("b", "again")), Ok(()));
    assert_eq!(list.get("b").ok().expect("record").data_items[2].contents, "again");
}

#[test]
fn keys_are_case_sensitive_and_may_be_empty() {
    let mut list = MemoryList::new();
    assert_eq!(list.add("Bank", record("Bank", "1")), Ok(()));
    assert_eq!(list.add("bank", record("bank", "2")), Ok(()));
    assert_eq!(list.add("", record("", "3")), Ok(()));
    assert_eq!(list.get("Bank").ok().expect("record").data_items[2].contents, "1");
    assert_eq!(list.get("bank").ok().expect("record").data_items[2].contents, "2");
    assert_eq!(list.get("").ok().expect("record").data_items[2].contents, "3");
    assert!(matches!(list.get("BANK"), Err(ModelError::NotFound)));
}

#[test]
fn store_takes_any_snapshot() {
    let mut list = MemoryList::new();
    let d = Data {
        key: "Title",
        data_items: vec![DataItem { fieldnr: 0, contents: "note".to_string() }],
    };
    assert_eq!(list.add("note", d.clone()), Ok(()));
    let got = list.get("note").ok().expect("record");
    assert!(same(&got, &d));
    let empty = Data { key: "Title", data_items: Vec::new() };
    assert_eq!(list.update("note", empty), Ok(()));
    assert!(list.get("note").ok().expect("record").data_items.is_empty());
}

#[test]
fn clone_of_a_snapshot_is_field_wise_equal() {
    let d = record("k", "pw");
    let c = d.clone();
    assert!(same(&c, &d));
    let item = d.data_items[2].clone();
    assert_eq!(item.fieldnr, 2);
    assert_eq!(item.contents, "pw");
}
