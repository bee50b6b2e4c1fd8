use std::cmp::Ordering;
use upm::account::Account;
use upm::model::ModelObject;

fn named(name: &str) -> Account {
    let mut a = Account::new();
    a.name = name.to_string();
    a
}

fn filled(name: &str, user: &str, password: &str, url: &str, notes: &str) -> Account {
    Account {
        name: name.to_string(),
        user: user.to_string(),
        password: password.to_string(),
        url: url.to_string(),
        notes: notes.to_string(),
    }
}

#[test]
fn new_account_is_empty() {
    let a = Account::new();
    assert_eq!(a.name, "");
    assert_eq!(a.user, "");
    assert_eq!(a.password, "");
    assert_eq!(a.url, "");
    assert_eq!(a.notes, "");
}

#[test]
fn new_account_exports_five_empty_values() {
    let data = Account::new().object_data();
    assert_eq!(data.key, "Account");
    assert_eq!(data.data_items.len(), 5);
    for (i, item) in data.data_items.iter().enumerate() {
        assert_eq!(usize::from(item.fieldnr), i);
        assert_eq!(item.contents, "");
    }
}

#[test]
fn export_holds_the_values_in_declared_order() {
    let a = filled("Bank", "alice", "s3cret", "https://bank.example", "line one\nline two");
    let data = a.object_data();
    assert_eq!(data.key, "Account");
    let got: Vec<(u8, &str)> =
        data.data_items.iter().map(|i| (i.fieldnr, i.contents.as_str())).collect();
    assert_eq!(
        got,
        vec![
            (0, "Bank"),
            (1, "alice"),
            (2, "s3cret"),
            (3, "https://bank.example"),
            (4, "line one\nline two"),
        ]
    );
}

#[test]
fn export_is_a_snapshot() {
    let mut a = filled("Bank", "alice", "old", "", "");
    let data = a.object_data();
    a.password = "new".to_string();
    assert_eq!(data.data_items[2].contents, "old");
    assert_eq!(a.object_data().data_items[2].contents, "new");
}

#[test]
fn names_that_differ_in_case_are_order_equal() {
    assert_eq!(named("Bank").cmp(&named("bank")), Ordering::Equal);
    assert_eq!(named("bank").cmp(&named("BANK")), Ordering::Equal);
    assert_eq!(named("Bank").cmp(&named("BANK")), Ordering::Equal);
    assert_eq!(named("Bank").partial_cmp(&named("bank")), Some(Ordering::Equal));
}

#[test]
fn lowercase_name_sorts_before_capitalised_later_name() {
    assert_eq!(named("apple").cmp(&named("Banana")), Ordering::Less);
    assert_eq!(named("Banana").cmp(&named("apple")), Ordering::Greater);
    assert!(named("apple") < named("Banana"));
    assert!(named("Zebra") > named("apple"));
    assert!(named("apple") <= named("APPLE"));
    assert!(named("apple") >= named("APPLE"));
}

#[test]
fn order_is_total_and_transitive_on_samples() {
    let names = ["", "a", "A", "ab", "Ab", "B", "b", "bank", "Bank", "BANK", "zeta", "Zed"];
    for x in names.iter() {
        for y in names.iter() {
            let xy = named(x).cmp(&named(y));
            let yx = named(y).cmp(&named(x));
            assert_eq!(xy, yx.reverse());
            for z in names.iter() {
                let yz = named(y).cmp(&named(z));
                let xz = named(x).cmp(&named(z));
                if xy != Ordering::Greater && yz != Ordering::Greater {
                    assert_ne!(xz, Ordering::Greater);
                    if xy == Ordering::Less || yz == Ordering::Less {
                        assert_eq!(xz, Ordering::Less);
                    }
                }
            }
        }
    }
}

#[test]
fn empty_name_sorts_first_and_prefix_before_longer() {
    assert_eq!(named("").cmp(&named("")), Ordering::Equal);
    assert_eq!(named("").cmp(&named("a")), Ordering::Less);
    assert_eq!(named("Bank").cmp(&named("banking")), Ordering::Less);
    assert_eq!(named("banking").cmp(&named("BANK")), Ordering::Greater);
}

#[test]
fn order_looks_at_the_name_only() {
    let a = filled("Bank", "alice", "one", "u", "n");
    let b = filled("bank", "bob", "two", "v", "m");
    assert_eq!(a.cmp(&b), Ordering::Equal);
}

#[test]
fn folding_covers_letters_outside_ascii() {
    assert_eq!(named("ÄPFEL").cmp(&named("äpfel")), Ordering::Equal);
    assert_eq!(named("ÉCOLE").cmp(&named("école")), Ordering::Equal);
}

#[test]
fn folding_goes_by_lowercase_not_by_full_case_folding() {
    // The sharp s is its own lowercase form, and "SS" becomes "ss".
    assert_ne!(named("STRASSE").cmp(&named("straße")), Ordering::Equal);
    // The dotted capital I becomes "i" followed by a combining dot.
    assert_eq!(named("İ").cmp(&named("i")), Ordering::Greater);
    assert_eq!(named("İ").cmp(&named("i\u{307}")), Ordering::Equal);
}

#[test]
fn equality_is_stricter_than_order() {
    let a = filled("Bank", "alice", "pw", "", "");
    let b = filled("Bank", "bob", "pw", "", "");
    assert_eq!(a.cmp(&b), Ordering::Equal);
    assert!(a != b);
    let c = filled("Bank", "alice", "other", "", "");
    assert!(a != c);
    let d = filled("Bank", "alice", "pw", "https://x", "");
    assert!(a != d);
    let e = filled("Bank", "alice", "pw", "", "note");
    assert!(a != e);
}

#[test]
fn equality_is_case_sensitive() {
    let a = named("Bank");
    let b = named("bank");
    assert_eq!(a.cmp(&b), Ordering::Equal);
    assert!(a != b);
    assert!(a == named("Bank"));
}

#[test]
fn equal_accounts_are_equal() {
    let a = filled("n", "u", "p", "l", "t");
    let b = filled("n", "u", "p", "l", "t");
    assert!(a == b);
    assert!(a == a.clone());
    assert!(Account::new() == Account::new());
}

#[test]
fn update_overwrites_every_field() {
    let mut a = filled("Bank", "alice", "pw", "https://bank", "notes");
    let x = filled("Shop", "", "other", "", "");
    a.update(x.clone());
    assert!(a == x);
    assert_eq!(a.name, "Shop");
    assert_eq!(a.user, "");
    assert_eq!(a.password, "other");
    assert_eq!(a.url, "");
    assert_eq!(a.notes, "");
}

#[test]
fn update_twice_is_update_once() {
    let mut a = filled("Bank", "alice", "pw", "https://bank", "notes");
    let x = filled("Shop", "carol", "other", "https://shop", "more");
    a.update(x.clone());
    let once = a.clone();
    a.update(x.clone());
    assert!(a == once);
    assert!(a == x);
}

#[test]
fn fields_are_the_five_descriptors_in_order() {
    let fields = Account::fields();
    let got: Vec<(&str, &str, bool, bool)> =
        fields.iter().map(|f| (f.name, f.label, f.secret, f.multiline)).collect();
    assert_eq!(
        got,
        vec![
            ("Account", "Account", false, false),
            ("Username", "Username", false, false),
            ("Password", "Password", true, false),
            ("URL", "URL", false, false),
            ("Notes", "Notes", false, true),
        ]
    );
}

#[test]
fn fields_are_stable_across_calls_and_names_unique() {
    let first = Account::fields();
    let second = Account::fields();
    assert_eq!(first.len(), second.len());
    for i in 0..first.len() {
        assert_eq!(first[i].name, second[i].name);
        for j in 0..first.len() {
            if i != j {
                assert_ne!(first[i].name, first[j].name);
            }
        }
    }
}

#[test]
fn password_field_is_secret() {
    let f = Account::field("Password").expect("descriptor");
    assert_eq!(f.name, "Password");
    assert!(f.secret);
    assert!(!f.multiline);
}

#[test]
fn notes_field_is_multiline() {
    let f = Account::field("Notes").expect("descriptor");
    assert_eq!(f.name, "Notes");
    assert!(f.multiline);
    assert!(!f.secret);
}

#[test]
fn unknown_field_is_none() {
    assert!(Account::field("NoSuchField").is_none());
    assert!(Account::field("").is_none());
    assert!(Account::field("password").is_none());
}

#[test]
fn every_descriptor_is_found_by_its_name() {
    for f in Account::fields() {
        let g = Account::field(f.name).expect("descriptor");
        assert_eq!(g.name, f.name);
        assert_eq!(g.label, f.label);
        assert_eq!(g.secret, f.secret);
        assert_eq!(g.multiline, f.multiline);
    }
}

#[test]
fn key_of_the_export_names_the_first_descriptor() {
    let data = Account::new().object_data();
    assert_eq!(data.key, Account::fields()[0].name);
    assert_eq!(data.data_items.len(), Account::fields().len());
}

#[test]
fn accounts_sort_by_name_without_regard_to_case() {
    let mut all = vec![named("zebra"), named("Bank"), named("apple"), named("Cider"), named("")];
    all.sort_by(|a, b| a.cmp(b));
    let names: Vec<&str> = all.iter().map(|a| a.name.as_str()).collect();
    assert_eq!(names, vec!["", "apple", "Bank", "Cider", "zebra"]);
}
