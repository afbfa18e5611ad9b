use pants_store::directory::{Directory, Info, Reads};
use pants_store::schema::Schema;
use pants_store::store::Store;

fn schema_of(keys: &[&str]) -> Schema {
    let mut schema = Schema::new();
    for k in keys {
        schema.insert(k.to_string(), "password".to_string());
    }
    schema
}

#[test]
fn info_insert_and_get() {
    let mut info = Info::new();
    assert!(info.get(&"bank".to_string()).is_none());
    info.insert("bank".to_string(), schema_of(&["login"]));
    info.insert("temp".to_string(), schema_of(&[]));
    assert!(info.get(&"bank".to_string()).unwrap().contains_key(&"login".to_string()));
    assert!(info.get(&"temp".to_string()).unwrap().is_empty());
    assert!(info.get(&"other".to_string()).is_none());
    info.insert("bank".to_string(), schema_of(&["mail"]));
    assert!(!info.get(&"bank".to_string()).unwrap().contains_key(&"login".to_string()));
    assert!(info.get(&"bank".to_string()).unwrap().contains_key(&"mail".to_string()));
}

#[test]
fn rebuild_takes_the_snapshot() {
    let directory = Directory::new();
    assert_eq!(directory.names(), Vec::<String>::new());
    let mut info = Info::new();
    info.insert("work".to_string(), schema_of(&["vpn"]));
    info.insert("bank".to_string(), schema_of(&["login"]));
    let directory = directory.rebuild(&info);
    assert_eq!(directory.names(), vec!["bank".to_string(), "work".to_string()]);
    let bank = directory.get(&"bank".to_string()).unwrap();
    assert_eq!(bank.name, "bank");
    assert!(!bank.expanded);
    assert!(bank.schema.contains_key(&"login".to_string()));
    assert!(directory.get(&"other".to_string()).is_none());
}

#[test]
fn rebuild_keeps_only_the_expanded_flag() {
    let mut info = Info::new();
    info.insert("bank".to_string(), schema_of(&["login"]));
    info.insert("work".to_string(), schema_of(&["vpn"]));
    let mut directory = Directory::new().rebuild(&info);
    directory.toggle(&"bank".to_string());
    assert!(directory.get(&"bank".to_string()).unwrap().expanded);
    assert!(!directory.get(&"work".to_string()).unwrap().expanded);

    let mut next = Info::new();
    next.insert("bank".to_string(), schema_of(&["mail"]));
    next.insert("home".to_string(), schema_of(&[]));
    let directory = directory.rebuild(&next);
    assert_eq!(directory.names(), vec!["bank".to_string(), "home".to_string()]);
    let bank = directory.get(&"bank".to_string()).unwrap();
    assert!(bank.expanded);
    assert!(bank.schema.contains_key(&"mail".to_string()));
    assert!(!bank.schema.contains_key(&"login".to_string()));
    assert!(!directory.get(&"home".to_string()).unwrap().expanded);
    assert!(directory.get(&"work".to_string()).is_none());
}

#[test]
fn toggle_flips_and_ignores_unknown_vaults() {
    let mut info = Info::new();
    info.insert("bank".to_string(), schema_of(&["login"]));
    let mut directory = Directory::new().rebuild(&info);
    directory.toggle(&"other".to_string());
    assert!(!directory.get(&"bank".to_string()).unwrap().expanded);
    directory.toggle(&"bank".to_string());
    assert!(directory.get(&"bank".to_string()).unwrap().expanded);
    directory.toggle(&"bank".to_string());
    assert!(!directory.get(&"bank".to_string()).unwrap().expanded);
    assert!(directory.get(&"bank".to_string()).unwrap().schema.contains_key(&"login".to_string()));
}

#[test]
fn reads_give_the_last_record_under_a_key() {
    let reads = Reads {
        data: vec![
            ("login".to_string(), Store::Password("a".to_string())),
            ("mail".to_string(), Store::Password("b".to_string())),
            ("login".to_string(), Store::Password("c".to_string())),
        ],
    };
    assert_eq!(reads.get(&"login".to_string()), Some(&Store::Password("c".to_string())));
    assert_eq!(reads.get(&"mail".to_string()), Some(&Store::Password("b".to_string())));
    assert_eq!(reads.get(&"other".to_string()), None);
}
