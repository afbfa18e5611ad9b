use pants_store::schema::Schema;

#[test]
fn new_schema_is_empty() {
    let schema = Schema::new();
    assert!(schema.is_empty());
    assert!(schema.get("login").is_none());
    assert_eq!(schema.keys(), Vec::<String>::new());
}

#[test]
fn insert_then_get() {
    let mut schema = Schema::new();
    schema.insert("login".to_string(), "password".to_string());
    assert!(!schema.is_empty());
    assert_eq!(schema.get("login"), Some(&"password".to_string()));
    assert_eq!(schema.get("other"), None);
    assert!(schema.contains_key(&"login".to_string()));
    assert!(!schema.contains_key(&"other".to_string()));
}

#[test]
fn insert_replaces_the_value_of_a_known_key() {
    let mut schema = Schema::new();
    schema.insert("login".to_string(), "password".to_string());
    schema.insert("login".to_string(), "username-password".to_string());
    assert_eq!(schema.get("login"), Some(&"username-password".to_string()));
    assert_eq!(schema.keys(), vec!["login".to_string()]);
}

#[test]
fn keys_come_in_increasing_order() {
    let mut schema = Schema::new();
    schema.insert("mail".to_string(), "password".to_string());
    schema.insert("bank".to_string(), "username-password".to_string());
    schema.insert("zoo".to_string(), "password".to_string());
    schema.insert("ban".to_string(), "password".to_string());
    schema.insert("Zed".to_string(), "password".to_string());
    assert_eq!(
        schema.keys(),
        vec![
            "Zed".to_string(),
            "ban".to_string(),
            "bank".to_string(),
            "mail".to_string(),
            "zoo".to_string()
        ]
    );
}

#[test]
fn keys_beyond_ascii_follow_their_bytes() {
    let mut schema = Schema::new();
    schema.insert("é".to_string(), "password".to_string());
    schema.insert("z".to_string(), "password".to_string());
    schema.insert("日本".to_string(), "password".to_string());
    schema.insert("".to_string(), "password".to_string());
    let keys = schema.keys();
    let mut sorted = keys.clone();
    sorted.sort();
    assert_eq!(keys, sorted);
    assert_eq!(
        keys,
        vec!["".to_string(), "z".to_string(), "é".to_string(), "日本".to_string()]
    );
}

#[test]
fn all_info_gives_one_line_for_each_entry() {
    let mut schema = Schema::new();
    schema.insert("mail".to_string(), "password".to_string());
    schema.insert("bank".to_string(), "username-password".to_string());
    assert_eq!(
        schema.all_info(),
        vec!["bank: username-password".to_string(), "mail: password".to_string()]
    );
}

#[test]
fn duplicate_is_an_equal_schema() {
    let mut schema = Schema::new();
    schema.insert("mail".to_string(), "password".to_string());
    let copy = schema.duplicate();
    schema.insert("bank".to_string(), "password".to_string());
    assert_eq!(copy.keys(), vec!["mail".to_string()]);
    assert_eq!(schema.keys(), vec!["bank".to_string(), "mail".to_string()]);
}
