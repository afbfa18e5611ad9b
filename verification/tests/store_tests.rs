use pants_store::fields::Fields;
use pants_store::store::{Store, StoreChoice};

#[test]
fn fields_start_empty() {
    let fields = Fields::new();
    assert!(fields.is_empty());
    assert!(fields.filled());
    assert_eq!(fields.get(&"password".to_string()), None);
}

#[test]
fn fields_insert_and_replace() {
    let mut fields = Fields::new();
    fields.insert("password".to_string(), "".to_string());
    assert!(!fields.is_empty());
    assert!(!fields.filled());
    fields.insert("password".to_string(), "x".to_string());
    assert!(fields.filled());
    assert_eq!(fields.get(&"password".to_string()), Some(&"x".to_string()));
    assert!(fields.contains_key(&"password".to_string()));
    assert!(!fields.contains_key(&"username".to_string()));
    assert_eq!(fields.keys(), vec!["password".to_string()]);
}

#[test]
fn default_fields_are_blank() {
    let one = StoreChoice::Password.default_fields();
    assert_eq!(one.get(&"password".to_string()), Some(&String::new()));
    assert!(!one.contains_key(&"username".to_string()));
    let two = StoreChoice::UsernamePassword.default_fields();
    assert_eq!(two.get(&"password".to_string()), Some(&String::new()));
    assert_eq!(two.get(&"username".to_string()), Some(&String::new()));
}

#[test]
fn convert_password() {
    let mut fields = Fields::new();
    fields.insert("password".to_string(), "x".to_string());
    assert_eq!(StoreChoice::Password.convert(&fields), Some(Store::Password("x".to_string())));
    assert_eq!(StoreChoice::UsernamePassword.convert(&fields), None);
}

#[test]
fn convert_username_password() {
    let mut fields = Fields::new();
    fields.insert("username".to_string(), "me".to_string());
    assert_eq!(StoreChoice::UsernamePassword.convert(&fields), None);
    assert_eq!(StoreChoice::Password.convert(&fields), None);
    fields.insert("password".to_string(), "x".to_string());
    assert_eq!(
        StoreChoice::UsernamePassword.convert(&fields),
        Some(Store::UsernamePassword("me".to_string(), "x".to_string()))
    );
}

#[test]
fn split_then_convert_gives_the_record_back() {
    let store = Store::UsernamePassword("me".to_string(), "x".to_string());
    let (choice, fields) = store.duplicate().split();
    assert_eq!(choice, StoreChoice::UsernamePassword);
    assert_eq!(fields.get(&"username".to_string()), Some(&"me".to_string()));
    assert_eq!(fields.get(&"password".to_string()), Some(&"x".to_string()));
    assert_eq!(choice.convert(&fields), Some(store));

    let store = Store::Password("x".to_string());
    let (choice, fields) = store.duplicate().split();
    assert_eq!(choice, StoreChoice::Password);
    assert_eq!(choice.convert(&fields), Some(store));
}
