use pants_store::generator::generate;

#[test]
fn generate_follows_the_pattern() {
    let password = generate("16//4|:upper://4|:number://1+|:lower:").unwrap();
    assert_eq!(password.chars().count(), 16);
    assert_eq!(password.chars().filter(|c| c.is_ascii_uppercase()).count(), 4);
    assert_eq!(password.chars().filter(|c| c.is_ascii_digit()).count(), 4);
    assert_eq!(password.chars().filter(|c| c.is_ascii_lowercase()).count(), 8);
}

#[test]
fn generate_gives_nothing_for_a_bad_pattern() {
    assert_eq!(generate("no pattern"), None);
    assert_eq!(generate("x//1+|:upper:"), None);
}

#[test]
fn generate_gives_nothing_where_the_pattern_cannot_be_met() {
    assert_eq!(generate("4//8+|:upper:"), None);
    assert_eq!(generate("8//2|:upper:"), None);
}

#[test]
fn generate_gives_nothing_for_a_named_set_beyond_ascii() {
    assert_eq!(generate("8//1+|:é"), None);
    assert_eq!(generate("8//1+|:é:"), None);
}

#[test]
fn generate_takes_letters_beyond_ascii() {
    let password = generate("6//6|äö").unwrap();
    assert_eq!(password.chars().count(), 6);
    assert!(password.chars().all(|c| c == 'ä' || c == 'ö'));
}

#[test]
fn mentions_colon_finds_it() {
    assert!(pants_store::generator::mentions_colon("8//1+|:upper:"));
    assert!(pants_store::generator::mentions_colon("é:"));
    assert!(!pants_store::generator::mentions_colon("8//1+|äö"));
    assert!(!pants_store::generator::mentions_colon(""));
}
