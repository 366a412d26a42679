use deno_runner::is_valid_variable_name;

#[test]
fn test_variable_name_validation() {
    assert!(is_valid_variable_name("validName"));
    assert!(is_valid_variable_name("_private"));
    assert!(is_valid_variable_name("camelCase123"));
    assert!(is_valid_variable_name("CONSTANT_VALUE"));

    assert!(!is_valid_variable_name(""));
    assert!(!is_valid_variable_name("123invalid"));
    assert!(!is_valid_variable_name("invalid-name"));
    assert!(!is_valid_variable_name("invalid.name"));
    assert!(!is_valid_variable_name("invalid name"));
    assert!(!is_valid_variable_name("invalid;name"));
    assert!(!is_valid_variable_name("invalid\"name"));
    assert!(!is_valid_variable_name("invalid'name"));
}

#[test]
fn single_characters() {
    assert!(is_valid_variable_name("a"));
    assert!(is_valid_variable_name("Z"));
    assert!(is_valid_variable_name("_"));
    assert!(!is_valid_variable_name("0"));
    assert!(!is_valid_variable_name("$"));
    assert!(!is_valid_variable_name(" "));
}

#[test]
fn digits_after_the_first_character() {
    assert!(is_valid_variable_name("a0123456789"));
    assert!(is_valid_variable_name("_9"));
    assert!(!is_valid_variable_name("9_"));
}

#[test]
fn whitespace_and_separators_anywhere() {
    assert!(!is_valid_variable_name("name "));
    assert!(!is_valid_variable_name(" name"));
    assert!(!is_valid_variable_name("na\tme"));
    assert!(!is_valid_variable_name("name\n"));
    assert!(!is_valid_variable_name("a,b"));
    assert!(!is_valid_variable_name("a=b"));
    assert!(!is_valid_variable_name("a(b)"));
    assert!(!is_valid_variable_name("x; maliciousCall(); let y"));
}

#[test]
fn non_ascii_letters_rejected() {
    assert!(!is_valid_variable_name("café"));
    assert!(!is_valid_variable_name("ñame"));
    assert!(!is_valid_variable_name("名前"));
}

#[test]
fn validation_is_repeatable() {
    for name in ["validName", "invalid-name", "", "_x1"] {
        let first = is_valid_variable_name(name);
        for _ in 0..3 {
            assert_eq!(is_valid_variable_name(name), first);
        }
    }
}
