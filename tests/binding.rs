use deno_runner::{declaration_statement, RunnerError};

#[test]
fn declaration_of_a_number() {
    let stmt = declaration_statement("a", "1").unwrap();
    assert_eq!(stmt, "const a = 1;");
}

#[test]
fn declaration_keeps_encoded_text_verbatim() {
    let stmt = declaration_statement("value", "{\"a\":1,\"b\":{\"c\":2}}").unwrap();
    assert_eq!(stmt, "const value = {\"a\":1,\"b\":{\"c\":2}};");
    let stmt = declaration_statement("_s", "\"11\"").unwrap();
    assert_eq!(stmt, "const _s = \"11\";");
}

#[test]
fn declaration_refuses_unsafe_name() {
    match declaration_statement("x; maliciousCall(); let y", "1") {
        Err(RunnerError::InvalidVariableName(n)) => assert_eq!(n, "x; maliciousCall(); let y"),
        _ => panic!("expected InvalidVariableName"),
    }
}

#[test]
fn declaration_refuses_empty_name() {
    assert!(matches!(
        declaration_statement("", "null"),
        Err(RunnerError::InvalidVariableName(n)) if n.is_empty()
    ));
}
