use deno_runner::Builder;

#[test]
fn new_builder_has_no_ops() {
    let b: Builder<&str> = Builder::new();
    assert!(b.into_ops().is_empty());
    let d: Builder<&str> = Builder::default();
    assert!(d.into_ops().is_empty());
}

#[test]
fn ops_kept_in_order_of_adding() {
    let b = Builder::new().add_op("add").add_op("string_concat").add_op("add_async");
    assert_eq!(b.into_ops(), vec!["add", "string_concat", "add_async"]);
}
