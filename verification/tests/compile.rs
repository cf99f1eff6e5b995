#[test]
fn test_it_compiles() {}
