use cosmos_chain_registry::text::str_equal;

#[test]
fn equal_strings_compare_equal() {
    assert!(str_equal("juno-1", "juno-1"));
    assert!(str_equal("", ""));
}

#[test]
fn different_strings_compare_unequal() {
    assert!(!str_equal("juno-1", "juno-2"));
    assert!(!str_equal("juno-1", "juno-10"));
    assert!(!str_equal("juno-1", ""));
}

#[test]
fn comparison_handles_multibyte_characters() {
    assert!(str_equal("ju\u{00f1}o", "ju\u{00f1}o"));
    assert!(!str_equal("ju\u{00f1}o", "juno"));
}
