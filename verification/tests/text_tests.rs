use substrate_mc::text::str_contains;

#[test]
fn contains_cases() {
    assert!(str_contains("eula=true", "eula=true"));
    assert!(str_contains("#x\neula=true\n", "eula=true"));
    assert!(!str_contains("eula=false", "eula=true"));
    assert!(str_contains("abc", ""));
    assert!(!str_contains("", "a"));
    assert!(str_contains("äöü", "öü"));
}
