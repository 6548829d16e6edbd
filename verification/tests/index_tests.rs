use substrate_mc::index::{add_entry, get_name_by_index, Index};

#[test]
fn add_then_get_returns_name() {
    let mut idx = Index::new();
    add_entry(&mut idx, 1, "test".to_string());
    assert_eq!(get_name_by_index(&idx, 1), Some("test".to_string()));
    assert_eq!(get_name_by_index(&idx, 2), None);
}

#[test]
fn add_replaces_earlier_name() {
    let mut idx = Index::new();
    add_entry(&mut idx, 3, "a".to_string());
    add_entry(&mut idx, 3, "b".to_string());
    assert_eq!(get_name_by_index(&idx, 3), Some("b".to_string()));
    assert_eq!(idx.entries.len(), 1);
}
