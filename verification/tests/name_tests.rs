use ue_types::name::Name;

#[test]
fn test_name() {
    let name1 = Name::new("TestName");
    let name2 = Name::new("TestName");
    let name3 = Name::new("DifferentName");

    assert_eq!(name1, name2);
    assert_ne!(name1, name3);
    assert_eq!(name1.hash(), name2.hash());
    assert_ne!(name1.hash(), name3.hash());
}

#[test]
fn test_name_accessors() {
    let name = Name::new("Actor");
    assert_eq!(name.as_str(), "Actor");
    assert_eq!(name.len(), 5);
    assert!(!name.is_empty());

    let empty = Name::default();
    assert!(empty.is_empty());
    assert_eq!(empty.len(), 0);
    assert_eq!(empty.as_str(), "");
}

#[test]
fn test_name_fnv1a_known_values() {
    // FNV-1a of the empty input is the offset basis.
    assert_eq!(Name::new("").hash(), 0xcbf29ce484222325);
    // FNV-1a of "a": (basis ^ 0x61) * prime.
    assert_eq!(Name::new("a").hash(), 0xaf63dc4c8601ec8c);
}
