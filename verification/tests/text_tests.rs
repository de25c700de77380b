use ue_types::text::Text;

#[test]
fn test_text() {
    let text1 = Text::new("Hello World");
    assert_eq!(text1.as_str(), "Hello World");
    assert!(!text1.is_localizable());

    let text2 = Text::from_key("UI", "HelloWorld", "Hello World");
    assert!(text2.is_localizable());
    assert_eq!(text2.as_str(), "Hello World");
}

#[test]
fn test_text_set_display_string() {
    let mut text = Text::from_key("UI", "Greeting", "Hello");
    text.set_display_string("Bonjour");
    assert_eq!(text.as_str(), "Bonjour");
    assert!(text.is_localizable());
    assert_eq!(text.source_string.as_deref(), Some("Hello"));

    let empty = Text::default();
    assert!(empty.is_empty());
    assert!(!empty.is_localizable());
}
