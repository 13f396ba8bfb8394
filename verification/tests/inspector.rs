use powhttp_sdk::{Language, MessageTab, TabContent};

#[test]
fn tab_content_constructors_set_language() {
    let cases = [
        (TabContent::plain("t"), Language::Text),
        (TabContent::json("t"), Language::Json),
        (TabContent::xml("t"), Language::Xml),
        (TabContent::html("t"), Language::Html),
        (TabContent::css("t"), Language::Css),
        (TabContent::javascript("t"), Language::JavaScript),
        (TabContent::yaml(String::from("t")), Language::Yaml),
    ];
    for (c, l) in cases {
        assert_eq!(c.text(), "t");
        assert_eq!(c.language(), l);
    }
    let c = TabContent::new("body", Language::Json);
    assert_eq!(c.text(), "body");
    assert_eq!(c.language(), Language::Json);
}

#[test]
fn message_tab_is_unconditional_until_visible_when() {
    let tab: MessageTab<u32, bool> = MessageTab::new("jwt", "JWT", 7);
    assert_eq!(tab.id(), "jwt");
    assert_eq!(tab.label(), "JWT");
    assert!(!tab.is_conditional());
    let (id, hs) = tab.extract_handlers();
    assert_eq!(id, "jwt");
    assert_eq!(hs.content, 7);
    assert!(hs.visibility.is_none());

    let tab = tab.visible_when(true);
    assert!(tab.is_conditional());
    assert_eq!(tab.id(), "jwt");
    let (_, hs) = tab.extract_handlers();
    assert_eq!(hs.visibility, Some(true));
}
