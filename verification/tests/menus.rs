use powhttp_sdk::{
    ContextMenuItem, ContextMenuNode, ContextMenuSubmenu, OverviewField, OverviewNode,
    OverviewSection,
};

fn ids<H>(pairs: &[(String, H)]) -> Vec<&str> {
    pairs.iter().map(|(id, _)| id.as_str()).collect()
}

#[test]
fn single_item_yields_its_handler() {
    let node: ContextMenuNode<u8> = ContextMenuItem::new("copy", "Copy", 1u8).into();
    let pairs = node.extract_handlers();
    assert_eq!(pairs, vec![("copy".to_string(), 1u8)]);
}

#[test]
fn nested_submenus_flatten_depth_first() {
    let inner = ContextMenuSubmenu::new("Inner")
        .with_child(ContextMenuItem::new("b", "B", 2u8).into())
        .with_child(ContextMenuItem::new("c", "C", 3u8).into());
    let mut rest: Vec<ContextMenuNode<u8>> = vec![ContextMenuItem::new("d", "D", 4u8).into()];
    let outer = ContextMenuSubmenu::new("Outer")
        .with_child(ContextMenuItem::new("a", "A", 1u8).into())
        .with_child(inner.into())
        .with_children(&mut rest);
    assert!(rest.is_empty());
    assert_eq!(outer.label(), "Outer");
    assert_eq!(outer.children().len(), 3);
    let pairs = ContextMenuNode::from(outer).extract_handlers();
    assert_eq!(ids(&pairs), vec!["a", "b", "c", "d"]);
    assert_eq!(pairs.iter().map(|p| p.1).collect::<Vec<_>>(), vec![1, 2, 3, 4]);
}

#[test]
fn empty_submenu_yields_nothing() {
    let node: ContextMenuNode<u8> = ContextMenuSubmenu::new("Empty").into();
    assert!(node.extract_handlers().is_empty());
}

#[test]
fn item_accessors() {
    let item = ContextMenuItem::new(String::from("id"), "Label", 9u8);
    assert_eq!(item.id(), "id");
    assert_eq!(item.label(), "Label");
    assert_eq!(*item.handler(), 9);
}

#[test]
fn overview_sections_flatten_depth_first() {
    let section = OverviewSection::new("S")
        .with_child(OverviewField::new("f1", "F1", 10u8).into())
        .with_child(OverviewSection::new("T").with_child(OverviewField::new("f2", "F2", 20u8).into()).into());
    let mut more: Vec<OverviewNode<u8>> = vec![OverviewField::new("f3", "F3", 30u8).into()];
    let section = section.with_children(&mut more);
    let pairs = OverviewNode::from(section).extract_handlers();
    assert_eq!(ids(&pairs), vec!["f1", "f2", "f3"]);
    let field = OverviewField::new("x", "X", 1u8);
    assert_eq!(field.id(), "x");
    assert_eq!(field.label(), "X");
    assert_eq!(OverviewNode::from(field).extract_handlers(), vec![("x".to_string(), 1u8)]);
}

#[test]
fn law_with_child_follows_concrete() {
    let before = ContextMenuSubmenu::new("M").with_child(ContextMenuItem::new("a", "A", 1u8).into());
    let child: ContextMenuNode<u8> = ContextMenuSubmenu::new("N")
        .with_child(ContextMenuItem::new("b", "B", 2u8).into())
        .into();
    let after = before.with_child(child);
    let pairs = ContextMenuNode::from(after).extract_handlers();
    assert_eq!(ids(&pairs), vec!["a", "b"]);
}

#[test]
fn law_added_section_children_follow_concrete() {
    let before = OverviewSection::new("S").with_child(OverviewField::new("x", "X", 1u8).into());
    let mut added: Vec<OverviewNode<u8>> = vec![
        OverviewField::new("y", "Y", 2u8).into(),
        OverviewField::new("z", "Z", 3u8).into(),
    ];
    let after = before.with_children(&mut added);
    let pairs = OverviewNode::from(after).extract_handlers();
    assert_eq!(ids(&pairs), vec!["x", "y", "z"]);
}
