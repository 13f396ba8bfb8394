use powhttp_sdk::dispatch::{lookup_handler, tab_content, tab_visibility, TabVisibility};
use powhttp_sdk::inspector::MessageTabHandlers;
use powhttp_sdk::registry::{handler_ids, settle_registration, settle_removal, HandlerRegistry};
use powhttp_sdk::{ContextMenuItem, ContextMenuNode, ContextMenuSubmenu};

fn pairs(list: &[(&str, u32)]) -> Vec<(String, u32)> {
    list.iter().map(|(id, h)| (id.to_string(), *h)).collect()
}

#[test]
fn extend_later_pair_wins() {
    let mut r = HandlerRegistry::new();
    r.extend(pairs(&[("a", 1), ("b", 2), ("a", 3)]));
    assert_eq!(r.len(), 2);
    assert_eq!(r.get("a"), Some(&3));
    assert_eq!(r.get("b"), Some(&2));
    assert_eq!(r.get("c"), None);
}

#[test]
fn insert_remove_and_remove_all() {
    let mut r = HandlerRegistry::new();
    r.insert("x".to_string(), 1u32);
    r.insert("y".to_string(), 2);
    r.insert("z".to_string(), 3);
    r.remove("x");
    assert_eq!(r.get("x"), None);
    r.remove_all(&["y".to_string(), "nope".to_string()]);
    assert_eq!(r.len(), 1);
    assert_eq!(r.get("z"), Some(&3));
}

#[test]
fn handler_ids_in_order() {
    let p = pairs(&[("a", 1), ("b", 2), ("a", 3)]);
    assert_eq!(handler_ids(&p), vec!["a", "b", "a"]);
}

#[test]
fn law_refused_registration_concrete() {
    let mut r = HandlerRegistry::new();
    r.insert("keep".to_string(), 0u32);
    r.insert("a".to_string(), 100);
    let node: ContextMenuNode<u32> = ContextMenuSubmenu::new("M")
        .with_child(ContextMenuItem::new("a", "A", 1u32).into())
        .with_child(ContextMenuItem::new("b", "B", 2u32).into())
        .into();
    let p = node.extract_handlers();
    let ids = handler_ids(&p);
    r.extend(p);
    assert_eq!(r.get("a"), Some(&1));
    settle_registration(&mut r, &ids, false);
    assert_eq!(r.get("a"), None);
    assert_eq!(r.get("b"), None);
    assert_eq!(r.get("keep"), Some(&0));
    assert_eq!(r.len(), 1);
}

#[test]
fn law_accepted_registration_concrete() {
    let mut r = HandlerRegistry::new();
    r.insert("keep".to_string(), 0u32);
    let p = pairs(&[("a", 1), ("b", 2)]);
    let ids = handler_ids(&p);
    r.extend(p);
    settle_registration(&mut r, &ids, true);
    assert_eq!(r.get("a"), Some(&1));
    assert_eq!(r.get("b"), Some(&2));
    assert_eq!(r.get("keep"), Some(&0));
}

#[test]
fn settle_removal_only_when_accepted() {
    let mut r = HandlerRegistry::new();
    r.insert("a".to_string(), 1u32);
    settle_removal(&mut r, "a", false);
    assert_eq!(r.get("a"), Some(&1));
    settle_removal(&mut r, "a", true);
    assert_eq!(r.get("a"), None);
}

#[test]
fn lookup_finds_or_names_missing_id() {
    let mut r = HandlerRegistry::new();
    r.insert("a".to_string(), 5u32);
    assert_eq!(*lookup_handler(&r, "a").unwrap(), 5);
    let err = lookup_handler(&r, "zzz").unwrap_err();
    assert_eq!(err.0, "zzz");
    assert_eq!(err.message(), "no handler registered for 'zzz'");
}

#[test]
fn tab_visibility_decisions() {
    let always = MessageTabHandlers { content: 1u32, visibility: None::<u32> };
    let ask = MessageTabHandlers { content: 1u32, visibility: Some(7u32) };
    match tab_visibility::<u32, u32>(None, "t".to_string()) {
        TabVisibility::Missing(e) => assert_eq!(e.message(), "no handler registered for 't'"),
        _ => panic!("expected missing"),
    }
    assert!(matches!(tab_visibility(Some(&always), "t".to_string()), TabVisibility::Always));
    match tab_visibility(Some(&ask), "t".to_string()) {
        TabVisibility::Ask(v) => assert_eq!(*v, 7),
        _ => panic!("expected ask"),
    }
    assert_eq!(*tab_content(Some(&ask), "t".to_string()).unwrap(), 1);
    assert_eq!(tab_content::<u32, u32>(None, "u".to_string()).unwrap_err().0, "u");
}
