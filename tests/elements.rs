use std::borrow::Cow;

use serde_html::element::{child_at, child_at_mut, id_text, replace_child};
use serde_html::{AttributeValue, Element, ElementModel, HtmlElement, HtmlNode};

fn text_of(node: &HtmlNode) -> Option<&str> {
    match node {
        HtmlNode::Text(t) => Some(t.as_ref()),
        _ => None,
    }
}

/// An element that supports nothing but its tag.
struct Bare;

impl Element for Bare {
    // The abstract state exists for the verifier only; nothing calls it at run time.
    fn model(&self) -> ElementModel {
        panic!("model is not executable")
    }

    fn build(self) -> HtmlElement {
        let mut e = HtmlElement::default();
        e.set_tag(Cow::Borrowed("bare"));
        e
    }

    fn get_tag(&self) -> &str {
        "bare"
    }
}

#[test]
fn default_element_is_empty() {
    let e = HtmlElement::default();
    assert_eq!(e.get_tag(), "");
    assert_eq!(e.get_id(), None);
    assert!(e.get_classes().is_empty());
    assert!(e.get_children().is_empty());
    assert!(e.get_attribute("id").is_none());
}

#[test]
fn set_tag_is_read_back() {
    let mut e = HtmlElement::default();
    assert!(e.set_tag(Cow::Borrowed("div")));
    assert_eq!(e.get_tag(), "div");
    assert!(e.set_tag(Cow::Owned("span".to_string())));
    assert_eq!(e.get_tag(), "span");
}

#[test]
fn set_attribute_overwrites_last_write_wins() {
    let mut e = HtmlElement::default();
    assert!(e.set_attribute(Cow::Borrowed("width"), AttributeValue::Integer(3)));
    assert!(e.set_attribute(Cow::Owned("width".to_string()), AttributeValue::Integer(4)));
    assert_eq!(e.get_attribute("width"), Some(&AttributeValue::Integer(4)));
    assert!(e.get_attribute("height").is_none());
}

#[test]
fn mut_attribute_changes_value_in_place() {
    let mut e = HtmlElement::default();
    assert!(e.mut_attribute("disabled").is_none());
    e.set_attribute(Cow::Borrowed("disabled"), AttributeValue::Empty);
    match e.mut_attribute("disabled") {
        Some(v) => *v = AttributeValue::Boolean(true),
        None => panic!("attribute missing"),
    }
    assert_eq!(e.get_attribute("disabled"), Some(&AttributeValue::Boolean(true)));
}

#[test]
fn set_id_static_is_stored_as_constant() {
    let mut e = HtmlElement::default();
    assert!(e.set_id("foo".into()));
    assert_eq!(e.get_id(), Some("foo"));
    assert!(matches!(e.get_attribute("id"), Some(AttributeValue::Constant("foo"))));
}

#[test]
fn set_id_owned_is_stored_as_string() {
    let mut e = HtmlElement::default();
    assert!(e.set_id(Cow::Owned("bar".to_string())));
    assert_eq!(e.get_id(), Some("bar"));
    assert!(matches!(e.get_attribute("id"), Some(AttributeValue::String(s)) if s == "bar"));
}

#[test]
fn integer_id_is_not_exposed() {
    let mut e = HtmlElement::default();
    assert!(e.set_attribute(Cow::Borrowed("id"), AttributeValue::Integer(5)));
    assert!(e.get_attribute("id").is_some());
    assert_eq!(e.get_id(), None);
}

#[test]
fn add_class_twice_keeps_one_entry() {
    let mut e = HtmlElement::default();
    assert!(e.add_class(Cow::Borrowed("a")));
    assert!(!e.add_class(Cow::Owned("a".to_string())));
    assert_eq!(e.get_classes(), vec!["a"]);
}

#[test]
fn set_classes_collapses_duplicates_first_seen_order() {
    let mut e = HtmlElement::default();
    e.add_class(Cow::Borrowed("old"));
    let names = vec![Cow::Borrowed("b"), Cow::Borrowed("a"), Cow::Owned("b".to_string()), Cow::Borrowed("c")];
    assert!(e.set_classes(names));
    assert_eq!(e.get_classes(), vec!["b", "a", "c"]);
}

#[test]
fn remove_class_reports_presence() {
    let mut e = HtmlElement::default();
    e.set_classes(vec![Cow::Borrowed("a"), Cow::Borrowed("b"), Cow::Borrowed("c")]);
    assert!(e.remove_class("a"));
    assert!(!e.remove_class("a"));
    assert!(!e.remove_class("zzz"));
    assert_eq!(e.get_classes(), vec!["b", "c"]);
}

#[test]
fn set_children_round_trip() {
    let mut e = HtmlElement::default();
    let mut inner = HtmlElement::default();
    inner.set_tag(Cow::Borrowed("p"));
    let kids = vec![HtmlNode::from("one"), HtmlNode::Comment(Cow::Borrowed("note")), HtmlNode::from(inner), HtmlNode::from("two".to_string())];
    assert!(e.set_children(kids));
    let back = e.get_children();
    assert_eq!(back.len(), 4);
    assert_eq!(text_of(&back[0]), Some("one"));
    assert!(matches!(&back[1], HtmlNode::Comment(c) if c == "note"));
    assert!(matches!(&back[2], HtmlNode::Standard(p) if p.get_tag() == "p"));
    assert_eq!(text_of(&back[3]), Some("two"));
}

#[test]
fn set_child_out_of_range_changes_nothing() {
    let mut e = HtmlElement::default();
    e.add_child(HtmlNode::from("a"));
    assert!(!e.set_child(1, HtmlNode::from("b")));
    assert!(!e.set_child(usize::MAX, HtmlNode::from("b")));
    assert_eq!(e.get_children().len(), 1);
    assert_eq!(text_of(e.get_child(0).unwrap()), Some("a"));
}

#[test]
fn set_child_in_range_replaces_that_position() {
    let mut e = HtmlElement::default();
    e.add_child(HtmlNode::from("a"));
    e.add_child(HtmlNode::from("b"));
    e.add_child(HtmlNode::from("c"));
    assert!(e.set_child(1, HtmlNode::from("x")));
    let texts: Vec<Option<&str>> = e.get_children().iter().map(text_of).collect();
    assert_eq!(texts, vec![Some("a"), Some("x"), Some("c")]);
}

#[test]
fn get_child_and_mut_child_by_index() {
    let mut e = HtmlElement::default();
    e.add_child(HtmlNode::from("a"));
    assert!(e.get_child(1).is_none());
    assert!(e.mut_child(1).is_none());
    if let Some(c) = e.mut_child(0) {
        *c = HtmlNode::from("z");
    }
    assert_eq!(text_of(e.get_child(0).unwrap()), Some("z"));
    for c in e.mut_children().iter_mut() {
        *c = HtmlNode::Comment(Cow::Borrowed("gone"));
    }
    assert!(matches!(e.get_child(0), Some(HtmlNode::Comment(_))));
}

#[test]
fn build_returns_the_element() {
    let mut e = HtmlElement::default();
    e.set_tag(Cow::Borrowed("ul"));
    let built = e.build();
    assert_eq!(built.get_tag(), "ul");
}

#[test]
fn unsupported_operations_use_inert_defaults() {
    let mut b = Bare;
    assert!(!b.set_tag(Cow::Borrowed("x")));
    assert_eq!(b.get_tag(), "bare");
    assert!(b.get_attribute("id").is_none());
    assert!(b.mut_attribute("id").is_none());
    assert!(!b.set_attribute(Cow::Borrowed("id"), AttributeValue::Empty));
    assert!(!b.set_id(Cow::Borrowed("x")));
    assert_eq!(b.get_id(), None);
    assert!(b.get_classes().is_empty());
    assert!(!b.set_classes(vec![Cow::Borrowed("a")]));
    assert!(!b.add_class(Cow::Borrowed("a")));
    assert!(!b.remove_class("a"));
    assert!(b.get_child(0).is_none());
    assert!(b.mut_child(0).is_none());
    assert!(!b.set_child(0, HtmlNode::from("a")));
    assert!(!b.add_child(HtmlNode::from("a")));
    assert!(b.get_children().is_empty());
    assert!(b.mut_children().is_empty());
    assert!(!b.set_children(vec![HtmlNode::from("a")]));
    assert_eq!(b.build().get_tag(), "bare");
}

#[test]
fn end_to_end_div_scenario() {
    let mut e = HtmlElement::default();
    assert!(e.set_tag(Cow::Borrowed("div")));
    assert!(e.set_attribute(Cow::Borrowed("id"), AttributeValue::Constant("main")));
    assert!(e.set_classes(vec![Cow::Borrowed("a"), Cow::Borrowed("b"), Cow::Borrowed("a")]));
    assert!(e.add_child(HtmlNode::from("hello")));
    assert_eq!(e.get_tag(), "div");
    assert_eq!(e.get_id(), Some("main"));
    assert_eq!(e.get_classes(), vec!["a", "b"]);
    assert_eq!(e.get_children().len(), 1);
    assert_eq!(text_of(e.get_child(0).unwrap()), Some("hello"));
}

#[test]
fn debug_rendering_shows_structure() {
    let mut e = HtmlElement::default();
    e.set_tag(Cow::Borrowed("div"));
    e.add_child(HtmlNode::from("hi"));
    let text = format!("{:?}", e);
    assert!(text.contains("div"));
    assert!(text.contains("hi"));
}

#[test]
fn clone_copies_the_whole_tree() {
    let mut inner = HtmlElement::default();
    inner.set_tag(Cow::Borrowed("p"));
    inner.add_child(HtmlNode::from("deep"));
    let mut e = HtmlElement::default();
    e.set_tag(Cow::Borrowed("div"));
    e.set_id(Cow::Borrowed("main"));
    e.add_class(Cow::Borrowed("a"));
    e.add_child(HtmlNode::from(inner));
    let mut copy = e.clone();
    copy.set_tag(Cow::Borrowed("section"));
    assert_eq!(e.get_tag(), "div");
    assert_eq!(copy.get_id(), Some("main"));
    assert_eq!(copy.get_classes(), vec!["a"]);
    match copy.get_child(0) {
        Some(HtmlNode::Standard(p)) => {
            assert_eq!(p.get_tag(), "p");
            assert_eq!(text_of(p.get_child(0).unwrap()), Some("deep"));
        }
        _ => panic!("nested element missing"),
    }
}

#[test]
fn id_text_keeps_only_string_like_values() {
    assert_eq!(id_text(Some(&AttributeValue::Constant("k"))), Some("k"));
    let owned = AttributeValue::String("o".to_string());
    assert_eq!(id_text(Some(&owned)), Some("o"));
    assert_eq!(id_text(Some(&AttributeValue::Integer(5))), None);
    assert_eq!(id_text(Some(&AttributeValue::Empty)), None);
    assert_eq!(id_text(Some(&AttributeValue::Boolean(true))), None);
    assert_eq!(id_text(None), None);
}

#[test]
fn child_helpers_respect_bounds() {
    let mut kids = vec![HtmlNode::from("a"), HtmlNode::from("b")];
    assert_eq!(text_of(child_at(&kids, 1).unwrap()), Some("b"));
    assert!(child_at(&kids, 2).is_none());
    assert!(child_at(&[], 0).is_none());
    assert!(!replace_child(&mut kids, 2, HtmlNode::from("z")));
    assert!(replace_child(&mut kids, 0, HtmlNode::from("z")));
    assert_eq!(text_of(&kids[0]), Some("z"));
    assert_eq!(text_of(&kids[1]), Some("b"));
    if let Some(c) = child_at_mut(&mut kids, 1) {
        *c = HtmlNode::from("y");
    }
    assert!(child_at_mut(&mut kids, 5).is_none());
    assert_eq!(text_of(&kids[1]), Some("y"));
}
