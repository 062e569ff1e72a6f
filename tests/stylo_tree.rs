use stylo_compute::error::StyleError;
use stylo_compute::stylo_element::{QuirksMode, StyloDocument, StyloElement, StyloNode};

fn tree() -> StyloElement {
    let parent = StyloElement::new("body");
    let mut e = StyloElement::new("div")
        .with_attribute("id", "main")
        .with_attribute("class", "  highlight  big\tnote ")
        .with_attribute("lang", "en");
    e.parent = Some(Box::new(parent));
    e.children.push(StyloElement::new("p"));
    e.children.push(StyloElement::new("a"));
    e
}

#[test]
fn attributes_set_id_and_classes() {
    let e = tree();
    assert!(e.has_id("main"));
    assert!(!e.has_id("other"));
    assert!(e.has_class("big"));
    assert!(e.has_class("note"));
    assert!(!e.has_class("highlight big"));
    assert_eq!(e.classes, vec!["highlight", "big", "note"]);
    assert_eq!(e.lang_attr().as_deref(), Some("en"));
    assert_eq!(e.attr_value("id").as_deref(), Some("main"));
    assert!(e.attr_value("title").is_none());
}

#[test]
fn attribute_set_twice_keeps_one_entry() {
    let e = StyloElement::new("div").with_attribute("title", "a").with_attribute("title", "b");
    assert_eq!(e.attributes, vec![("title".to_string(), "b".to_string())]);
}

#[test]
fn tree_walking() {
    let e = tree();
    let doc = StyloDocument::new(QuirksMode::Quirks);
    let node = StyloNode::new_element(&e, doc);
    assert!(node.is_element());
    assert_eq!(node.parent_node().unwrap().as_element().unwrap().tag_name, "body");
    assert_eq!(node.first_child().unwrap().as_element().unwrap().tag_name, "p");
    assert_eq!(node.last_child().unwrap().as_element().unwrap().tag_name, "a");
    assert!(node.as_document().is_none());
    assert_eq!(doc.as_node().as_document().unwrap().quirks_mode(), QuirksMode::Quirks);
    assert_eq!(e.traversal_children().len(), 2);
    assert!(e.traversal_children()[1].as_element().unwrap().is_link());
    assert!(!e.is_root());
    assert!(e.parent_element().unwrap().is_html_document_body_element());
    assert!(e.children[0].is_empty());
    assert!(e.has_local_name("div"));
    assert!(!e.is_same_type(&e.children[0]));
}

#[test]
fn style_error_messages() {
    assert_eq!(StyleError::MissingStylesheet.message(), "Missing required stylesheet");
    assert_eq!(StyleError::CssParsingError("bad".to_string()).message(), "CSS parsing error: bad");
}
