//! A small document tree in the shape that a style engine walks: documents,
//! nodes and elements with a tag name, attributes, an id, classes, a parent
//! and children.
use vstd::prelude::*;
use crate::style_map::{assigned, lookup, opt_view, pair_views, set_entry, style_get};
use crate::text::{char_views, chars_of, string_from_chars, string_views, words, words_exec};

verus! {

/// How closely a document follows the standards.
#[derive(Clone, Copy, Debug, PartialEq, Eq, Structural)]
pub enum QuirksMode {
    Quirks,
    LimitedQuirks,
    NoQuirks,
}

/// A document: the root of a tree of nodes.
#[derive(Clone, Copy, Debug)]
pub struct StyloDocument {
    pub quirks_mode: QuirksMode,
}

/// A node of the tree: an element, or the document itself.
#[derive(Clone, Copy, Debug)]
pub struct StyloNode<'a> {
    pub element: Option<&'a StyloElement>,
    pub document: StyloDocument,
}

/// An element: its tag name, attributes (each name once), id and classes,
/// with its parent and children.
#[derive(Debug)]
pub struct StyloElement {
    pub tag_name: String,
    pub attributes: Vec<(String, String)>,
    pub parent: Option<Box<StyloElement>>,
    pub children: Vec<StyloElement>,
    pub id: Option<String>,
    pub classes: Vec<String>,
}

/// A shadow root; this tree has none.
#[derive(Clone, Copy, Debug)]
pub struct StyloShadowRoot;

/// The element of a node, if it is one.
pub open spec fn node_element(n: StyloNode) -> Option<StyloElement> {
    match n.element {
        Some(e) => Some(*e),
        None => None,
    }
}

/// The parent of an element.
pub open spec fn parent_of(e: StyloElement) -> Option<StyloElement> {
    match e.parent {
        Some(p) => Some(*p),
        None => None,
    }
}

/// The parent element of a node.
pub open spec fn node_parent(n: StyloNode) -> Option<StyloElement> {
    match n.element {
        Some(e) => parent_of(*e),
        None => None,
    }
}

/// The first child of a node.
pub open spec fn node_first_child(n: StyloNode) -> Option<StyloElement> {
    match n.element {
        Some(e) => if e.children@.len() > 0 {
            Some(e.children@[0])
        } else {
            None
        },
        None => None,
    }
}

/// The last child of a node.
pub open spec fn node_last_child(n: StyloNode) -> Option<StyloElement> {
    match n.element {
        Some(e) => if e.children@.len() > 0 {
            Some(e.children@.last())
        } else {
            None
        },
        None => None,
    }
}

/// The standards-mode document of the nodes that an element hands out.
pub open spec fn standard_document() -> StyloDocument {
    StyloDocument { quirks_mode: QuirksMode::NoQuirks }
}

impl StyloDocument {
    /// A document in the given mode.
    pub fn new(quirks_mode: QuirksMode) -> (r: Self)
        ensures
            r.quirks_mode == quirks_mode,
    {
        StyloDocument { quirks_mode }
    }

    /// The document as a node of its tree.
    pub fn as_node<'a>(&self) -> (r: StyloNode<'a>)
        ensures
            r.element is None,
            r.document == *self,
    {
        StyloNode::new_document(*self)
    }

    /// Documents here are HTML documents.
    pub fn is_html_document(&self) -> (r: bool)
        ensures
            r,
    {
        true
    }

    /// The mode of the document.
    pub fn quirks_mode(&self) -> (r: QuirksMode)
        ensures
            r == self.quirks_mode,
    {
        self.quirks_mode
    }
}

impl<'a> StyloNode<'a> {
    /// The node of an element.
    pub fn new_element(element: &'a StyloElement, document: StyloDocument) -> (r: Self)
        ensures
            node_element(r) == Some(*element),
            r.document == document,
    {
        StyloNode { element: Some(element), document }
    }

    /// The node of the document.
    pub fn new_document(document: StyloDocument) -> (r: Self)
        ensures
            r.element is None,
            r.document == document,
    {
        StyloNode { element: None, document }
    }

    /// Whether the node is an element.
    pub fn is_element(&self) -> (r: bool)
        ensures
            r == self.element is Some,
    {
        self.element.is_some()
    }

    /// No node here is text.
    pub fn is_text_node(&self) -> (r: bool)
        ensures
            !r,
    {
        false
    }

    /// The node of the parent element, in the same document.
    pub fn parent_node(&self) -> (r: Option<StyloNode<'a>>)
        ensures
            match node_parent(*self) {
                Some(p) => r matches Some(n) && node_element(n) == Some(p) && n.document
                    == self.document,
                None => r is None,
            },
    {
        match self.element {
            Some(e) => match &e.parent {
                Some(p) => Some(StyloNode::new_element(&**p, self.document)),
                None => None,
            },
            None => None,
        }
    }

    /// The node of the first child, in the same document.
    pub fn first_child(&self) -> (r: Option<StyloNode<'a>>)
        ensures
            match node_first_child(*self) {
                Some(c) => r matches Some(n) && node_element(n) == Some(c) && n.document
                    == self.document,
                None => r is None,
            },
    {
        match self.element {
            Some(e) => if e.children.len() > 0 {
                Some(StyloNode::new_element(&e.children[0], self.document))
            } else {
                None
            },
            None => None,
        }
    }

    /// The node of the last child, in the same document.
    pub fn last_child(&self) -> (r: Option<StyloNode<'a>>)
        ensures
            match node_last_child(*self) {
                Some(c) => r matches Some(n) && node_element(n) == Some(c) && n.document
                    == self.document,
                None => r is None,
            },
    {
        match self.element {
            Some(e) => {
                let n = e.children.len();
                if n > 0 {
                    Some(StyloNode::new_element(&e.children[n - 1], self.document))
                } else {
                    None
                }
            },
            None => None,
        }
    }

    /// The document that holds the node.
    pub fn owner_doc(&self) -> (r: StyloDocument)
        ensures
            r == self.document,
    {
        self.document
    }

    /// The parent element, for walking the tree.
    pub fn traversal_parent(&self) -> (r: Option<&'a StyloElement>)
        ensures
            match node_parent(*self) {
                Some(p) => r matches Some(e) && *e == p,
                None => r is None,
            },
    {
        match self.element {
            Some(e) => match &e.parent {
                Some(p) => Some(&**p),
                None => None,
            },
            None => None,
        }
    }

    /// The element, if the node is one.
    pub fn as_element(&self) -> (r: Option<&'a StyloElement>)
        ensures
            r == self.element,
    {
        self.element
    }

    /// The document, if the node is the document itself.
    pub fn as_document(&self) -> (r: Option<StyloDocument>)
        ensures
            self.element is None ==> r == Some(self.document),
            self.element is Some ==> r is None,
    {
        if self.element.is_none() {
            Some(self.document)
        } else {
            None
        }
    }

    /// No node here is a shadow root.
    pub fn as_shadow_root(&self) -> (r: Option<StyloShadowRoot>)
        ensures
            r is None,
    {
        None
    }
}

fn strings_of(ws: &Vec<Vec<char>>) -> (r: Vec<String>)
    ensures
        string_views(r@) == char_views(ws@),
{
    let mut r: Vec<String> = Vec::new();
    let n = ws.len();
    let mut i: usize = 0;
    while i < n
        invariant
            n == ws@.len(),
            i <= n,
            string_views(r@) == char_views(ws@).take(i as int),
        decreases n - i,
    {
        let ghost old_r = r@;
        r.push(string_from_chars(ws[i].as_slice()));
        assert(string_views(r@) =~= string_views(old_r).push(ws@[i as int]@));
        assert(char_views(ws@).take(i + 1) =~= char_views(ws@).take(i as int).push(ws@[i as int]@));
        i = i + 1;
    }
    assert(char_views(ws@).take(n as int) =~= char_views(ws@));
    r
}

impl StyloElement {
    /// An element with this tag name and nothing else.
    pub fn new(tag_name: &str) -> (r: Self)
        ensures
            r.tag_name@ == tag_name@,
            r.attributes@.len() == 0,
            r.parent is None,
            r.children@.len() == 0,
            r.id is None,
            r.classes@.len() == 0,
    {
        StyloElement {
            tag_name: String::from_str(tag_name),
            attributes: Vec::new(),
            parent: None,
            children: Vec::new(),
            id: None,
            classes: Vec::new(),
        }
    }

    /// The element with attribute `name` set to `value`; `id` also sets the
    /// id, and `class` the classes: the white-space separated words of the
    /// value.
    pub fn with_attribute(self, name: &str, value: &str) -> (r: Self)
        ensures
            r.tag_name == self.tag_name,
            r.parent == self.parent,
            r.children == self.children,
            pair_views(r.attributes@) == assigned(pair_views(self.attributes@), name@, value@),
            opt_view(r.id) == if name@ == "id"@ {
                Some(value@)
            } else {
                opt_view(self.id)
            },
            string_views(r.classes@) == if name@ == "class"@ {
                words(value@)
            } else {
                string_views(self.classes@)
            },
    {
        proof {
            reveal_strlit("id");
            reveal_strlit("class");
        }
        let mut e = self;
        set_entry(&mut e.attributes, name, value);
        let key = String::from_str(name);
        if key == String::from_str("id") {
            e.id = Some(String::from_str(value));
            assert(name@.len() == 2);
            assert(name@ != "class"@);
        } else if key == String::from_str("class") {
            e.classes = strings_of(&words_exec(&chars_of(value)));
        }
        e
    }

    /// The node of the element, in a standards-mode document.
    pub fn as_node(&self) -> (r: StyloNode)
        ensures
            node_element(r) == Some(*self),
            r.document == standard_document(),
    {
        StyloNode::new_element(self, StyloDocument::new(QuirksMode::NoQuirks))
    }

    /// The nodes of the children, in order, in a standards-mode document.
    pub fn traversal_children(&self) -> (r: Vec<StyloNode>)
        ensures
            r@.len() == self.children@.len(),
            forall|i: int|
                0 <= i < r@.len() ==> node_element(#[trigger] r@[i]) == Some(self.children@[i])
                    && r@[i].document == standard_document(),
    {
        let document = StyloDocument::new(QuirksMode::NoQuirks);
        let mut r: Vec<StyloNode> = Vec::new();
        let n = self.children.len();
        let mut i: usize = 0;
        while i < n
            invariant
                n == self.children@.len(),
                document == standard_document(),
                i <= n,
                r@.len() == i,
                forall|k: int|
                    0 <= k < i ==> node_element(#[trigger] r@[k]) == Some(self.children@[k])
                        && r@[k].document == standard_document(),
            decreases n - i,
        {
            r.push(StyloNode::new_element(&self.children[i], document));
            i = i + 1;
        }
        r
    }

    /// The parent element.
    pub fn parent_element(&self) -> (r: Option<&StyloElement>)
        ensures
            match parent_of(*self) {
                Some(p) => r matches Some(e) && *e == p,
                None => r is None,
            },
    {
        match &self.parent {
            Some(p) => Some(&**p),
            None => None,
        }
    }

    /// Whether the tag name is `local_name`.
    pub fn has_local_name(&self, local_name: &str) -> (r: bool)
        ensures
            r == (self.tag_name@ == local_name@),
    {
        self.tag_name == String::from_str(local_name)
    }

    /// Whether both elements have the same tag name.
    pub fn is_same_type(&self, other: &Self) -> (r: bool)
        ensures
            r == (self.tag_name@ == other.tag_name@),
    {
        self.tag_name == other.tag_name
    }

    /// The value of attribute `name`.
    pub fn attr_value(&self, name: &str) -> (r: Option<String>)
        ensures
            opt_view(r) == lookup(pair_views(self.attributes@), name@),
    {
        style_get(&self.attributes, name)
    }

    /// Whether the element is a link: an `a` element.
    pub fn is_link(&self) -> (r: bool)
        ensures
            r == (self.tag_name@ == "a"@),
    {
        self.tag_name == String::from_str("a")
    }

    /// Whether the id is `id`.
    pub fn has_id(&self, id: &str) -> (r: bool)
        ensures
            r == (opt_view(self.id) == Some(id@)),
    {
        match &self.id {
            Some(own) => *own == String::from_str(id),
            None => false,
        }
    }

    /// Whether `name` is one of the classes.
    pub fn has_class(&self, name: &str) -> (r: bool)
        ensures
            r == string_views(self.classes@).contains(name@),
    {
        let key = String::from_str(name);
        let n = self.classes.len();
        let mut i: usize = 0;
        while i < n
            invariant
                n == self.classes@.len(),
                key@ == name@,
                i <= n,
                forall|k: int| 0 <= k < i ==> self.classes@[k]@ != name@,
            decreases n - i,
        {
            if self.classes[i] == key {
                assert(string_views(self.classes@)[i as int] == name@);
                return true;
            }
            i = i + 1;
        }
        assert forall|k: int| 0 <= k < n implies string_views(self.classes@)[k] != name@ by {
            assert(string_views(self.classes@)[k] == self.classes@[k]@);
        }
        false
    }

    /// Whether the element has no children.
    pub fn is_empty(&self) -> (r: bool)
        ensures
            r == (self.children@.len() == 0),
    {
        self.children.len() == 0
    }

    /// Whether the element has no parent.
    pub fn is_root(&self) -> (r: bool)
        ensures
            r == self.parent is None,
    {
        self.parent.is_none()
    }

    /// The id.
    pub fn id(&self) -> (r: Option<&String>)
        ensures
            r == match &self.id {
                Some(s) => Some(s),
                None => None::<&String>,
            },
    {
        self.id.as_ref()
    }

    /// The tag name.
    pub fn local_name(&self) -> (r: &String)
        ensures
            *r == self.tag_name,
    {
        &self.tag_name
    }

    /// The value of the `lang` attribute.
    pub fn lang_attr(&self) -> (r: Option<String>)
        ensures
            opt_view(r) == lookup(pair_views(self.attributes@), "lang"@),
    {
        style_get(&self.attributes, "lang")
    }

    /// Whether the element is the body of an HTML document.
    pub fn is_html_document_body_element(&self) -> (r: bool)
        ensures
            r == (self.tag_name@ == "body"@),
    {
        self.tag_name == String::from_str("body")
    }
}

} // verus!
