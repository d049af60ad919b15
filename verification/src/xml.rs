//! A plain tree model of a parsed markup document.
//!
//! The update protocol and the session form are read from a generic element
//! tree. Parsing the text into that tree is delegated to an outside XML
//! parser; everything the engine reads from a node — its tag, its attributes,
//! its text — is held here as plain values, so the protocol logic over the
//! tree is ordinary verified code.

use vstd::prelude::*;

use crate::strutil::str_eq;

verus! {

/// The kind of one node of the tree.
#[derive(Clone, Copy, Debug, PartialEq, Eq, Structural)]
pub enum XmlNodeKind {
    /// An element (the document root counts as an element with an empty tag).
    Element,
    /// A text node; its characters are in `content`.
    Text,
    /// A comment; its characters are in `content`.
    Comment,
    /// A processing instruction.
    Pi,
}

/// One node of the tree, with its children.
#[derive(Debug)]
pub struct XmlNode {
    /// Node kind.
    pub kind: XmlNodeKind,
    /// Tag name of an element; empty for other kinds and for the root.
    pub tag: String,
    /// Attributes of an element, in document order, names unique.
    pub attrs: Vec<(String, String)>,
    /// Text of a text node or comment; empty for other kinds.
    pub content: String,
    /// Child nodes in document order.
    pub children: Vec<XmlNode>,
}

/// Whether the node is an element with the given tag name.
pub open spec fn is_elem_named(n: XmlNode, tag: Seq<char>) -> bool {
    n.kind is Element && n.tag@ == tag
}

/// The node's text: a text node's or comment's own characters, or, for an
/// element, the characters of its first child when that child is a text node.
pub open spec fn text_of(n: XmlNode) -> Option<Seq<char>> {
    match n.kind {
        XmlNodeKind::Text => Some(n.content@),
        XmlNodeKind::Comment => Some(n.content@),
        XmlNodeKind::Element => if n.children@.len() > 0 && n.children@[0].kind is Text {
            Some(n.children@[0].content@)
        } else {
            None
        },
        XmlNodeKind::Pi => None,
    }
}

/// First value among `attrs` whose name equals `name`.
pub open spec fn attr_lookup(attrs: Seq<(String, String)>, name: Seq<char>) -> Option<Seq<char>>
    decreases attrs.len(),
{
    if attrs.len() == 0 {
        None
    } else if attrs[0].0@ == name {
        Some(attrs[0].1@)
    } else {
        attr_lookup(attrs.drop_first(), name)
    }
}

/// The node's attribute value for `name`, if present.
pub open spec fn attr_of(n: XmlNode, name: Seq<char>) -> Option<Seq<char>> {
    attr_lookup(n.attrs@, name)
}

impl XmlNode {
    /// Whether this node is an element with the given tag name.
    pub fn is_named(&self, tag: &str) -> (r: bool)
        ensures
            r == is_elem_named(*self, tag@),
    {
        match self.kind {
            XmlNodeKind::Element => str_eq(self.tag.as_str(), tag),
            _ => false,
        }
    }

    /// The node's text, as [`text_of`] describes it.
    pub fn text(&self) -> (r: Option<&String>)
        ensures
            match r {
                Some(t) => text_of(*self) == Some(t@),
                None => text_of(*self) is None,
            },
    {
        match self.kind {
            XmlNodeKind::Text => Some(&self.content),
            XmlNodeKind::Comment => Some(&self.content),
            XmlNodeKind::Element => {
                if self.children.len() > 0 {
                    let first = &self.children[0];
                    match first.kind {
                        XmlNodeKind::Text => Some(&first.content),
                        _ => None,
                    }
                } else {
                    None
                }
            },
            XmlNodeKind::Pi => None,
        }
    }

    /// The first attribute value with the given name, if any.
    pub fn attribute(&self, name: &str) -> (r: Option<&String>)
        ensures
            match r {
                Some(v) => attr_of(*self, name@) == Some(v@),
                None => attr_of(*self, name@) is None,
            },
    {
        proof {
            assert(self.attrs@.skip(0) =~= self.attrs@);
        }
        let mut i: usize = 0;
        while i < self.attrs.len()
            invariant
                i <= self.attrs@.len(),
                attr_lookup(self.attrs@, name@) == attr_lookup(self.attrs@.skip(i as int), name@),
            decreases self.attrs@.len() - i,
        {
            if str_eq(self.attrs[i].0.as_str(), name) {
                proof {
                    assert(self.attrs@.skip(i as int)[0] == self.attrs@[i as int]);
                }
                return Some(&self.attrs[i].1);
            }
            proof {
                assert(self.attrs@.skip(i as int)[0] == self.attrs@[i as int]);
                assert(self.attrs@.skip(i as int).drop_first() =~= self.attrs@.skip(i + 1));
            }
            i += 1;
        }
        proof {
            assert(self.attrs@.skip(i as int).len() == 0);
        }
        None
    }
}

/// The element tree that the outside XML parser yields for a text, or `None`
/// where the text is not well-formed XML. The tree is a function of the text
/// alone.
pub uninterp spec fn xml_doc_of(s: Seq<char>) -> Option<XmlNode>;

/// Parses a text as XML into the plain tree model, rooted at the document
/// root (whose children are the document's top-level nodes).
///
/// Relies on `roxmltree::Document::parse`: the tree is a deterministic
/// function of the text, and parsing fails exactly on non-well-formed input.
#[verifier::external_body]
pub fn parse_xml(s: &str) -> (r: Option<XmlNode>)
    ensures
        r == xml_doc_of(s@),
{
    roxmltree::Document::parse(s).ok().map(|d| xml_node_to_tree(d.root()))
}

/// Converts one parsed node, with its subtree, into the plain tree model.
///
/// Relies on `roxmltree::Node`'s accessors: kind flags, `tag_name`,
/// `attributes`, `text` and `children`, each copied one for one.
#[verifier::external_body]
fn xml_node_to_tree(n: roxmltree::Node<'_, '_>) -> XmlNode {
    let kind = if n.is_element() || n.is_root() {
        XmlNodeKind::Element
    } else if n.is_text() {
        XmlNodeKind::Text
    } else {
        if n.is_comment() { XmlNodeKind::Comment } else { XmlNodeKind::Pi }
    };
    let textual = n.is_text() || n.is_comment();
    XmlNode {
        kind,
        tag: n.tag_name().name().to_string(),
        attrs: n.attributes().map(|a| (a.name().to_string(), a.value().to_string())).collect(),
        content: if textual { n.text().unwrap_or("").to_string() } else { String::new() },
        children: n.children().map(xml_node_to_tree).collect(),
    }
}

#[verifier::external_type_specification]
#[verifier::external_body]
pub struct ExRoxmltreeNode<'a, 'input: 'a>(roxmltree::Node<'a, 'input>);

} // verus!
