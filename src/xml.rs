//! A two-level XML document (a root, its entries, and each entry's text
//! children) and its rendering.

use simple_xml_builder::XMLElement;
use vstd::prelude::*;

verus! {

/// A child element that holds text only.
pub struct XmlLeaf {
    pub tag: String,
    pub text: String,
}

/// An element of the root, with attributes and text children.
pub struct XmlEntry {
    pub tag: String,
    pub attributes: Vec<(String, String)>,
    pub children: Vec<XmlLeaf>,
}

pub struct XmlEntryView {
    pub tag: Seq<char>,
    pub attributes: Seq<(Seq<char>, Seq<char>)>,
    pub children: Seq<(Seq<char>, Seq<char>)>,
}

impl View for XmlLeaf {
    type V = (Seq<char>, Seq<char>);

    open spec fn view(&self) -> (Seq<char>, Seq<char>) {
        (self.tag@, self.text@)
    }
}

impl View for XmlEntry {
    type V = XmlEntryView;

    open spec fn view(&self) -> XmlEntryView {
        XmlEntryView {
            tag: self.tag@,
            attributes: self.attributes@.map_values(|a: (String, String)| (a.0@, a.1@)),
            children: self.children@.map_values(|l: XmlLeaf| l@),
        }
    }
}

pub open spec fn entries_view(entries: Seq<XmlEntry>) -> Seq<XmlEntryView> {
    entries.map_values(|e: XmlEntry| e@)
}

/// The escaped form of one character of text or of an attribute value.
pub open spec fn escape_char(c: char) -> Seq<char> {
    if c == '&' {
        seq!['&', 'a', 'm', 'p', ';']
    } else if c == '"' {
        seq!['&', 'q', 'u', 'o', 't', ';']
    } else if c == '\'' {
        seq!['&', 'a', 'p', 'o', 's', ';']
    } else if c == '<' {
        seq!['&', 'l', 't', ';']
    } else if c == '>' {
        seq!['&', 'g', 't', ';']
    } else {
        seq![c]
    }
}

pub open spec fn xml_escape(s: Seq<char>) -> Seq<char>
    decreases s.len(),
{
    if s.len() == 0 {
        seq![]
    } else {
        xml_escape(s.drop_last()) + escape_char(s.last())
    }
}

/// ` name="value"` for each attribute, in order.
pub open spec fn attributes_text(attrs: Seq<(Seq<char>, Seq<char>)>) -> Seq<char>
    decreases attrs.len(),
{
    if attrs.len() == 0 {
        seq![]
    } else {
        attributes_text(attrs.drop_last()) + seq![' '] + attrs.last().0 + seq!['=', '"']
            + xml_escape(attrs.last().1) + seq!['"']
    }
}

/// A text child two levels deep: `\t\t<tag>text</tag>` and a newline.
pub open spec fn leaf_text(leaf: (Seq<char>, Seq<char>)) -> Seq<char> {
    seq!['\t', '\t', '<'] + leaf.0 + seq!['>'] + xml_escape(leaf.1) + seq!['<', '/'] + leaf.0
        + seq!['>', '\n']
}

pub open spec fn leaves_text(leaves: Seq<(Seq<char>, Seq<char>)>) -> Seq<char>
    decreases leaves.len(),
{
    if leaves.len() == 0 {
        seq![]
    } else {
        leaves_text(leaves.drop_last()) + leaf_text(leaves.last())
    }
}

/// An entry one level deep; one without children is written as an empty tag.
pub open spec fn entry_text(e: XmlEntryView) -> Seq<char> {
    if e.children.len() == 0 {
        seq!['\t', '<'] + e.tag + attributes_text(e.attributes) + seq![' ', '/', '>', '\n']
    } else {
        seq!['\t', '<'] + e.tag + attributes_text(e.attributes) + seq!['>', '\n']
            + leaves_text(e.children) + seq!['\t', '<', '/'] + e.tag + seq!['>', '\n']
    }
}

pub open spec fn entries_text(entries: Seq<XmlEntryView>) -> Seq<char>
    decreases entries.len(),
{
    if entries.len() == 0 {
        seq![]
    } else {
        entries_text(entries.drop_last()) + entry_text(entries.last())
    }
}

/// `<?xml version = "1.0" encoding = "UTF-8"?>` and a newline.
pub open spec fn xml_declaration() -> Seq<char> {
    seq!['<', '?', 'x', 'm', 'l', ' ', 'v', 'e', 'r', 's', 'i', 'o', 'n', ' ', '=', ' ', '"', '1',
        '.', '0', '"', ' ', 'e', 'n', 'c', 'o', 'd', 'i', 'n', 'g', ' ', '=', ' ', '"', 'U', 'T',
        'F', '-', '8', '"', '?', '>', '\n']
}

/// The document for a root element without attributes holding `entries`;
/// a root without entries is written as an empty tag.
pub open spec fn xml_document(root: Seq<char>, entries: Seq<XmlEntryView>) -> Seq<char> {
    if entries.len() == 0 {
        xml_declaration() + seq!['<'] + root + seq![' ', '/', '>', '\n']
    } else {
        xml_declaration() + seq!['<'] + root + seq!['>', '\n'] + entries_text(entries) + seq![
            '<',
            '/',
        ] + root + seq!['>', '\n']
    }
}

/// The document for a root element without attributes holding empty text:
/// `<root></root>`.
pub open spec fn empty_body_document(root: Seq<char>) -> Seq<char> {
    xml_declaration() + seq!['<'] + root + seq!['>', '<', '/'] + root + seq!['>', '\n']
}

/// A configuration document: the entries under the root, or an empty body
/// when there is none.
pub open spec fn config_document(root: Seq<char>, entries: Seq<XmlEntryView>) -> Seq<char> {
    if entries.len() == 0 {
        empty_body_document(root)
    } else {
        xml_document(root, entries)
    }
}

/// Attribute names of each entry are pairwise distinct.
pub open spec fn distinct_attribute_names(entries: Seq<XmlEntryView>) -> bool {
    forall|k: int, i: int, j: int|
        0 <= k < entries.len() && 0 <= i < j < entries[k].attributes.len()
            ==> entries[k].attributes[i].0 != entries[k].attributes[j].0
}

/// Relies on simple_xml_builder's XMLElement (new, add_attribute, add_text,
/// add_child, and its Display): a declaration line, then one element per
/// line indented by tabs, text and attribute values escaped, an element
/// without content written as `<tag />`, attributes in insertion order.
#[verifier::external_body]
fn render_document(root: &str, entries: &Vec<XmlEntry>) -> (r: String)
    requires
        distinct_attribute_names(entries_view(entries@)),
    ensures
        r@ == xml_document(root@, entries_view(entries@)),
{
    let mut doc = XMLElement::new(root);
    for e in entries.iter() {
        let mut el = XMLElement::new(&e.tag);
        for (k, v) in e.attributes.iter() {
            el.add_attribute(k, v);
        }
        for leaf in e.children.iter() {
            let mut child = XMLElement::new(&leaf.tag);
            child.add_text(&leaf.text);
            el.add_child(child);
        }
        doc.add_child(el);
    }
    doc.to_string()
}

/// Relies on simple_xml_builder's XMLElement (new, add_text, and its
/// Display): the declaration line, then `<root></root>` for a root holding
/// empty text.
#[verifier::external_body]
fn render_empty_body(root: &str) -> (r: String)
    ensures
        r@ == empty_body_document(root@),
{
    let mut doc = XMLElement::new(root);
    doc.add_text("");
    doc.to_string()
}

/// Renders a configuration document.
pub fn render_config(root: &str, entries: &Vec<XmlEntry>) -> (r: String)
    requires
        distinct_attribute_names(entries_view(entries@)),
    ensures
        r@ == config_document(root@, entries_view(entries@)),
{
    if entries.len() == 0 {
        render_empty_body(root)
    } else {
        render_document(root, entries)
    }
}

} // verus!
