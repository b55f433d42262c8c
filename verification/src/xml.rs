//! The XML of the document part, parsed into a tree.

use crate::tree::{ElementTree, Node};
use minidom::quick_xml::Reader;
use vstd::prelude::*;

verus! {

/// `minidom::Element`, an element as the parser builds it. What lies
/// beneath it is told by [`element_nodes`].
#[verifier::external_type_specification]
#[verifier::external_body]
pub struct ExXmlElement(minidom::Element);

/// `minidom::Error`, the failure of the parser. It is carried to the caller
/// as it is.
#[verifier::external_type_specification]
#[verifier::external_body]
pub struct ExXmlError(minidom::Error);

/// The nodes beneath an element that the parser built, in document order:
/// each text node with its text, each element node with the nodes beneath it.
pub uninterp spec fn element_nodes(element: minidom::Element) -> Seq<Node>;

/// What `Element::from_reader` makes of the bytes of a document: the nodes
/// beneath the root element it builds, or `None` where it builds none.
pub uninterp spec fn xml_nodes(content: Seq<u8>) -> Option<Seq<Node>>;

/// `Element::from_reader`, on a reader over `content`. Whether it builds a
/// tree, and which, depends on `content` alone.
#[verifier::external_body]
pub(crate) fn parse_xml(content: &[u8]) -> (parsed: Result<minidom::Element, minidom::Error>)
    ensures
        match parsed {
            Ok(root) => xml_nodes(content@) == Some(element_nodes(root)),
            Err(_) => xml_nodes(content@) is None,
        },
{
    minidom::Element::from_reader(&mut Reader::from_reader(content))
}

/// `Element::nodes`: the nodes beneath `element`, in the order in which the
/// element holds them, each as a node of this library's tree.
#[verifier::external_body]
pub(crate) fn child_nodes(element: &minidom::Element) -> (children: Vec<Node>)
    ensures
        children@ == element_nodes(*element),
{
    let mut children = Vec::new();
    for node in element.nodes() {
        children.push(match node {
            minidom::Node::Element(child) => Node::Element(ElementTree { children: child_nodes(child) }),
            minidom::Node::Text(run) => Node::Text(run.clone()),
        });
    }
    children
}

/// Parses the bytes of a document part into a tree.
///
/// It succeeds exactly where the parser builds a tree from `content`, and
/// the root then holds the nodes that the parser put beneath its own root.
pub fn read_xml_file(content: &[u8]) -> (read: Result<ElementTree, minidom::Error>)
    ensures
        match read {
            Ok(root) => xml_nodes(content@) == Some(root.children@),
            Err(_) => xml_nodes(content@) is None,
        },
{
    match parse_xml(content) {
        Ok(root) => Ok(ElementTree { children: child_nodes(&root) }),
        Err(error) => Err(error),
    }
}

} // verus!
