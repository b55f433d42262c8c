//! The walk over a document tree that writes its text out.

use crate::error::DocxError;
use crate::sink::{buffer_text, write_text};
use crate::tree::{nodes_text, ElementTree, Node};
use html_builder::Buffer;
use vstd::prelude::*;

verus! {

/// Writes the text at or beneath `node` at the end of `target`: a text run
/// as it is, an element by what lies beneath it. Nothing is written for the
/// element itself.
///
/// A write that failed would be given back as `DocxError::Fmt`; no write
/// into a buffer does, so the result is `Ok`.
pub fn parse_node(node: &Node, target: &mut Buffer) -> (walked: Result<(), DocxError>)
    ensures
        walked is Ok,
        buffer_text(*final(target)) == buffer_text(*old(target)) + node.text(),
    decreases node,
{
    match node {
        Node::Element(element) => parse_element(element, target),
        Node::Text(run) => match write_text(target, run.as_str()) {
            Ok(()) => Ok(()),
            Err(error) => Err(DocxError::from(error)),
        },
    }
}

/// Writes the text beneath `element` at the end of `target`: the text of
/// each of its nodes in turn, depth first, with nothing put between them.
///
/// The walk would end at the first write that failed and give that failure
/// back; no write into a buffer does, so it reaches the end and the result
/// is `Ok`.
pub fn parse_element(element: &ElementTree, target: &mut Buffer) -> (walked: Result<(), DocxError>)
    ensures
        walked is Ok,
        buffer_text(*final(target)) == buffer_text(*old(target)) + element.text(),
    decreases element,
{
    let mut index: usize = 0;
    while index < element.children.len()
        invariant
            index <= element.children.len(),
            buffer_text(*target) == buffer_text(*old(target)) + nodes_text(
                element.children@.take(index as int),
            ),
        decreases element.children.len() - index,
    {
        match parse_node(&element.children[index], target) {
            Ok(()) => {},
            Err(error) => {
                return Err(error);
            },
        }
        proof {
            let before = element.children@.take(index as int);
            let after = element.children@.take(index + 1);
            assert(after.drop_last() == before);
            assert(after.last() == element.children@[index as int]);
        }
        index += 1;
    }
    assert(element.children@.take(index as int) == element.children@);
    Ok(())
}

} // verus!
