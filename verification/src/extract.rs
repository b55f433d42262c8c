//! From the bytes of a package to the text of its document.

use crate::archive::{open_archive, read_file, zip_files};
use crate::error::DocxError;
use crate::tree::{
    lemma_no_runs_no_text, lemma_run_in_text, lemma_text_is_runs, nodes_runs, nodes_text, run_start,
    ElementTree, Node,
};
use crate::walk::parse_element;
use crate::xml::{read_xml_file, xml_nodes};
use html_builder::Buffer;
use vstd::prelude::*;

verus! {

/// The name, inside a package, of the part that holds the document's body.
pub const DOCUMENT_PART: &'static str = "word/document.xml";

/// The bytes of the document part of a package: `None` where the package is
/// no archive that opens, or the part cannot be had from it.
pub open spec fn document_part(package: Seq<u8>) -> Option<Seq<u8>> {
    match zip_files(package) {
        Some(files) => if files.contains_key(DOCUMENT_PART@) {
            Some(files[DOCUMENT_PART@])
        } else {
            None
        },
        None => None,
    }
}

/// The nodes beneath the root of the document in a package: `None` where the
/// package has no document part, or the part does not parse.
pub open spec fn document_nodes(package: Seq<u8>) -> Option<Seq<Node>> {
    match document_part(package) {
        Some(content) => xml_nodes(content),
        None => None,
    }
}

/// The text beneath `root` as one string: every text run in document order,
/// with nothing put between the runs and nothing written for the elements.
pub fn flatten(root: &ElementTree) -> (flat: Result<String, DocxError>)
    ensures
        flat matches Ok(text) && text@ == root.text(),
{
    let mut buffer = Buffer::new();
    match parse_element(root, &mut buffer) {
        Ok(()) => Ok(buffer.finish()),
        Err(error) => Err(error),
    }
}

/// The text of the document whose XML is `content`.
///
/// It fails, with `DocxError::XML`, exactly where `content` does not parse.
pub fn parse_document(content: &[u8]) -> (parsed: Result<String, DocxError>)
    ensures
        match xml_nodes(content@) {
            Some(nodes) => parsed matches Ok(text) && text@ == nodes_text(nodes),
            None => parsed matches Err(DocxError::XML(_)),
        },
{
    match read_xml_file(content) {
        Ok(root) => flatten(&root),
        Err(error) => Err(DocxError::from(error)),
    }
}

/// The text of the document in the package whose bytes are `bytes`.
///
/// It fails with `DocxError::Zip` exactly where `bytes` is no archive that
/// opens or the document part cannot be had from it, and with
/// `DocxError::XML` exactly where that part is there and does not parse. In
/// every other case it gives the whole text of the document. Nothing is given
/// back of a document that fails.
pub fn parse_file(bytes: Vec<u8>) -> (parsed: Result<String, DocxError>)
    ensures
        match document_part(bytes@) {
            None => parsed matches Err(DocxError::Zip(_)),
            Some(content) => match xml_nodes(content) {
                None => parsed matches Err(DocxError::XML(_)),
                Some(nodes) => parsed matches Ok(text) && text@ == nodes_text(nodes),
            },
        },
{
    let mut archive = match open_archive(bytes) {
        Ok(archive) => archive,
        Err(error) => {
            return Err(DocxError::from(error));
        },
    };
    let content = match read_file(&mut archive, DOCUMENT_PART) {
        Ok(content) => content,
        Err(error) => {
            return Err(DocxError::from(error));
        },
    };
    parse_document(content.as_slice())
}

/// Two readings of the same bytes end alike: both give the same text, or
/// both fail, and then for the same reason.
pub proof fn lemma_parse_file_repeats(
    bytes: Vec<u8>,
    first: Result<String, DocxError>,
    second: Result<String, DocxError>,
)
    requires
        call_ensures(parse_file, (bytes,), first),
        call_ensures(parse_file, (bytes,), second),
    ensures
        first matches Ok(once) ==> second matches Ok(again) && once@ == again@,
        first matches Err(DocxError::Zip(_)) ==> second matches Err(DocxError::Zip(_)),
        first matches Err(DocxError::XML(_)) ==> second matches Err(DocxError::XML(_)),
        first is Ok || first matches Err(DocxError::Zip(_)) || first matches Err(DocxError::XML(_)),
{
}

/// A package whose document part is there and parses is read with success,
/// and what is read is the text runs of the document, in document order, one
/// after the other: each run stands in it with its exact characters, behind
/// all the runs before it.
pub proof fn lemma_text_of_document(bytes: Vec<u8>, parsed: Result<String, DocxError>, at: int)
    requires
        call_ensures(parse_file, (bytes,), parsed),
        document_nodes(bytes@) matches Some(nodes) && 0 <= at < nodes_runs(nodes).len(),
    ensures
        parsed matches Ok(text) && document_nodes(bytes@) matches Some(nodes) && {
            &&& text@ == nodes_runs(nodes).flatten()
            &&& run_start(nodes_runs(nodes), at + 1) <= text@.len()
            &&& text@.subrange(
                run_start(nodes_runs(nodes), at),
                run_start(nodes_runs(nodes), at + 1),
            ) == nodes_runs(nodes)[at]
        },
{
    let nodes = document_nodes(bytes@)->Some_0;
    lemma_text_is_runs(nodes);
    lemma_run_in_text(nodes, at);
}

/// A package whose document holds no text run is read with success, and
/// what is read is the empty string.
pub proof fn lemma_document_without_text(bytes: Vec<u8>, parsed: Result<String, DocxError>)
    requires
        call_ensures(parse_file, (bytes,), parsed),
        document_nodes(bytes@) matches Some(nodes) && nodes_runs(nodes).len() == 0,
    ensures
        parsed matches Ok(text) && text@ == Seq::<char>::empty(),
{
    lemma_no_runs_no_text(document_nodes(bytes@)->Some_0);
}

} // verus!
