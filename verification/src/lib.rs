//! Reads the text of a word-processing document package.
//!
//! A package is a zip archive; its body is the XML part named
//! [`DOCUMENT_PART`]. [`parse_file`] takes the bytes of a package, finds that
//! part, parses it into a tree and flattens the tree into the text it holds,
//! in document order.

pub mod archive;
pub mod error;
pub mod extract;
pub mod sink;
pub mod tree;
pub mod walk;
pub mod xml;

pub use error::DocxError;
pub use extract::{flatten, parse_document, parse_file, DOCUMENT_PART};
pub use tree::{ElementTree, Node};
pub use walk::{parse_element, parse_node};
pub use xml::read_xml_file;
