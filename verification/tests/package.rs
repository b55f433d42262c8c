use docx_text::{parse_file, DocxError, DOCUMENT_PART};
use std::io::{Cursor, Write};
use zip::result::ZipError;
use zip::write::SimpleFileOptions;
use zip::{CompressionMethod, ZipWriter};

const WORD_NS: &str = "http://schemas.openxmlformats.org/wordprocessingml/2006/main";

fn archive(files: &[(&str, &[u8])], method: CompressionMethod) -> Vec<u8> {
    let mut writer = ZipWriter::new(Cursor::new(Vec::new()));
    let options = SimpleFileOptions::default().compression_method(method);
    for (name, content) in files {
        writer.start_file(*name, options).unwrap();
        writer.write_all(content).unwrap();
    }
    writer.finish().unwrap().into_inner()
}

fn document(body: &str) -> String {
    format!(
        "<?xml version=\"1.0\" encoding=\"UTF-8\" standalone=\"yes\"?>\n<w:document xmlns:w=\"{}\"><w:body>{}</w:body></w:document>",
        WORD_NS, body
    )
}

fn package(body: &str) -> Vec<u8> {
    let xml = document(body);
    archive(
        &[
            ("[Content_Types].xml", b"<Types xmlns=\"t\"/>".as_slice()),
            ("word/document.xml", xml.as_bytes()),
        ],
        CompressionMethod::Deflated,
    )
}

fn simple_docx() -> Vec<u8> {
    package("<w:p><w:r><w:t>Hello</w:t></w:r></w:p>")
}

#[test]
fn test_simple() {
    let parsed = parse_file(simple_docx());
    assert!(matches!(parsed, Ok(_)));
    if let Ok(result) = parsed {
        assert!(result.contains("Hello"));
    }
}

#[test]
fn single_run_is_the_whole_text() {
    assert_eq!(parse_file(simple_docx()).unwrap(), "Hello");
}

#[test]
fn two_runs_of_a_paragraph_are_joined() {
    let bytes = package("<w:p><w:r><w:t>Hello</w:t></w:r><w:r><w:t> World</w:t></w:r></w:p>");
    assert_eq!(parse_file(bytes).unwrap(), "Hello World");
}

#[test]
fn paragraphs_follow_each_other_without_a_break() {
    let bytes = package(
        "<w:p><w:r><w:t>First</w:t></w:r></w:p><w:p><w:r><w:t>Second</w:t></w:r></w:p><w:p><w:r><w:t>Third</w:t></w:r></w:p>",
    );
    assert_eq!(parse_file(bytes).unwrap(), "FirstSecondThird");
}

#[test]
fn every_run_stands_in_the_text_in_document_order() {
    let bytes = package(
        "<w:p><w:r><w:t>alpha</w:t></w:r><w:r><w:rPr><w:b/></w:rPr><w:t>beta</w:t></w:r></w:p><w:tbl><w:tr><w:tc><w:p><w:r><w:t>gamma</w:t></w:r></w:p></w:tc></w:tr></w:tbl>",
    );
    let text = parse_file(bytes).unwrap();
    let alpha = text.find("alpha").unwrap();
    let beta = text.find("beta").unwrap();
    let gamma = text.find("gamma").unwrap();
    assert_eq!((alpha, beta, gamma), (0, 5, 9));
    assert_eq!(text.len(), 14);
}

#[test]
fn document_without_text_gives_the_empty_string() {
    let bytes = package("<w:p><w:r><w:rPr><w:b/></w:rPr></w:r></w:p><w:sectPr/>");
    assert_eq!(parse_file(bytes).unwrap(), "");
}

#[test]
fn document_of_one_empty_element_gives_the_empty_string() {
    let xml = format!("<w:document xmlns:w=\"{}\"/>", WORD_NS);
    let bytes = archive(&[("word/document.xml", xml.as_bytes())], CompressionMethod::Stored);
    assert_eq!(parse_file(bytes).unwrap(), "");
}

#[test]
fn text_is_kept_as_the_document_has_it() {
    let bytes = package("<w:p><w:r><w:t>  R&amp;D &lt;draft&gt;  \"two\"\n lines </w:t></w:r></w:p>");
    assert_eq!(parse_file(bytes).unwrap(), "  R&D <draft>  \"two\"\n lines ");
}

#[test]
fn text_beyond_ascii_is_kept() {
    let bytes = package("<w:p><w:r><w:t>h\u{e9}llo \u{2013} \u{4e16}\u{754c}</w:t></w:r></w:p>");
    assert_eq!(parse_file(bytes).unwrap(), "h\u{e9}llo \u{2013} \u{4e16}\u{754c}");
}

#[test]
fn tags_and_attributes_leave_no_trace() {
    let bytes = package("<w:p w:rsidR=\"00A1\"><w:pPr><w:jc w:val=\"center\"/></w:pPr><w:r><w:t>only this</w:t></w:r></w:p>");
    assert_eq!(parse_file(bytes).unwrap(), "only this");
}

#[test]
fn stored_and_deflated_parts_read_alike() {
    let xml = document("<w:p><w:r><w:t>packed or not</w:t></w:r></w:p>");
    let stored = archive(&[("word/document.xml", xml.as_bytes())], CompressionMethod::Stored);
    let deflated = archive(&[("word/document.xml", xml.as_bytes())], CompressionMethod::Deflated);
    assert_ne!(stored, deflated);
    assert_eq!(parse_file(stored).unwrap(), "packed or not");
    assert_eq!(parse_file(deflated).unwrap(), "packed or not");
}

#[test]
fn reading_twice_gives_the_same_text() {
    let bytes = package("<w:p><w:r><w:t>again and </w:t></w:r><w:r><w:t>again</w:t></w:r></w:p>");
    let first = parse_file(bytes.clone()).unwrap();
    let second = parse_file(bytes).unwrap();
    assert_eq!(first, "again and again");
    assert_eq!(first, second);
}

#[test]
fn failing_twice_fails_the_same_way() {
    let bytes = archive(&[("word/styles.xml", b"<w:styles xmlns:w=\"w\"/>".as_slice())], CompressionMethod::Stored);
    assert!(matches!(parse_file(bytes.clone()), Err(DocxError::Zip(ZipError::FileNotFound))));
    assert!(matches!(parse_file(bytes), Err(DocxError::Zip(ZipError::FileNotFound))));
}

#[test]
fn bytes_that_are_no_archive_fail_as_zip() {
    let parsed = parse_file(b"This is plain text, not a package at all.".to_vec());
    assert!(matches!(parsed, Err(DocxError::Zip(_))));
}

#[test]
fn no_bytes_fail_as_zip() {
    assert!(matches!(parse_file(Vec::new()), Err(DocxError::Zip(_))));
}

#[test]
fn xml_alone_is_no_package() {
    let parsed = parse_file(document("<w:p><w:r><w:t>Hello</w:t></w:r></w:p>").into_bytes());
    assert!(matches!(parsed, Err(DocxError::Zip(_))));
}

#[test]
fn archive_without_the_document_part_fails_as_zip() {
    let bytes = archive(
        &[
            ("[Content_Types].xml", b"<Types xmlns=\"t\"/>".as_slice()),
            ("word/styles.xml", b"<w:styles xmlns:w=\"w\"/>".as_slice()),
        ],
        CompressionMethod::Deflated,
    );
    assert!(matches!(parse_file(bytes), Err(DocxError::Zip(ZipError::FileNotFound))));
}

#[test]
fn empty_archive_fails_as_zip() {
    let bytes = archive(&[], CompressionMethod::Stored);
    assert!(matches!(parse_file(bytes), Err(DocxError::Zip(ZipError::FileNotFound))));
}

#[test]
fn part_name_must_match_exactly() {
    let xml = document("<w:p><w:r><w:t>Hello</w:t></w:r></w:p>");
    let bytes = archive(&[("Word/Document.xml", xml.as_bytes())], CompressionMethod::Stored);
    assert!(matches!(parse_file(bytes), Err(DocxError::Zip(ZipError::FileNotFound))));
}

#[test]
fn the_document_part_has_its_known_name() {
    assert_eq!(DOCUMENT_PART, "word/document.xml");
    let xml = document("<w:p><w:r><w:t>named</w:t></w:r></w:p>");
    let bytes = archive(&[(DOCUMENT_PART, xml.as_bytes())], CompressionMethod::Stored);
    assert_eq!(parse_file(bytes).unwrap(), "named");
}

#[test]
fn damaged_document_part_fails_as_zip() {
    let xml = document("<w:p><w:r><w:t>Hello</w:t></w:r></w:p>");
    let mut bytes = archive(&[("word/document.xml", xml.as_bytes())], CompressionMethod::Stored);
    let at = bytes.windows(5).position(|window| window == b"Hello").unwrap();
    bytes[at] = b'J';
    assert!(matches!(parse_file(bytes), Err(DocxError::Zip(ZipError::Io(_)))));
}

#[test]
fn cut_off_archive_fails_as_zip() {
    let mut bytes = simple_docx();
    bytes.truncate(bytes.len() / 2);
    assert!(matches!(parse_file(bytes), Err(DocxError::Zip(_))));
}

#[test]
fn document_part_that_is_no_xml_fails_as_xml() {
    let bytes = archive(&[("word/document.xml", b"no markup here".as_slice())], CompressionMethod::Stored);
    assert!(matches!(parse_file(bytes), Err(DocxError::XML(_))));
}

#[test]
fn empty_document_part_fails_as_xml() {
    let bytes = archive(&[("word/document.xml", b"".as_slice())], CompressionMethod::Stored);
    assert!(matches!(parse_file(bytes), Err(DocxError::XML(minidom::Error::EndOfDocument))));
}

#[test]
fn wrongly_closed_element_fails_as_xml() {
    let xml = format!("<w:document xmlns:w=\"{}\"><w:body><w:p>Hello</w:body></w:document>", WORD_NS);
    let bytes = archive(&[("word/document.xml", xml.as_bytes())], CompressionMethod::Deflated);
    assert!(matches!(parse_file(bytes), Err(DocxError::XML(_))));
}

#[test]
fn element_without_a_namespace_fails_as_xml() {
    let bytes = archive(&[("word/document.xml", b"<w:document><w:body/></w:document>".as_slice())], CompressionMethod::Stored);
    assert!(matches!(parse_file(bytes), Err(DocxError::XML(minidom::Error::MissingNamespace))));
}
