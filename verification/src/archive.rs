//! The zip archive that a package is.

use std::io::{Cursor, Read};
use vstd::prelude::*;
use zip::result::ZipError;
use zip::ZipArchive;

verus! {

/// `std::io::Cursor`, through which an archive reads the bytes it was
/// opened on.
#[verifier::external_type_specification]
#[verifier::external_body]
#[verifier::reject_recursive_types(T)]
pub struct ExCursor<T>(std::io::Cursor<T>);

/// `zip::ZipArchive`, an open archive. What can be had from it is told by
/// [`archive_files`].
#[verifier::external_type_specification]
#[verifier::external_body]
#[verifier::reject_recursive_types(R)]
pub struct ExZipArchive<R>(zip::ZipArchive<R>);

/// `zip::result::ZipError`, the failure of an archive to open or to give a
/// file. It is carried to the caller as it is.
#[verifier::external_type_specification]
#[verifier::external_body]
pub struct ExZipError(zip::result::ZipError);

/// The files that can be had from an open archive: under each name that
/// `ZipArchive::by_name` finds and whose file can be read through to its
/// end, the bytes that reading it gives.
pub uninterp spec fn archive_files(archive: ZipArchive<Cursor<Vec<u8>>>) -> Map<Seq<char>, Seq<u8>>;

/// What `ZipArchive::new` makes of the bytes of an archive: the files that
/// can be had from the archive it opens, or `None` where it opens none.
pub uninterp spec fn zip_files(bytes: Seq<u8>) -> Option<Map<Seq<char>, Seq<u8>>>;

/// `ZipArchive::new`, on a cursor over `bytes`. Whether it opens an archive,
/// and which files can then be had from it, depends on `bytes` alone.
#[verifier::external_body]
pub(crate) fn open_archive(bytes: Vec<u8>) -> (opened: Result<ZipArchive<Cursor<Vec<u8>>>, ZipError>)
    ensures
        match opened {
            Ok(archive) => zip_files(bytes@) == Some(archive_files(archive)),
            Err(_) => zip_files(bytes@) is None,
        },
{
    ZipArchive::new(Cursor::new(bytes))
}

/// `ZipArchive::by_name`, and `read_to_end` on the file that it gives: the
/// bytes of the file named `name`. It fails where the archive has no file of
/// that name, where it will not read the file (one that is encrypted, or
/// packed in a way it does not know), and where the file's bytes end early
/// or do not match their checksum. The archive holds afterwards what it held
/// before.
#[verifier::external_body]
pub(crate) fn read_file(archive: &mut ZipArchive<Cursor<Vec<u8>>>, name: &str) -> (read: Result<
    Vec<u8>,
    ZipError,
>)
    ensures
        archive_files(*final(archive)) == archive_files(*old(archive)),
        match read {
            Ok(content) => archive_files(*old(archive)).contains_key(name@) && archive_files(
                *old(archive),
            )[name@] == content@,
            Err(_) => !archive_files(*old(archive)).contains_key(name@),
        },
{
    let mut file = archive.by_name(name)?;
    let mut content = Vec::new();
    file.read_to_end(&mut content)?;
    Ok(content)
}

} // verus!
