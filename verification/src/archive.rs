//! Reading a zip archive that is held in memory.
use std::io::Cursor;
use vstd::prelude::*;
use zip::result::ZipError;
use zip::ZipArchive;

use crate::index::path_texts;

verus! {

/// `ZipArchive` of the crate zip: a zip archive, read through `R`.
#[verifier::external_type_specification]
#[verifier::external_body]
#[verifier::reject_recursive_types(R)]
pub struct ExZipArchive<R>(zip::read::ZipArchive<R>);

/// `std::io::Cursor`: a reader over the bytes in `T`.
#[verifier::external_type_specification]
#[verifier::external_body]
#[verifier::reject_recursive_types(T)]
pub struct ExCursor<T>(std::io::Cursor<T>);

/// `ZipError` of the crate zip: why an archive or an entry could not be
/// read.
#[verifier::external_type_specification]
#[verifier::external_body]
pub struct ExZipError(zip::result::ZipError);

/// The bytes that an archive reads from.
pub uninterp spec fn archive_source(archive: ZipArchive<Cursor<Vec<u8>>>) -> Seq<u8>;

/// Whether bytes can be opened as a zip archive.
pub uninterp spec fn zip_opens(bytes: Seq<u8>) -> bool;

/// The names of the entries of the zip archive in `bytes`, in the order of
/// its central directory; nothing where one of them cannot be decoded.
pub uninterp spec fn zip_names(bytes: Seq<u8>) -> Option<Seq<Seq<char>>>;

/// Whether the central directory of the zip archive in `bytes` holds an
/// entry under `name`.
pub uninterp spec fn zip_lists(bytes: Seq<u8>, name: Seq<char>) -> bool;

/// The entries of the zip archive in `bytes` that can be read to their end,
/// by name, each with its decompressed bytes.
pub uninterp spec fn zip_entries(bytes: Seq<u8>) -> Map<Seq<char>, Seq<u8>>;

/// `ZipArchive::new`, over a cursor on the bytes of an archive: it
/// reads the central directory, and fails where it finds none that it can
/// read. The archive that it gives reads from those bytes.
#[verifier::external_body]
pub(crate) fn open_archive(bytes: Vec<u8>) -> (opened: Result<
    ZipArchive<Cursor<Vec<u8>>>,
    ZipError,
>)
    ensures
        opened is Ok <==> zip_opens(bytes@),
        opened matches Ok(archive) ==> archive_source(archive) == bytes@,
{
    ZipArchive::new(Cursor::new(bytes))
}

/// `ZipArchive::file_names`, each name copied into a `String`: the
/// names come in the order of the central directory. One that cannot be
/// decoded makes the whole call fail.
#[verifier::external_body]
pub(crate) fn list_archive(archive: &ZipArchive<Cursor<Vec<u8>>>) -> (listed: Result<
    Vec<String>,
    ZipError,
>)
    ensures
        listed is Ok <==> zip_names(archive_source(*archive)) is Some,
        listed matches Ok(names) ==> Some(path_texts(names@)) == zip_names(
            archive_source(*archive),
        ),
{
    archive.file_names().map(|name| name.map(|text| text.into_owned())).collect()
}

/// `ZipArchive::index_for_name`: whether the central directory
/// holds an entry under `name`.
#[verifier::external_body]
pub(crate) fn archive_lists(archive: &ZipArchive<Cursor<Vec<u8>>>, name: &str) -> (listed: bool)
    ensures
        listed == zip_lists(archive_source(*archive), name@),
{
    archive.index_for_name(name).is_some()
}

/// `ZipArchive::by_name`, and `std::io::copy` of the entry that it
/// opens into a vector: the call succeeds on the names of `zip_entries` and
/// on no others, and hands out the bytes that stand there. It refuses a name
/// that the central directory does not hold. It moves the archive's cursor
/// and leaves the bytes that the archive reads from as they are.
#[verifier::external_body]
pub(crate) fn read_archive_entry(archive: &mut ZipArchive<Cursor<Vec<u8>>>, name: &str) -> (read:
    Result<Vec<u8>, ZipError>)
    ensures
        archive_source(*final(archive)) == archive_source(*old(archive)),
        read is Ok <==> zip_entries(archive_source(*old(archive))).contains_key(name@),
        read is Ok ==> zip_lists(archive_source(*old(archive)), name@),
        read matches Ok(bytes) ==> bytes@ == zip_entries(archive_source(*old(archive)))[name@],
{
    let mut entry = archive.by_name(name)?;
    let mut bytes = Vec::new();
    std::io::copy(&mut entry, &mut bytes)?;
    Ok(bytes)
}

} // verus!
