use std::io::Cursor;
use std::io::Write;

use support_bundle_viewer::bundle_accessor::read_to_end;
use support_bundle_viewer::error::FileAccessError;
use support_bundle_viewer::error::IndexError;
use support_bundle_viewer::AsyncZipFile;
use support_bundle_viewer::FileAccessor;
use support_bundle_viewer::LocalFileAccess;
use support_bundle_viewer::SupportBundleAccessor;
use zip::write::SimpleFileOptions;
use zip::CompressionMethod;
use zip::ZipWriter;

fn numbered_bytes(len: usize) -> Vec<u8> {
    (0..len).map(|i| (i % 251) as u8).collect()
}

fn archive_of(entries: &[(&str, Option<&[u8]>)], method: CompressionMethod) -> Vec<u8> {
    let mut writer = ZipWriter::new(Cursor::new(Vec::new()));
    let options = SimpleFileOptions::default().compression_method(method);
    for (name, bytes) in entries {
        match bytes {
            Some(bytes) => {
                writer.start_file(*name, options).unwrap();
                writer.write_all(bytes).unwrap();
            }
            None => writer.add_directory(*name, options).unwrap(),
        }
    }
    writer.finish().unwrap().into_inner()
}

fn entry_paths(access: &LocalFileAccess) -> Vec<String> {
    access.get_index().unwrap().files().clone()
}

#[test]
fn memory_file_reads_in_chunks_of_the_limit() {
    let mut file = AsyncZipFile::new(b"hello world".to_vec());
    let mut buf = b">".to_vec();
    assert_eq!(file.read_buf(&mut buf, 5), Ok(5));
    assert_eq!(buf, b">hello");
    assert_eq!(file.read_buf(&mut buf, 5), Ok(5));
    assert_eq!(buf, b">hello worl");
    assert_eq!(file.read_buf(&mut buf, 5), Ok(1));
    assert_eq!(buf, b">hello world");
    assert_eq!(file.read_buf(&mut buf, 5), Ok(0));
    assert_eq!(buf, b">hello world");
}

#[test]
fn memory_file_reads_nothing_with_no_limit() {
    let mut file = AsyncZipFile::new(b"abc".to_vec());
    let mut buf = Vec::new();
    assert_eq!(file.read_buf(&mut buf, 0), Ok(0));
    assert!(buf.is_empty());
    assert_eq!(file.read_buf(&mut buf, usize::MAX), Ok(3));
    assert_eq!(buf, b"abc");
}

#[test]
fn empty_memory_file_is_at_its_end() {
    let mut file = AsyncZipFile::new(Vec::new());
    let mut buf = Vec::new();
    assert_eq!(file.read_buf(&mut buf, 10), Ok(0));
    assert!(buf.is_empty());
}

#[test]
fn read_to_end_appends_what_is_left() {
    let bytes = numbered_bytes(200_000);
    let mut file = AsyncZipFile::new(bytes.clone());
    let mut head = Vec::new();
    assert_eq!(file.read_buf(&mut head, 1000), Ok(1000));
    let mut out = b"seen:".to_vec();
    assert_eq!(read_to_end(&mut file, &mut out), Ok(199_000));
    assert_eq!(&out[..5], b"seen:");
    assert_eq!(&out[5..], &bytes[1000..]);
    assert_eq!(read_to_end(&mut file, &mut out), Ok(0));
    assert_eq!(out.len(), 199_005);
}

#[test]
fn garbage_is_no_archive() {
    let opened = LocalFileAccess::new(b"this is not a zip archive".to_vec());
    assert_eq!(opened.err(), Some(IndexError::Unreadable));
    let opened = LocalFileAccess::new(Vec::new());
    assert_eq!(opened.err(), Some(IndexError::Unreadable));
}

#[test]
fn archive_lists_its_entries_in_order() {
    let bytes = archive_of(
        &[("a.txt", Some(b"alpha")), ("b", None), ("b/c.txt", Some(b"nested"))],
        CompressionMethod::Deflated,
    );
    let access = LocalFileAccess::new(bytes).unwrap();
    assert_eq!(entry_paths(&access), vec!["a.txt", "b/", "b/c.txt"]);
}

#[test]
fn archive_order_is_kept_unsorted() {
    let bytes = archive_of(
        &[("z.log", Some(b"z")), ("a.log", Some(b"a")), ("m.log", Some(b"m"))],
        CompressionMethod::Stored,
    );
    let access = LocalFileAccess::new(bytes).unwrap();
    assert_eq!(entry_paths(&access), vec!["z.log", "a.log", "m.log"]);
}

#[test]
fn archive_without_entries_has_an_empty_index() {
    let access = LocalFileAccess::new(archive_of(&[], CompressionMethod::Stored)).unwrap();
    assert!(entry_paths(&access).is_empty());
}

#[test]
fn archive_entry_is_read_whole() {
    let big = numbered_bytes(300_000);
    let bytes = archive_of(
        &[("small.txt", Some(b"alpha")), ("big.bin", Some(&big))],
        CompressionMethod::Deflated,
    );
    let mut access = LocalFileAccess::new(bytes).unwrap();
    let mut file = access.get_file("big.bin").unwrap();
    let mut out = Vec::new();
    assert_eq!(read_to_end(&mut file, &mut out), Ok(300_000));
    assert_eq!(out, big);
    let mut file = access.get_file("small.txt").unwrap();
    let mut out = Vec::new();
    assert_eq!(read_to_end(&mut file, &mut out), Ok(5));
    assert_eq!(out, b"alpha");
}

#[test]
fn two_streams_of_one_entry_share_nothing() {
    let bytes = archive_of(&[("a.txt", Some(b"0123456789"))], CompressionMethod::Stored);
    let mut access = LocalFileAccess::new(bytes).unwrap();
    let mut first = access.get_file("a.txt").unwrap();
    let mut seen = Vec::new();
    assert_eq!(first.read_buf(&mut seen, 4), Ok(4));
    let mut second = access.get_file("a.txt").unwrap();
    let mut other = Vec::new();
    assert_eq!(second.read_buf(&mut other, 3), Ok(3));
    assert_eq!(other, b"012");
    assert_eq!(first.read_buf(&mut seen, 4), Ok(4));
    assert_eq!(seen, b"01234567");
    assert_eq!(read_to_end(&mut second, &mut other), Ok(7));
    assert_eq!(other, b"0123456789");
}

#[test]
fn missing_entry_is_not_found() {
    let bytes = archive_of(&[("a.txt", Some(b"alpha"))], CompressionMethod::Stored);
    let mut access = LocalFileAccess::new(bytes).unwrap();
    assert_eq!(access.get_file("b.txt").err(), Some(FileAccessError::NotFound));
    assert_eq!(access.get_file("").err(), Some(FileAccessError::NotFound));
    assert!(access.get_file("a.txt").is_ok());
}

#[test]
fn damaged_entry_is_unreadable() {
    let payload = numbered_bytes(4096);
    let mut bytes = archive_of(&[("a.bin", Some(&payload))], CompressionMethod::Stored);
    let at = bytes.windows(8).position(|window| window == &payload[..8]).unwrap();
    bytes[at + 100] ^= 0xff;
    let mut access = LocalFileAccess::new(bytes).unwrap();
    assert_eq!(entry_paths(&access), vec!["a.bin"]);
    assert_eq!(access.get_file("a.bin").err(), Some(FileAccessError::Unreadable));
}

#[test]
fn directory_entry_of_an_archive_is_empty() {
    let bytes = archive_of(&[("b", None)], CompressionMethod::Stored);
    let mut access = LocalFileAccess::new(bytes).unwrap();
    let mut file = access.get_file("b/").unwrap();
    let mut out = Vec::new();
    assert_eq!(read_to_end(&mut file, &mut out), Ok(0));
    assert!(out.is_empty());
}
