//! How the data and the listing of a support bundle are reached.
use std::io::Cursor;
use vstd::prelude::*;
use vstd::slice::slice_subrange;
use zip::ZipArchive;

use crate::archive::archive_source;
use crate::archive::archive_lists;
use crate::archive::list_archive;
use crate::archive::open_archive;
use crate::archive::read_archive_entry;
use crate::archive::zip_entries;
use crate::archive::zip_lists;
use crate::archive::zip_names;
use crate::archive::zip_opens;
use crate::error::FileAccessError;
use crate::error::IndexError;
use crate::index::join_lines;
use crate::index::parse_listing;
use crate::index::SupportBundleIndex;

verus! {

/// A source of bytes that is read from its start to its end: one file of a
/// bundle.
pub trait FileAccessor {
    /// The bytes that are still to be read, in the order in which they come.
    /// A file that does not say has none.
    open spec fn unread(&self) -> Seq<u8> {
        Seq::empty()
    }

    /// Whether reading this file cannot fail, now or later. A file that
    /// does not say can fail.
    open spec fn infallible(&self) -> bool {
        false
    }

    /// How many bytes the next read hands over when it is asked for at most
    /// `limit` and succeeds. A file that does not say hands over none.
    open spec fn read_len(&self, limit: nat) -> nat {
        0
    }

    /// Reads the next bytes, at most `limit` of them, and appends them to
    /// `buf`. It returns how many it read: none only where `limit` is zero or
    /// nothing is left. A read that fails has read nothing. A file that
    /// cannot fail gives no error, and stays such a file.
    fn read_buf(&mut self, buf: &mut Vec<u8>, limit: usize) -> (read: Result<
        usize,
        FileAccessError,
    >)
        ensures
            old(self).infallible() ==> read is Ok && final(self).infallible(),
            read matches Ok(count) ==> {
                &&& count == old(self).read_len(limit as nat)
                &&& count <= limit
                &&& count <= old(self).unread().len()
                &&& final(buf)@ == old(buf)@ + old(self).unread().take(count as int)
                &&& final(self).unread() == old(self).unread().skip(count as int)
                &&& count == 0 ==> limit == 0 || old(self).unread().len() == 0
            },
            read is Err ==> final(buf)@ == old(buf)@ && final(self).unread() == old(
                self,
            ).unread(),
    ;
}

/// How the listing and the files of a support bundle are reached. A bundle
/// is read only: what it holds stays as it is while files are opened.
pub trait SupportBundleAccessor {
    /// The files that this accessor hands out.
    type File: FileAccessor;

    /// The paths that the index of the bundle lists, in its order. A bundle
    /// that does not say lists none.
    open spec fn entries(&self) -> Seq<Seq<char>> {
        Seq::empty()
    }

    /// The files of the bundle that can be opened, by path, each with all of
    /// its bytes. A bundle that does not say holds none.
    open spec fn contents(&self) -> Map<Seq<char>, Seq<u8>> {
        Map::empty()
    }

    /// Whether every file that `contents` holds can be opened, now and
    /// later, and reading it cannot fail. A bundle that does not say can
    /// fail.
    open spec fn infallible(&self) -> bool {
        false
    }

    /// The index of the bundle.
    fn get_index(&self) -> (index: Result<SupportBundleIndex, IndexError>)
        ensures
            index matches Ok(listed) ==> listed@ == self.entries(),
    ;

    /// Opens the file at `path`. Each call hands out a file of its own, at
    /// its first byte. A bundle that cannot fail opens every file that it
    /// holds, as one that cannot fail, and stays such a bundle.
    fn get_file(&mut self, path: &str) -> (file: Result<Self::File, FileAccessError>)
        ensures
            final(self).contents() == old(self).contents(),
            file matches Ok(opened) ==> old(self).contents().contains_key(path@)
                && opened.unread() == old(self).contents()[path@],
            old(self).infallible() ==> {
                &&& final(self).infallible()
                &&& old(self).contents().contains_key(path@) ==> file is Ok
                &&& file matches Ok(opened) ==> opened.infallible()
            },
    ;
}

/// A file of a bundle that was read into memory as a whole, with the place
/// up to which it has been handed out.
pub struct AsyncZipFile {
    buf: Vec<u8>,
    copied: usize,
}

impl AsyncZipFile {
    #[verifier::type_invariant]
    spec fn within_bounds(self) -> bool {
        self.copied <= self.buf@.len()
    }

    /// A file that holds `buf` and stands at its first byte.
    pub fn new(buf: Vec<u8>) -> (file: Self)
        ensures
            file.unread() == buf@,
    {
        AsyncZipFile { buf, copied: 0 }
    }
}

impl FileAccessor for AsyncZipFile {
    closed spec fn unread(&self) -> Seq<u8> {
        self.buf@.skip(self.copied as int)
    }

    /// A file in memory cannot fail.
    open spec fn infallible(&self) -> bool {
        true
    }

    /// A file in memory hands over all that is asked for, or all that is
    /// left where that is less.
    open spec fn read_len(&self, limit: nat) -> nat {
        if self.unread().len() < limit {
            self.unread().len()
        } else {
            limit
        }
    }

    fn read_buf(&mut self, buf: &mut Vec<u8>, limit: usize) -> (read: Result<
        usize,
        FileAccessError,
    >)
        ensures
            read is Ok,
    {
        proof {
            use_type_invariant(&*self);
        }
        let left = self.buf.len() - self.copied;
        let to_copy = if left < limit {
            left
        } else {
            limit
        };
        if to_copy == 0 {
            return Ok(0);
        }
        let src = slice_subrange(self.buf.as_slice(), self.copied, self.copied + to_copy);
        buf.extend_from_slice(src);
        self.copied += to_copy;
        Ok(to_copy)
    }
}

/// How many bytes one step of `read_to_end` asks for.
pub const READ_STEP: usize = 65536;

/// Reads `file` to its end and appends what it holds to `out`. It returns
/// how many bytes it read. It fails only where a read of `file` fails, so
/// that on a file that cannot fail it succeeds; where it fails, `out` has
/// what was read before, and no byte is lost.
pub fn read_to_end<F: FileAccessor>(file: &mut F, out: &mut Vec<u8>) -> (read: Result<
    usize,
    FileAccessError,
>)
    ensures
        old(file).infallible() ==> read is Ok && final(file).infallible(),
        read matches Ok(count) ==> {
            &&& final(out)@ == old(out)@ + old(file).unread()
            &&& count == old(file).unread().len()
            &&& final(file).unread().len() == 0
        },
        read is Err ==> final(out)@ + final(file).unread() == old(out)@ + old(file).unread(),
{
    let start = out.len();
    loop
        invariant
            start == old(out)@.len(),
            out@.len() >= start,
            out@ + file.unread() == old(out)@ + old(file).unread(),
            old(file).infallible() ==> file.infallible(),
        decreases file.unread().len(),
    {
        match file.read_buf(out, READ_STEP) {
            Err(error) => {
                return Err(error);
            },
            Ok(count) => {
                if count == 0 {
                    return Ok(out.len() - start);
                }
            },
        }
    }
}

/// A support bundle in a zip archive that is held in memory.
pub struct LocalFileAccess {
    archive: ZipArchive<Cursor<Vec<u8>>>,
}

impl View for LocalFileAccess {
    type V = Seq<u8>;

    /// The bytes of the archive.
    closed spec fn view(&self) -> Seq<u8> {
        archive_source(self.archive)
    }
}

impl LocalFileAccess {
    /// Opens the zip archive that `bytes` holds.
    pub fn new(bytes: Vec<u8>) -> (access: Result<Self, IndexError>)
        ensures
            access is Ok <==> zip_opens(bytes@),
            access matches Ok(opened) ==> opened@ == bytes@,
            access matches Err(error) ==> error == IndexError::Unreadable,
    {
        match open_archive(bytes) {
            Ok(archive) => Ok(LocalFileAccess { archive }),
            Err(_) => Err(IndexError::Unreadable),
        }
    }
}

impl SupportBundleAccessor for LocalFileAccess {
    type File = AsyncZipFile;

    open spec fn entries(&self) -> Seq<Seq<char>> {
        match zip_names(self@) {
            Some(names) => parse_listing(join_lines(names)),
            None => Seq::empty(),
        }
    }

    open spec fn contents(&self) -> Map<Seq<char>, Seq<u8>> {
        zip_entries(self@)
    }

    /// An archive in memory gives every entry that can be read, as a file
    /// in memory.
    open spec fn infallible(&self) -> bool {
        true
    }

    fn get_index(&self) -> (index: Result<SupportBundleIndex, IndexError>)
        ensures
            index is Ok <==> zip_names(self@) is Some,
            index matches Err(error) ==> error == IndexError::Unparsable,
    {
        match list_archive(&self.archive) {
            Ok(names) => Ok(SupportBundleIndex::from_names(&names)),
            Err(_) => Err(IndexError::Unparsable),
        }
    }

    fn get_file(&mut self, path: &str) -> (file: Result<AsyncZipFile, FileAccessError>)
        ensures
            final(self)@ == old(self)@,
            file is Ok <==> old(self).contents().contains_key(path@),
            file matches Err(error) ==> (error == FileAccessError::NotFound <==> !zip_lists(
                old(self)@,
                path@,
            )),
            !zip_lists(old(self)@, path@) ==> file is Err && file->Err_0
                == FileAccessError::NotFound,
    {
        match read_archive_entry(&mut self.archive, path) {
            Ok(buf) => Ok(AsyncZipFile::new(buf)),
            Err(_) => {
                if archive_lists(&self.archive, path) {
                    Err(FileAccessError::Unreadable)
                } else {
                    Err(FileAccessError::NotFound)
                }
            },
        }
    }
}

} // verus!
