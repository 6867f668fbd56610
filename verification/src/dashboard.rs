//! The state of the dashboard: which entry is selected, and what is open.
use bytes::BytesMut;
use vstd::prelude::*;
use vstd::slice::slice_subrange;

use crate::buffer::buffer_as_slice;
use crate::buffer::buffer_bytes;
use crate::buffer::buffer_from_slice;
use crate::buffer::BUFFER_LIMIT;
use crate::bundle_accessor::FileAccessor;
use crate::bundle_accessor::SupportBundleAccessor;
use crate::error::DashboardError;
use crate::error::FileAccessError;
use crate::error::IndexError;
use crate::index::is_directory;
use crate::index::is_directory_path;
use crate::index::SupportBundleIndex;

verus! {

/// The most bytes that one buffering pass adds to a preview: 64 KiB.
pub const BUF_READER_CAPACITY: usize = 65536;

/// What stands in the preview of a directory entry: the text `<directory>`,
/// in ASCII.
pub const DIRECTORY_PREVIEW: [u8; 11] = [60, 100, 105, 114, 101, 99, 116, 111, 114, 121, 62];

/// What a dashboard has open.
pub enum FileView {
    /// No entry is open.
    Closed,
    /// An entry is open: `preview` holds the bytes buffered so far, and
    /// `unread` what its stream has still to give. A directory entry has no
    /// stream, and neither has a file whose stream was handed out. `next` is
    /// how many bytes the next buffering pass moves from the stream to the
    /// preview, if the stream's read succeeds.
    Open { preview: Seq<u8>, unread: Option<Seq<u8>>, next: nat },
}

/// A dashboard as its operations see it.
pub struct DashboardView {
    /// The entry paths, in the order of the index.
    pub files: Seq<Seq<char>>,
    /// The place of the selected entry in `files`.
    pub selected: int,
    /// What is open.
    pub file: FileView,
}

/// Whether `file` is a state that the entry at `path` can be in: a directory
/// entry shows its placeholder and has no stream; the bytes of a file are
/// its preview followed by what is still unread, and where its stream is
/// gone the preview is still the start of its bytes.
pub open spec fn tracks_entry(
    file: FileView,
    path: Seq<char>,
    contents: Map<Seq<char>, Seq<u8>>,
) -> bool {
    match file {
        FileView::Closed => true,
        FileView::Open { preview, unread: None, .. } => if is_directory_path(path) {
            preview == DIRECTORY_PREVIEW@
        } else {
            contents.contains_key(path) && preview.is_prefix_of(contents[path])
        },
        FileView::Open { preview, unread: Some(rest), .. } => !is_directory_path(path)
            && contents.contains_key(path) && preview + rest == contents[path],
    }
}

impl DashboardView {
    /// The path of the selected entry.
    pub open spec fn selected_path(self) -> Seq<char> {
        self.files[self.selected]
    }

    /// Whether the selection is an entry of the index and what is open is
    /// that entry, over a bundle that holds `contents`.
    pub open spec fn valid(self, contents: Map<Seq<char>, Seq<u8>>) -> bool {
        &&& 0 <= self.selected < self.files.len()
        &&& tracks_entry(self.file, self.selected_path(), contents)
    }
}

/// The selection after a move up by `count` from `selected`.
pub open spec fn moved_up(selected: int, count: int) -> int {
    if count >= selected {
        0
    } else {
        selected - count
    }
}

/// The selection after a move down by `count` from `selected`, among `len`
/// entries.
pub open spec fn moved_down(selected: int, count: int, len: int) -> int {
    if selected + count >= len {
        len - 1
    } else {
        selected + count
    }
}

/// The most bytes that one buffering pass asks of a stream for a preview
/// that holds `held` bytes: a full unit, or less where the preview has no
/// room for one.
pub open spec fn read_limit(held: int) -> int {
    if held >= BUFFER_LIMIT {
        0
    } else if BUFFER_LIMIT - held < BUF_READER_CAPACITY {
        BUFFER_LIMIT - held
    } else {
        BUF_READER_CAPACITY as int
    }
}

/// How many bytes the next buffering pass takes from `file` for a preview
/// that holds `held` bytes: what a read of `file` hands over when it is
/// asked for `read_limit(held)`, and nothing where there is no room.
pub open spec fn next_read<F: FileAccessor>(file: F, held: int) -> nat {
    if read_limit(held) <= 0 {
        0
    } else {
        file.read_len(read_limit(held) as nat)
    }
}

/// Whether the entry at `path` can be opened: it is a directory, or a file
/// that the bundle holds.
pub open spec fn openable(path: Seq<char>, contents: Map<Seq<char>, Seq<u8>>) -> bool {
    is_directory_path(path) || contents.contains_key(path)
}

/// Whether every entry of `files` can be opened.
pub open spec fn all_openable(files: Seq<Seq<char>>, contents: Map<Seq<char>, Seq<u8>>) -> bool {
    forall|i: int| 0 <= i < files.len() ==> openable(#[trigger] files[i], contents)
}

/// A directory entry that is open: its placeholder, and no stream.
pub open spec fn directory_entry() -> FileView {
    FileView::Open { preview: DIRECTORY_PREVIEW@, unread: None, next: 0 }
}

/// Whether `after` is the entry at `path` when it has just been opened: a
/// directory shows its placeholder and has no stream, and a file has an
/// empty preview and all of its bytes unread.
pub open spec fn just_opened(
    path: Seq<char>,
    contents: Map<Seq<char>, Seq<u8>>,
    after: FileView,
) -> bool {
    if is_directory_path(path) {
        after == directory_entry()
    } else {
        &&& contents.contains_key(path)
        &&& after matches FileView::Open { preview, unread, .. }
        &&& preview == Seq::<u8>::empty()
        &&& unread == Some(contents[path])
    }
}

/// Whether `after` is what one buffering pass makes of `before` when the
/// stream's read succeeds: the first `next` bytes of a live stream have
/// moved to the end of the preview. They are at most what was asked for, and
/// at least one unless nothing is left or there is no room. Where no stream
/// is live nothing changes.
pub open spec fn buffered_once(before: FileView, after: FileView) -> bool {
    match before {
        FileView::Open { preview, unread: Some(rest), next } => {
            &&& after matches FileView::Open { preview: grown, unread: Some(left), .. }
            &&& next <= rest.len()
            &&& next <= read_limit(preview.len() as int)
            &&& grown == preview + rest.take(next as int)
            &&& left == rest.skip(next as int)
            &&& next == 0 ==> rest.len() == 0 || read_limit(preview.len() as int) == 0
        },
        _ => after == before,
    }
}

/// Whether `after` holds the bytes that `before` holds: the same preview,
/// and the same bytes unread.
pub open spec fn same_bytes(before: FileView, after: FileView) -> bool {
    match before {
        FileView::Open { preview, unread, .. } => {
            &&& after matches FileView::Open { preview: kept, unread: left, .. }
            &&& kept == preview
            &&& left == unread
        },
        FileView::Closed => after == before,
    }
}

/// Whether `after` is the entry at `path` when it has been opened and
/// buffered once: a directory shows its placeholder; of a file the first
/// bytes are in the preview, at most one unit of them, and at least one
/// unless the file is empty.
pub open spec fn first_buffered(
    path: Seq<char>,
    contents: Map<Seq<char>, Seq<u8>>,
    after: FileView,
) -> bool {
    if is_directory_path(path) {
        after == directory_entry()
    } else {
        &&& contents.contains_key(path)
        &&& after matches FileView::Open { preview, unread: Some(rest), .. }
        &&& preview + rest == contents[path]
        &&& preview.len() <= read_limit(0)
        &&& preview.len() == 0 ==> rest.len() == 0
    }
}

/// Whether `after` and `result` are an outcome of opening the entry at
/// `path` over `before`: on success the entry as it is when just opened,
/// and on failure, which no directory entry meets, what was there before.
pub open spec fn opened(
    path: Seq<char>,
    contents: Map<Seq<char>, Seq<u8>>,
    before: FileView,
    after: FileView,
    result: Result<(), DashboardError>,
) -> bool {
    match result {
        Ok(()) => just_opened(path, contents, after),
        Err(error) => !is_directory_path(path) && after == before && error.is_access_failure(
            path,
        ),
    }
}

/// Whether `after` and `result` are an outcome of opening the entry at
/// `path` over `before` and buffering once. On success the entry is open
/// with its first bytes buffered. A failure, which no directory entry meets,
/// names the entry: where it could not be opened, what was there before
/// stays, and where its first read failed, it is open with nothing
/// buffered.
pub open spec fn opened_and_buffered(
    path: Seq<char>,
    contents: Map<Seq<char>, Seq<u8>>,
    before: FileView,
    after: FileView,
    result: Result<(), DashboardError>,
) -> bool {
    match result {
        Ok(()) => first_buffered(path, contents, after),
        Err(error) => {
            &&& !is_directory_path(path)
            &&& error.is_access_failure(path)
            &&& after == before || just_opened(path, contents, after)
        },
    }
}

/// Whether `after` and `result` are an outcome of moving the selection of
/// `before` to `target`: where the selection stays or nothing is open, only
/// the selection changes; else what was open is closed, and the entry at
/// `target` is opened and buffered from its start.
pub open spec fn selection_moved(
    before: DashboardView,
    after: DashboardView,
    target: int,
    contents: Map<Seq<char>, Seq<u8>>,
    result: Result<(), DashboardError>,
) -> bool {
    &&& after.files == before.files
    &&& after.selected == target
    &&& if target == before.selected || before.file is Closed {
        result is Ok && after.file == before.file
    } else {
        opened_and_buffered(before.files[target], contents, FileView::Closed, after.file, result)
    }
}

/// Whether `after` and `result` are an outcome of toggling what `before`
/// has open: an open entry is closed, and with nothing open the selected
/// entry is opened and buffered.
pub open spec fn toggled(
    before: DashboardView,
    after: DashboardView,
    contents: Map<Seq<char>, Seq<u8>>,
    result: Result<(), DashboardError>,
) -> bool {
    &&& after.files == before.files
    &&& after.selected == before.selected
    &&& if before.file is Open {
        result is Ok && after.file == FileView::Closed
    } else {
        opened_and_buffered(before.selected_path(), contents, before.file, after.file, result)
    }
}

/// A move of the selection, up or down and by any count, ends on an entry
/// of the index.
pub proof fn lemma_moves_stay_in_range(selected: int, count: int, len: int)
    requires
        0 <= selected < len,
        0 <= count,
    ensures
        0 <= moved_up(selected, count) < len,
        0 <= moved_down(selected, count, len) < len,
{
}

/// Opening a directory entry succeeds whatever the bundle holds and
/// whatever was open, and shows the placeholder with no stream, with or
/// without a buffering pass.
pub proof fn lemma_directory_opens(
    path: Seq<char>,
    contents: Map<Seq<char>, Seq<u8>>,
    before: FileView,
    after: FileView,
    result: Result<(), DashboardError>,
)
    requires
        is_directory_path(path),
        opened(path, contents, before, after, result) || opened_and_buffered(
            path,
            contents,
            before,
            after,
            result,
        ),
    ensures
        result is Ok,
        after == (FileView::Open { preview: DIRECTORY_PREVIEW@, unread: None, next: 0 }),
{
}

/// Toggling twice, from nothing open to the selected entry open and back,
/// leaves the dashboard as it was: nothing is open, and no preview and no
/// stream are left behind.
pub proof fn lemma_toggle_twice(
    start: DashboardView,
    middle: DashboardView,
    end: DashboardView,
    contents: Map<Seq<char>, Seq<u8>>,
    first: Result<(), DashboardError>,
    second: Result<(), DashboardError>,
)
    requires
        start.file is Closed,
        toggled(start, middle, contents, first),
        first is Ok,
        toggled(middle, end, contents, second),
    ensures
        middle.file is Open,
        second is Ok,
        end == start,
{
}

/// A change of the selection while an entry is open opens the newly
/// selected entry and buffers it from its start: what is open afterwards is
/// that entry and no other, with no byte of the old one, and where it could
/// not be opened nothing is open.
pub proof fn lemma_selection_change_reopens(
    before: DashboardView,
    after: DashboardView,
    target: int,
    contents: Map<Seq<char>, Seq<u8>>,
    result: Result<(), DashboardError>,
)
    requires
        before.file is Open,
        0 <= target < before.files.len(),
        target != before.selected,
        selection_moved(before, after, target, contents, result),
    ensures
        after.valid(contents),
        after.selected_path() == before.files[target],
        result is Ok ==> after.file is Open && first_buffered(
            after.selected_path(),
            contents,
            after.file,
        ),
        result is Err ==> after.file is Closed || just_opened(
            after.selected_path(),
            contents,
            after.file,
        ),
        after.file matches FileView::Open { preview, unread: Some(rest), .. } ==> preview + rest
            == contents[after.selected_path()],
{
}

/// What is left of an entry after its stream was handed out with `preview`
/// buffered: the preview, and no stream.
pub open spec fn stream_gone(preview: Seq<u8>) -> FileView {
    FileView::Open { preview, unread: None, next: 0 }
}

enum FileState<F> {
    Open { access: Option<F>, preview: BytesMut },
    Closed,
}

impl<F: FileAccessor> FileState<F> {
    spec fn view(self) -> FileView {
        match self {
            FileState::Closed => FileView::Closed,
            FileState::Open { access, preview } => FileView::Open {
                preview: buffer_bytes(preview),
                unread: match access {
                    Some(file) => Some(file.unread()),
                    None => None,
                },
                next: match access {
                    Some(file) => next_read(file, buffer_bytes(preview).len() as int),
                    None => 0,
                },
            },
        }
    }

    /// Whether the stream that is held, if any, cannot fail.
    spec fn steady(self) -> bool {
        match self {
            FileState::Open { access: Some(file), .. } => file.infallible(),
            _ => true,
        }
    }
}

/// The contents of an entry that a dashboard has let go: the bytes that it
/// had buffered, and then the rest of the stream.
pub struct StreamingFile<F: FileAccessor> {
    preview: BytesMut,
    copied: usize,
    access: F,
}

impl<F: FileAccessor> StreamingFile<F> {
    /// The buffered bytes that have not been handed out yet.
    pub closed spec fn buffered(&self) -> Seq<u8> {
        if self.copied <= buffer_bytes(self.preview).len() {
            buffer_bytes(self.preview).skip(self.copied as int)
        } else {
            Seq::empty()
        }
    }

    /// What the stream has still to give.
    pub closed spec fn live(&self) -> Seq<u8> {
        self.access.unread()
    }

    fn new(preview: BytesMut, access: F) -> (file: Self)
        ensures
            file.buffered() == buffer_bytes(preview),
            file.live() == access.unread(),
            file.unread() == buffer_bytes(preview) + access.unread(),
            file.infallible() == access.infallible(),
    {
        let file = StreamingFile { preview, copied: 0, access };
        file
    }

    /// What is left to read is what is left of the buffered bytes, and then
    /// what the stream has still to give.
    pub proof fn lemma_unread(&self)
        ensures
            self.unread() == self.buffered() + self.live(),
    {
    }
}

impl<F: FileAccessor> FileAccessor for StreamingFile<F> {
    closed spec fn unread(&self) -> Seq<u8> {
        self.buffered() + self.access.unread()
    }

    /// The buffered bytes are in memory, so that reading fails only where
    /// the stream does.
    closed spec fn infallible(&self) -> bool {
        self.access.infallible()
    }

    /// While buffered bytes are left, a read hands over all that is asked
    /// for, or all of them where that is less; after that, what a read of
    /// the stream hands over.
    closed spec fn read_len(&self, limit: nat) -> nat {
        if self.buffered().len() == 0 {
            self.access.read_len(limit)
        } else if self.buffered().len() < limit {
            self.buffered().len()
        } else {
            limit
        }
    }

    /// While buffered bytes are left, a read hands out the next of them and
    /// cannot fail; after that, it reads from the stream.
    fn read_buf(&mut self, buf: &mut Vec<u8>, limit: usize) -> (read: Result<
        usize,
        FileAccessError,
    >)
        ensures
            old(self).buffered().len() > 0 ==> {
                &&& read matches Ok(count)
                &&& count == if old(self).buffered().len() < limit {
                    old(self).buffered().len()
                } else {
                    limit as nat
                }
                &&& final(self).buffered() == old(self).buffered().skip(count as int)
                &&& final(self).live() == old(self).live()
            },
            old(self).buffered().len() == 0 ==> final(self).buffered().len() == 0,
            old(self).buffered().len() == 0 && read is Ok ==> final(self).live() == old(
                self,
            ).live().skip(read->Ok_0 as int),
    {
        let held = self.preview.len();
        if self.copied < held {
            let left = held - self.copied;
            let to_copy = if left < limit {
                left
            } else {
                limit
            };
            if to_copy == 0 {
                return Ok(0);
            }
            let src = slice_subrange(
                buffer_as_slice(&self.preview),
                self.copied,
                self.copied + to_copy,
            );
            buf.extend_from_slice(src);
            self.copied += to_copy;
            Ok(to_copy)
        } else {
            self.access.read_buf(buf, limit)
        }
    }
}

/// A dashboard for inspecting the contents of a support bundle.
pub struct SupportBundleDashboard<A: SupportBundleAccessor> {
    access: A,
    index: SupportBundleIndex,
    selected: usize,
    file: FileState<A::File>,
}

impl<A: SupportBundleAccessor> View for SupportBundleDashboard<A> {
    type V = DashboardView;

    closed spec fn view(&self) -> DashboardView {
        DashboardView {
            files: self.index@,
            selected: self.selected as int,
            file: self.file.view(),
        }
    }
}

impl<A: SupportBundleAccessor> SupportBundleDashboard<A> {
    /// What the bundle behind this dashboard holds.
    pub closed spec fn contents(&self) -> Map<Seq<char>, Seq<u8>> {
        self.access.contents()
    }

    /// Whether no operation of this dashboard can fail on an entry that can
    /// be opened: its bundle cannot fail, nor can the stream that is held.
    pub closed spec fn infallible(&self) -> bool {
        self.access.infallible() && self.file.steady()
    }

    /// The invariant of a dashboard.
    pub open spec fn wf(&self) -> bool {
        self@.valid(self.contents())
    }

    /// A dashboard over `access` and the index that it gave: the first entry
    /// is selected and nothing is open. An index without entries is refused.
    pub fn with_index(access: A, index: SupportBundleIndex) -> (made: Result<Self, DashboardError>)
        ensures
            index@.len() == 0 <==> made is Err,
            made matches Err(error) ==> error == DashboardError::EmptyBundle,
            made matches Ok(dashboard) ==> {
                &&& dashboard.wf()
                &&& dashboard.contents() == access.contents()
                &&& dashboard.infallible() == access.infallible()
                &&& dashboard@ == (DashboardView {
                    files: index@,
                    selected: 0,
                    file: FileView::Closed,
                })
            },
    {
        if index.files().len() == 0 {
            return Err(DashboardError::EmptyBundle);
        }
        Ok(SupportBundleDashboard { access, index, selected: 0, file: FileState::Closed })
    }

    /// A dashboard over `access` and what it gave when it was asked for its
    /// index: an index as `with_index` takes it, and else no dashboard and
    /// the accessor's error.
    pub fn with_listed(access: A, listed: Result<SupportBundleIndex, IndexError>) -> (made: Result<
        Self,
        DashboardError,
    >)
        ensures
            match listed {
                Ok(index) => {
                    &&& index@.len() == 0 <==> made is Err
                    &&& made matches Err(error) ==> error == DashboardError::EmptyBundle
                    &&& made matches Ok(dashboard) ==> {
                        &&& dashboard.wf()
                        &&& dashboard.contents() == access.contents()
                        &&& dashboard.infallible() == access.infallible()
                        &&& dashboard@ == (DashboardView {
                            files: index@,
                            selected: 0,
                            file: FileView::Closed,
                        })
                    }
                },
                Err(error) => made matches Err(DashboardError::Index(given)) && given == error,
            },
    {
        match listed {
            Ok(index) => Self::with_index(access, index),
            Err(error) => Err(DashboardError::Index(error)),
        }
    }

    /// A dashboard over the bundle that `access` reaches: what `with_listed`
    /// makes of the index that the accessor gives.
    pub fn new(access: A) -> (made: Result<Self, DashboardError>)
        ensures
            access.entries().len() == 0 ==> made is Err,
            made matches Err(DashboardError::EmptyBundle) ==> access.entries().len() == 0,
            made matches Err(error) ==> error is Index || error is EmptyBundle,
            made matches Ok(dashboard) ==> {
                &&& dashboard.wf()
                &&& dashboard.contents() == access.contents()
                &&& dashboard.infallible() == access.infallible()
                &&& dashboard@ == (DashboardView {
                    files: access.entries(),
                    selected: 0,
                    file: FileView::Closed,
                })
            },
    {
        let listed = access.get_index();
        Self::with_listed(access, listed)
    }

    /// The index of the bundle.
    pub fn index(&self) -> (index: &SupportBundleIndex)
        ensures
            index@ == self@.files,
    {
        &self.index
    }

    /// The place of the selected entry in the index.
    pub fn selected_file_index(&self) -> (selected: usize)
        ensures
            selected == self@.selected,
    {
        self.selected
    }

    /// The path of the selected entry.
    pub fn selected_file_name(&self) -> (name: &str)
        requires
            self.wf(),
        ensures
            name@ == self@.selected_path(),
    {
        self.index.files()[self.selected].as_str()
    }

    /// Moves the selection up by `count` entries, or to the first entry where
    /// there are fewer above. Where an entry is open and the selection has
    /// changed, it is closed, and the newly selected entry is opened and
    /// buffered from its start. On a dashboard that cannot fail, the move
    /// succeeds onto every entry that can be opened.
    pub fn select_up(&mut self, count: usize) -> (moved: Result<(), DashboardError>)
        requires
            old(self).wf(),
        ensures
            final(self).wf(),
            final(self).contents() == old(self).contents(),
            old(self).infallible() ==> final(self).infallible() && (openable(
                old(self)@.files[moved_up(old(self)@.selected, count as int)],
                old(self).contents(),
            ) ==> moved is Ok),
            0 <= final(self)@.selected < final(self)@.files.len(),
            selection_moved(
                old(self)@,
                final(self)@,
                moved_up(old(self)@.selected, count as int),
                old(self).contents(),
                moved,
            ),
    {
        let target = self.selected.saturating_sub(count);
        self.move_to(target)
    }

    /// Moves the selection down by `count` entries, or to the last entry
    /// where there are fewer below. Where an entry is open and the selection
    /// has changed, it is closed, and the newly selected entry is opened and
    /// buffered from its start. On a dashboard that cannot fail, the move
    /// succeeds onto every entry that can be opened.
    pub fn select_down(&mut self, count: usize) -> (moved: Result<(), DashboardError>)
        requires
            old(self).wf(),
        ensures
            final(self).wf(),
            final(self).contents() == old(self).contents(),
            old(self).infallible() ==> final(self).infallible() && (openable(
                old(self)@.files[moved_down(
                    old(self)@.selected,
                    count as int,
                    old(self)@.files.len() as int,
                )],
                old(self).contents(),
            ) ==> moved is Ok),
            0 <= final(self)@.selected < final(self)@.files.len(),
            selection_moved(
                old(self)@,
                final(self)@,
                moved_down(old(self)@.selected, count as int, old(self)@.files.len() as int),
                old(self).contents(),
                moved,
            ),
    {
        let last = self.index.files().len() - 1;
        let wanted = self.selected.saturating_add(count);
        let target = if wanted < last {
            wanted
        } else {
            last
        };
        self.move_to(target)
    }

    fn move_to(&mut self, target: usize) -> (moved: Result<(), DashboardError>)
        requires
            old(self).wf(),
            target < old(self)@.files.len(),
        ensures
            final(self).wf(),
            final(self).contents() == old(self).contents(),
            old(self).infallible() ==> final(self).infallible() && (openable(
                old(self)@.files[target as int],
                old(self).contents(),
            ) ==> moved is Ok),
            selection_moved(
                old(self)@,
                final(self)@,
                target as int,
                old(self).contents(),
                moved,
            ),
    {
        let old_selection = self.selected;
        let open = match &self.file {
            FileState::Open { .. } => true,
            FileState::Closed => false,
        };
        // An open entry follows the selection: the old one is let go before
        // the new one is opened.
        if old_selection != target && open {
            self.file = FileState::Closed;
            self.selected = target;
            self.open_and_buffer()
        } else {
            self.selected = target;
            Ok(())
        }
    }

    /// Closes the open entry, or with nothing open opens the selected entry
    /// and buffers once.
    pub fn toggle_file_open(&mut self) -> (done: Result<(), DashboardError>)
        requires
            old(self).wf(),
        ensures
            final(self).wf(),
            final(self).contents() == old(self).contents(),
            old(self).infallible() ==> final(self).infallible() && (openable(
                old(self)@.selected_path(),
                old(self).contents(),
            ) ==> done is Ok),
            toggled(old(self)@, final(self)@, old(self).contents(), done),
    {
        match &self.file {
            FileState::Open { .. } => {
                self.close_file();
                Ok(())
            },
            FileState::Closed => self.open_and_buffer(),
        }
    }

    /// Opens the selected entry from its start and buffers once. Where the
    /// entry cannot be opened, what was open stays as it was; where its first
    /// read fails, it stays open with nothing buffered.
    pub fn open_and_buffer(&mut self) -> (done: Result<(), DashboardError>)
        requires
            old(self).wf(),
        ensures
            final(self).wf(),
            final(self).contents() == old(self).contents(),
            old(self).infallible() ==> final(self).infallible() && (openable(
                old(self)@.selected_path(),
                old(self).contents(),
            ) ==> done is Ok),
            final(self)@.files == old(self)@.files,
            final(self)@.selected == old(self)@.selected,
            opened_and_buffered(
                old(self)@.selected_path(),
                old(self).contents(),
                old(self)@.file,
                final(self)@.file,
                done,
            ),
    {
        match self.open_file() {
            Ok(()) => self.read_to_buffer(),
            Err(error) => Err(error),
        }
    }

    /// Opens the selected entry from its start. A directory entry gets its
    /// placeholder as preview and no stream, without a word to the accessor;
    /// a file gets the stream that the accessor hands out and an empty
    /// preview. Where the accessor fails, what was open stays as it was.
    pub fn open_file(&mut self) -> (done: Result<(), DashboardError>)
        requires
            old(self).wf(),
        ensures
            final(self).wf(),
            final(self).contents() == old(self).contents(),
            old(self).infallible() ==> final(self).infallible() && (openable(
                old(self)@.selected_path(),
                old(self).contents(),
            ) ==> done is Ok),
            final(self)@.files == old(self)@.files,
            final(self)@.selected == old(self)@.selected,
            opened(
                old(self)@.selected_path(),
                old(self).contents(),
                old(self)@.file,
                final(self)@.file,
                done,
            ),
    {
        let path = self.index.files()[self.selected].as_str();
        if is_directory(path) {
            self.file = FileState::Open {
                access: None,
                preview: buffer_from_slice(DIRECTORY_PREVIEW.as_slice()),
            };
            return Ok(());
        }
        let opened = self.access.get_file(path);
        self.install_file(opened)
    }

    /// Takes what the accessor gave when it was asked for the selected
    /// entry, which is no directory: its stream is held with an empty
    /// preview, in place of what was open; a failure leaves what was open as
    /// it was and names the entry.
    pub fn install_file(&mut self, opened: Result<A::File, FileAccessError>) -> (done: Result<
        (),
        DashboardError,
    >)
        requires
            old(self).wf(),
            !is_directory_path(old(self)@.selected_path()),
            opened matches Ok(file) ==> old(self).contents().contains_key(
                old(self)@.selected_path(),
            ) && file.unread() == old(self).contents()[old(self)@.selected_path()],
        ensures
            final(self).wf(),
            final(self).contents() == old(self).contents(),
            old(self).infallible() && (opened matches Ok(file) ==> file.infallible())
                ==> final(self).infallible(),
            final(self)@.files == old(self)@.files,
            final(self)@.selected == old(self)@.selected,
            match opened {
                Ok(file) => done is Ok && final(self)@.file == (FileView::Open {
                    preview: Seq::empty(),
                    unread: Some(file.unread()),
                    next: next_read(file, 0),
                }),
                Err(cause) => {
                    &&& final(self)@.file == old(self)@.file
                    &&& done matches Err(DashboardError::FileAccess { path, cause: given })
                    &&& path@ == old(self)@.selected_path()
                    &&& given == cause
                },
            },
    {
        match opened {
            Ok(file) => {
                let preview = BytesMut::new();
                self.file = FileState::Open { access: Some(file), preview };
                Ok(())
            },
            Err(cause) => Err(
                DashboardError::FileAccess { path: self.index.files()[self.selected].clone(), cause },
            ),
        }
    }

    /// One buffering pass: asks the open entry's stream for the next bytes,
    /// as many as `read_limit` allows, and appends what comes to the
    /// preview. With nothing open, or no stream, or nothing left to read,
    /// nothing changes. Where the stream fails, the entry stays open with
    /// the bytes that it has.
    pub fn read_to_buffer(&mut self) -> (done: Result<(), DashboardError>)
        requires
            old(self).wf(),
        ensures
            final(self).wf(),
            final(self).contents() == old(self).contents(),
            old(self).infallible() ==> final(self).infallible() && done is Ok,
            final(self)@.files == old(self)@.files,
            final(self)@.selected == old(self)@.selected,
            match done {
                Ok(()) => buffered_once(old(self)@.file, final(self)@.file),
                Err(error) => {
                    &&& old(self)@.file matches FileView::Open { unread: Some(_), .. }
                    &&& same_bytes(old(self)@.file, final(self)@.file)
                    &&& error.is_access_failure(old(self)@.selected_path())
                },
            },
    {
        let mut state = FileState::Closed;
        core::mem::swap(&mut self.file, &mut state);
        match state {
            FileState::Open { access: Some(mut file), mut preview } => {
                let ghost rest = file.unread();
                let held = preview.len();
                if held >= BUFFER_LIMIT {
                    proof {
                        assert(rest.skip(0) =~= rest);
                    }
                    self.file = FileState::Open { access: Some(file), preview };
                    return Ok(());
                }
                let limit = Self::preview_read_limit(held);
                preview.reserve(limit);
                let mut chunk: Vec<u8> = Vec::new();
                let read = file.read_buf(&mut chunk, limit);
                proof {
                    if read is Ok {
                        assert(buffer_bytes(preview) + chunk@ + file.unread() =~= buffer_bytes(
                            preview,
                        ) + rest);
                    }
                }
                self.buffer_chunk(file, preview, chunk, read)
            },
            other => {
                self.file = other;
                Ok(())
            },
        }
    }

    /// How many bytes a buffering pass asks of a stream for a preview that
    /// holds `held` bytes.
    pub fn preview_read_limit(held: usize) -> (limit: usize)
        ensures
            limit == read_limit(held as int),
    {
        if held >= BUFFER_LIMIT {
            0
        } else if BUFFER_LIMIT - held < BUF_READER_CAPACITY {
            BUFFER_LIMIT - held
        } else {
            BUF_READER_CAPACITY
        }
    }

    /// Takes what a read of the selected entry's stream gave, with the
    /// stream `file` after the read and the `preview` from before it. The
    /// bytes that came, in `chunk`, are appended to the preview; after a
    /// failure the preview is as it was, and the error names the entry.
    /// Either way the entry is open with `file` as its stream.
    pub fn buffer_chunk(
        &mut self,
        file: A::File,
        preview: BytesMut,
        chunk: Vec<u8>,
        read: Result<usize, FileAccessError>,
    ) -> (done: Result<(), DashboardError>)
        requires
            0 <= old(self)@.selected < old(self)@.files.len(),
            read is Ok ==> buffer_bytes(preview).len() + chunk@.len() <= BUFFER_LIMIT,
            tracks_entry(
                FileView::Open {
                    preview: if read is Ok {
                        buffer_bytes(preview) + chunk@
                    } else {
                        buffer_bytes(preview)
                    },
                    unread: Some(file.unread()),
                    next: 0,
                },
                old(self)@.selected_path(),
                old(self).contents(),
            ),
        ensures
            final(self).wf(),
            final(self).contents() == old(self).contents(),
            old(self).infallible() && file.infallible() ==> final(self).infallible(),
            final(self)@.files == old(self)@.files,
            final(self)@.selected == old(self)@.selected,
            match read {
                Ok(_) => done is Ok && final(self)@.file == (FileView::Open {
                    preview: buffer_bytes(preview) + chunk@,
                    unread: Some(file.unread()),
                    next: next_read(file, (buffer_bytes(preview).len() + chunk@.len()) as int),
                }),
                Err(cause) => {
                    &&& final(self)@.file == (FileView::Open {
                        preview: buffer_bytes(preview),
                        unread: Some(file.unread()),
                        next: next_read(file, buffer_bytes(preview).len() as int),
                    })
                    &&& done matches Err(DashboardError::FileAccess { path, cause: given })
                    &&& path@ == old(self)@.selected_path()
                    &&& given == cause
                },
            },
    {
        match read {
            Ok(_) => {
                let mut preview = preview;
                preview.extend_from_slice(chunk.as_slice());
                self.file = FileState::Open { access: Some(file), preview };
                Ok(())
            },
            Err(cause) => {
                self.file = FileState::Open { access: Some(file), preview };
                Err(
                    DashboardError::FileAccess {
                        path: self.index.files()[self.selected].clone(),
                        cause,
                    },
                )
            },
        }
    }

    /// Hands out the open file's stream: the contents of the entry from the
    /// first byte on, the buffered bytes first and then the rest of the
    /// stream, so that no byte is read twice. The selection and the preview
    /// stay as they are, and the entry stays open without a stream, so that
    /// a second call gives nothing. With nothing open, or no stream, there
    /// is nothing to hand out and nothing changes.
    pub fn streaming_file_contents(&mut self) -> (stream: Option<StreamingFile<A::File>>)
        requires
            old(self).wf(),
        ensures
            final(self).wf(),
            final(self).contents() == old(self).contents(),
            old(self).infallible() ==> final(self).infallible() && (stream matches Some(file)
                ==> file.infallible()),
            final(self)@.files == old(self)@.files,
            final(self)@.selected == old(self)@.selected,
            match old(self)@.file {
                FileView::Open { preview, unread: Some(rest), .. } => {
                    &&& stream matches Some(file)
                    &&& file.buffered() == preview
                    &&& file.live() == rest
                    &&& file.unread() == preview + rest
                    &&& file.unread() == old(self).contents()[old(self)@.selected_path()]
                    &&& final(self)@.file == stream_gone(preview)
                },
                _ => stream is None && final(self)@ == old(self)@,
            },
    {
        let mut state = FileState::Closed;
        core::mem::swap(&mut self.file, &mut state);
        match state {
            FileState::Open { access: Some(file), preview } => {
                let buffered = buffer_from_slice(buffer_as_slice(&preview));
                self.file = FileState::Open { access: None, preview };
                Some(StreamingFile::new(buffered, file))
            },
            other => {
                self.file = other;
                None
            },
        }
    }

    /// Closes what is open: the stream and the preview are discarded.
    pub fn close_file(&mut self)
        requires
            old(self).wf(),
        ensures
            final(self).wf(),
            final(self).contents() == old(self).contents(),
            old(self).infallible() ==> final(self).infallible(),
            final(self)@ == (DashboardView { file: FileView::Closed, ..old(self)@ }),
    {
        self.file = FileState::Closed;
    }

    /// The bytes buffered of the open entry, or nothing where none is open.
    pub fn buffered_file_preview(&self) -> (preview: Option<&[u8]>)
        ensures
            match self@.file {
                FileView::Closed => preview is None,
                FileView::Open { preview: held, .. } => preview matches Some(bytes) && bytes@
                    == held,
            },
    {
        match &self.file {
            FileState::Closed => None,
            FileState::Open { preview, .. } => Some(buffer_as_slice(preview)),
        }
    }
}

} // verus!
