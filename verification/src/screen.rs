//! What a dashboard has to show: the list of entries with the selection, or
//! the preview of the open entry.
use vstd::prelude::*;
use vstd::string::StringSliceAdditionalSpecFns;
use vstd::utf8::decode_utf8;
use vstd::utf8::encode_utf8_decode_utf8;
use vstd::utf8::valid_utf8;

use crate::bundle_accessor::SupportBundleAccessor;
use crate::dashboard::FileView;
use crate::dashboard::SupportBundleDashboard;
use crate::index::path_texts;

verus! {

/// What is shown in place of a preview that is no text.
pub const INVALID_PREVIEW: &'static str = "Not valid UTF-8";

/// The text that shows a preview of `bytes`: what they encode where they
/// are valid UTF-8, and a notice where they are not.
pub open spec fn preview_text_of(bytes: Seq<u8>) -> Seq<char> {
    if valid_utf8(bytes) {
        decode_utf8(bytes)
    } else {
        INVALID_PREVIEW@
    }
}

/// `std::str::from_utf8`: the text that `bytes` are the encoding of, where
/// they are valid UTF-8, and nothing where they are not.
#[verifier::external_body]
fn text_of(bytes: &[u8]) -> (text: Option<&str>)
    ensures
        text is Some <==> valid_utf8(bytes@),
        text matches Some(decoded) ==> decoded.spec_bytes() == bytes@,
{
    std::str::from_utf8(bytes).ok()
}

/// The text that shows a preview of `bytes`.
pub fn preview_text(bytes: &[u8]) -> (text: &str)
    ensures
        text@ == preview_text_of(bytes@),
{
    match text_of(bytes) {
        Some(decoded) => {
            proof {
                encode_utf8_decode_utf8(decoded@);
            }
            decoded
        },
        None => INVALID_PREVIEW,
    }
}

/// What a dashboard shows.
pub enum Screen<'a> {
    /// Nothing is open: the entries of the index, with the selected one
    /// marked.
    Picker { files: &'a Vec<String>, selected: usize },
    /// An entry is open: its path, and its preview as text.
    Viewer { title: &'a str, preview: &'a str },
}

impl<A: SupportBundleAccessor> SupportBundleDashboard<A> {
    /// What this dashboard shows: the preview of the open entry under its
    /// path, or with nothing open the list of entries.
    pub fn screen(&self) -> (screen: Screen<'_>)
        requires
            self.wf(),
        ensures
            match self@.file {
                FileView::Closed => {
                    &&& screen matches Screen::Picker { files, selected }
                    &&& path_texts(files@) == self@.files
                    &&& selected == self@.selected
                },
                FileView::Open { preview: held, .. } => {
                    &&& screen matches Screen::Viewer { title, preview }
                    &&& title@ == self@.selected_path()
                    &&& preview@ == preview_text_of(held)
                },
            },
    {
        match self.buffered_file_preview() {
            Some(bytes) => Screen::Viewer {
                title: self.selected_file_name(),
                preview: preview_text(bytes),
            },
            None => Screen::Picker {
                files: self.index().files(),
                selected: self.selected_file_index(),
            },
        }
    }
}

} // verus!
