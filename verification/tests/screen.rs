use support_bundle_viewer::error::FileAccessError;
use support_bundle_viewer::error::IndexError;
use support_bundle_viewer::screen::preview_text;
use support_bundle_viewer::screen::Screen;
use support_bundle_viewer::screen::INVALID_PREVIEW;
use support_bundle_viewer::AsyncZipFile;
use support_bundle_viewer::SupportBundleAccessor;
use support_bundle_viewer::SupportBundleDashboard;
use support_bundle_viewer::SupportBundleIndex;

/// A bundle of a text, a directory and a file that is no text.
struct MixedBundle;

impl SupportBundleAccessor for MixedBundle {
    type File = AsyncZipFile;

    fn get_index(&self) -> Result<SupportBundleIndex, IndexError> {
        Ok(SupportBundleIndex::new("notes.txt\nlogs/\nblob.bin"))
    }

    fn get_file(&mut self, path: &str) -> Result<AsyncZipFile, FileAccessError> {
        match path {
            "notes.txt" => Ok(AsyncZipFile::new("héllo\nwörld".as_bytes().to_vec())),
            "blob.bin" => Ok(AsyncZipFile::new(vec![0x66, 0x6f, 0x80, 0xff])),
            _ => Err(FileAccessError::NotFound),
        }
    }
}

fn shown(screen: Screen<'_>) -> String {
    match screen {
        Screen::Picker { files, selected } => format!("pick {} of {:?}", selected, files),
        Screen::Viewer { title, preview } => format!("view {title}: {preview}"),
    }
}

#[test]
fn text_is_shown_as_it_is() {
    assert_eq!(preview_text(b"plain text"), "plain text");
    assert_eq!(preview_text("héllo ✓".as_bytes()), "héllo ✓");
    assert_eq!(preview_text(b""), "");
    assert_eq!(preview_text(b"<directory>"), "<directory>");
}

#[test]
fn bytes_that_are_no_text_get_a_notice() {
    assert_eq!(INVALID_PREVIEW, "Not valid UTF-8");
    assert_eq!(preview_text(&[0xff]), "Not valid UTF-8");
    assert_eq!(preview_text(&[0x61, 0x80]), "Not valid UTF-8");
    assert_eq!(preview_text(&"é".as_bytes()[..1]), "Not valid UTF-8");
}

#[test]
fn screen_lists_the_entries_while_nothing_is_open() {
    let mut dashboard = SupportBundleDashboard::new(MixedBundle).unwrap();
    assert_eq!(shown(dashboard.screen()), r#"pick 0 of ["notes.txt", "logs/", "blob.bin"]"#);
    dashboard.select_down(2).unwrap();
    assert_eq!(shown(dashboard.screen()), r#"pick 2 of ["notes.txt", "logs/", "blob.bin"]"#);
}

#[test]
fn screen_shows_the_open_entry_under_its_path() {
    let mut dashboard = SupportBundleDashboard::new(MixedBundle).unwrap();
    dashboard.toggle_file_open().unwrap();
    assert_eq!(shown(dashboard.screen()), "view notes.txt: héllo\nwörld");
    dashboard.select_down(1).unwrap();
    assert_eq!(shown(dashboard.screen()), "view logs/: <directory>");
    dashboard.select_down(1).unwrap();
    assert_eq!(shown(dashboard.screen()), "view blob.bin: Not valid UTF-8");
    dashboard.toggle_file_open().unwrap();
    assert_eq!(shown(dashboard.screen()), r#"pick 2 of ["notes.txt", "logs/", "blob.bin"]"#);
}
