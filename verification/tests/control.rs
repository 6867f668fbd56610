use support_bundle_viewer::bundle_accessor::read_to_end;
use support_bundle_viewer::control::command_for_event;
use support_bundle_viewer::control::run_support_bundle_dashboard;
use support_bundle_viewer::control::DashboardCommand;
use support_bundle_viewer::control::DashboardEvent;
use support_bundle_viewer::control::DashboardKey;
use support_bundle_viewer::control::InspectRunStep;
use support_bundle_viewer::control::Tick;
use support_bundle_viewer::error::DashboardError;
use support_bundle_viewer::error::FileAccessError;
use support_bundle_viewer::error::IndexError;
use support_bundle_viewer::AsyncZipFile;
use support_bundle_viewer::SupportBundleAccessor;
use support_bundle_viewer::SupportBundleDashboard;
use support_bundle_viewer::SupportBundleIndex;

/// A bundle of files in memory under the names `0`, `1`, and so on, with a
/// directory `d/` after them.
struct NumberedBundle {
    files: Vec<Vec<u8>>,
}

impl SupportBundleAccessor for NumberedBundle {
    type File = AsyncZipFile;

    fn get_index(&self) -> Result<SupportBundleIndex, IndexError> {
        let mut names: Vec<String> = (0..self.files.len()).map(|i| i.to_string()).collect();
        names.push("d/".to_string());
        names.push("gone".to_string());
        Ok(SupportBundleIndex::from_names(&names))
    }

    fn get_file(&mut self, path: &str) -> Result<AsyncZipFile, FileAccessError> {
        match path.parse::<usize>() {
            Ok(i) if i < self.files.len() => Ok(AsyncZipFile::new(self.files[i].clone())),
            _ => Err(FileAccessError::NotFound),
        }
    }
}

fn numbered(count: usize) -> SupportBundleDashboard<NumberedBundle> {
    let files = (0..count).map(|i| format!("file {i}").into_bytes()).collect();
    SupportBundleDashboard::new(NumberedBundle { files }).unwrap()
}

fn key(key: DashboardKey) -> Option<DashboardEvent> {
    Some(DashboardEvent::Key { key, shifted: false })
}

fn shifted(key: DashboardKey) -> Option<DashboardEvent> {
    Some(DashboardEvent::Key { key, shifted: true })
}

fn going_on(clear: bool) -> Result<Tick, DashboardError> {
    Ok(Tick { step: InspectRunStep::Continue, clear, draw: true })
}

#[test]
fn keys_stand_for_commands() {
    let plain = |key| command_for_event(DashboardEvent::Key { key, shifted: false });
    let held = |key| command_for_event(DashboardEvent::Key { key, shifted: true });
    assert_eq!(plain(DashboardKey::Up), DashboardCommand::SelectUp(1));
    assert_eq!(plain(DashboardKey::Char('k')), DashboardCommand::SelectUp(1));
    assert_eq!(plain(DashboardKey::Char('K')), DashboardCommand::SelectUp(1));
    assert_eq!(held(DashboardKey::Up), DashboardCommand::SelectUp(5));
    assert_eq!(held(DashboardKey::Char('k')), DashboardCommand::SelectUp(5));
    assert_eq!(held(DashboardKey::Char('K')), DashboardCommand::SelectUp(5));
    assert_eq!(plain(DashboardKey::Down), DashboardCommand::SelectDown(1));
    assert_eq!(plain(DashboardKey::Char('j')), DashboardCommand::SelectDown(1));
    assert_eq!(plain(DashboardKey::Char('J')), DashboardCommand::SelectDown(1));
    assert_eq!(held(DashboardKey::Down), DashboardCommand::SelectDown(5));
    assert_eq!(held(DashboardKey::Char('j')), DashboardCommand::SelectDown(5));
    assert_eq!(held(DashboardKey::Char('J')), DashboardCommand::SelectDown(5));
    assert_eq!(plain(DashboardKey::Enter), DashboardCommand::ToggleOpen);
    assert_eq!(held(DashboardKey::Enter), DashboardCommand::ToggleOpen);
    assert_eq!(plain(DashboardKey::Char(' ')), DashboardCommand::PipeFile);
    assert_eq!(held(DashboardKey::Char(' ')), DashboardCommand::PipeFile);
    assert_eq!(plain(DashboardKey::Char('q')), DashboardCommand::Quit);
    assert_eq!(held(DashboardKey::Char('q')), DashboardCommand::Quit);
}

#[test]
fn other_keys_and_events_stand_for_nothing() {
    let plain = |key| command_for_event(DashboardEvent::Key { key, shifted: false });
    assert_eq!(plain(DashboardKey::Char('Q')), DashboardCommand::Nothing);
    assert_eq!(plain(DashboardKey::Char('x')), DashboardCommand::Nothing);
    assert_eq!(plain(DashboardKey::Char('\n')), DashboardCommand::Nothing);
    assert_eq!(plain(DashboardKey::Other), DashboardCommand::Nothing);
    assert_eq!(command_for_event(DashboardEvent::Other), DashboardCommand::Nothing);
}

#[test]
fn tick_without_an_event_draws_only_when_forced() {
    let mut dashboard = numbered(3);
    assert_eq!(
        run_support_bundle_dashboard(&mut dashboard, None, true),
        Ok(Tick { step: InspectRunStep::Continue, clear: true, draw: true })
    );
    assert_eq!(
        run_support_bundle_dashboard(&mut dashboard, None, false),
        Ok(Tick { step: InspectRunStep::Continue, clear: false, draw: false })
    );
    assert_eq!(dashboard.selected_file_index(), 0);
    assert_eq!(dashboard.buffered_file_preview(), None);
}

#[test]
fn tick_with_an_event_draws() {
    let mut dashboard = numbered(3);
    assert_eq!(
        run_support_bundle_dashboard(&mut dashboard, Some(DashboardEvent::Other), false),
        going_on(false)
    );
    assert_eq!(
        run_support_bundle_dashboard(&mut dashboard, key(DashboardKey::Char('x')), true),
        going_on(true)
    );
    assert_eq!(dashboard.selected_file_index(), 0);
}

#[test]
fn quit_exits_without_drawing() {
    let mut dashboard = numbered(3);
    assert_eq!(
        run_support_bundle_dashboard(&mut dashboard, key(DashboardKey::Char('q')), true),
        Ok(Tick { step: InspectRunStep::Exit, clear: false, draw: false })
    );
    assert_eq!(dashboard.buffered_file_preview(), None);
}

#[test]
fn arrows_move_by_one_and_by_five_with_shift() {
    let mut dashboard = numbered(10);
    assert_eq!(
        run_support_bundle_dashboard(&mut dashboard, key(DashboardKey::Down), false),
        going_on(false)
    );
    assert_eq!(dashboard.selected_file_index(), 1);
    run_support_bundle_dashboard(&mut dashboard, shifted(DashboardKey::Char('J')), false).unwrap();
    assert_eq!(dashboard.selected_file_index(), 6);
    run_support_bundle_dashboard(&mut dashboard, key(DashboardKey::Char('k')), false).unwrap();
    assert_eq!(dashboard.selected_file_index(), 5);
    run_support_bundle_dashboard(&mut dashboard, shifted(DashboardKey::Up), false).unwrap();
    assert_eq!(dashboard.selected_file_index(), 0);
    run_support_bundle_dashboard(&mut dashboard, shifted(DashboardKey::Up), false).unwrap();
    assert_eq!(dashboard.selected_file_index(), 0);
    for _ in 0..3 {
        run_support_bundle_dashboard(&mut dashboard, shifted(DashboardKey::Down), false).unwrap();
    }
    assert_eq!(dashboard.selected_file_index(), 11);
    assert_eq!(dashboard.selected_file_name(), "gone");
}

#[test]
fn enter_opens_and_closes() {
    let mut dashboard = numbered(3);
    assert_eq!(
        run_support_bundle_dashboard(&mut dashboard, key(DashboardKey::Enter), false),
        going_on(false)
    );
    assert_eq!(dashboard.buffered_file_preview(), Some(&b"file 0"[..]));
    run_support_bundle_dashboard(&mut dashboard, key(DashboardKey::Down), false).unwrap();
    assert_eq!(dashboard.buffered_file_preview(), Some(&b"file 1"[..]));
    assert_eq!(
        run_support_bundle_dashboard(&mut dashboard, key(DashboardKey::Enter), false),
        going_on(false)
    );
    assert_eq!(dashboard.buffered_file_preview(), None);
    assert_eq!(dashboard.selected_file_index(), 1);
}

#[test]
fn space_with_nothing_open_pipes_the_first_entry() {
    let content: Vec<u8> = (0..100_000usize).map(|i| (i % 256) as u8).collect();
    let mut dashboard =
        SupportBundleDashboard::new(NumberedBundle { files: vec![content.clone()] }).unwrap();
    assert_eq!(
        run_support_bundle_dashboard(&mut dashboard, key(DashboardKey::Char(' ')), true),
        Ok(Tick { step: InspectRunStep::PipeFile, clear: false, draw: false })
    );
    assert_eq!(dashboard.buffered_file_preview().map(|bytes| bytes.len()), Some(65536));
    let mut stream = dashboard.streaming_file_contents().unwrap();
    let mut piped = Vec::new();
    assert_eq!(read_to_end(&mut stream, &mut piped), Ok(content.len()));
    assert_eq!(piped, content);
}

#[test]
fn space_opens_again_what_was_open() {
    let content: Vec<u8> = (0..100_000usize).map(|i| (i % 256) as u8).collect();
    let mut dashboard =
        SupportBundleDashboard::new(NumberedBundle { files: vec![content.clone()] }).unwrap();
    run_support_bundle_dashboard(&mut dashboard, key(DashboardKey::Enter), false).unwrap();
    dashboard.read_to_buffer().unwrap();
    assert_eq!(dashboard.buffered_file_preview().map(|bytes| bytes.len()), Some(100_000));
    run_support_bundle_dashboard(&mut dashboard, key(DashboardKey::Char(' ')), false).unwrap();
    assert_eq!(dashboard.buffered_file_preview().map(|bytes| bytes.len()), Some(65536));
    let mut stream = dashboard.streaming_file_contents().unwrap();
    let mut piped = Vec::new();
    read_to_end(&mut stream, &mut piped).unwrap();
    assert_eq!(piped, content);
}

#[test]
fn space_on_a_directory_pipes_nothing() {
    let mut dashboard = numbered(1);
    run_support_bundle_dashboard(&mut dashboard, key(DashboardKey::Down), false).unwrap();
    assert_eq!(dashboard.selected_file_name(), "d/");
    assert_eq!(
        run_support_bundle_dashboard(&mut dashboard, key(DashboardKey::Char(' ')), false),
        Ok(Tick { step: InspectRunStep::PipeFile, clear: false, draw: false })
    );
    assert_eq!(dashboard.buffered_file_preview(), Some(&b"<directory>"[..]));
    assert!(dashboard.streaming_file_contents().is_none());
}

#[test]
fn failed_operation_ends_the_tick_with_its_error() {
    let mut dashboard = numbered(1);
    run_support_bundle_dashboard(&mut dashboard, shifted(DashboardKey::Down), false).unwrap();
    assert_eq!(dashboard.selected_file_name(), "gone");
    let gone = DashboardError::FileAccess {
        path: "gone".to_string(),
        cause: FileAccessError::NotFound,
    };
    assert_eq!(
        run_support_bundle_dashboard(&mut dashboard, key(DashboardKey::Enter), true).err(),
        Some(gone)
    );
    let gone = DashboardError::FileAccess {
        path: "gone".to_string(),
        cause: FileAccessError::NotFound,
    };
    assert_eq!(
        run_support_bundle_dashboard(&mut dashboard, key(DashboardKey::Char(' ')), true).err(),
        Some(gone)
    );
    assert_eq!(dashboard.buffered_file_preview(), None);
}
