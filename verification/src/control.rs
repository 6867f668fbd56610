//! One tick of the interactive loop: from an input event to an operation of
//! the dashboard, and to what the loop does next.
use vstd::prelude::*;

use crate::bundle_accessor::SupportBundleAccessor;
use crate::dashboard::all_openable;
use crate::dashboard::moved_down;
use crate::dashboard::moved_up;
use crate::dashboard::opened_and_buffered;
use crate::dashboard::selection_moved;
use crate::dashboard::toggled;
use crate::dashboard::DashboardView;
use crate::dashboard::SupportBundleDashboard;
use crate::error::DashboardError;

verus! {

/// How far the selection moves on one key press.
pub const STEP: usize = 1;

/// How far the selection moves on one key press with Shift held.
pub const SHIFTED_STEP: usize = 5;

/// A key, as far as the dashboard tells keys apart.
#[derive(Clone, Copy, Debug, PartialEq, Eq)]
pub enum DashboardKey {
    Up,
    Down,
    Enter,
    Char(char),
    Other,
}

/// An input event.
#[derive(Clone, Copy, Debug, PartialEq, Eq)]
pub enum DashboardEvent {
    /// A key was pressed, with or without Shift.
    Key { key: DashboardKey, shifted: bool },
    /// Anything else: it changes nothing, and the screen is drawn again.
    Other,
}

/// What an input event asks of the dashboard.
#[derive(Clone, Copy, Debug, PartialEq, Eq)]
pub enum DashboardCommand {
    /// Leave the dashboard.
    Quit,
    /// Move the selection up by so many entries.
    SelectUp(usize),
    /// Move the selection down by so many entries.
    SelectDown(usize),
    /// Open and buffer the selected entry, then leave and pipe it out.
    PipeFile,
    /// Open or close the selected entry.
    ToggleOpen,
    /// Nothing.
    Nothing,
}

/// What the loop does after a tick.
#[derive(Clone, Copy, Debug, PartialEq, Eq)]
pub enum InspectRunStep {
    /// Keep running the dashboard.
    Continue,
    /// Exit the dashboard.
    Exit,
    /// Exit the dashboard, and pipe the selected file to an output stream.
    PipeFile,
}

/// How a tick ended: what the loop does next, and whether the screen is to
/// be cleared and drawn before that.
#[derive(Clone, Copy, Debug, PartialEq, Eq)]
pub struct Tick {
    pub step: InspectRunStep,
    pub clear: bool,
    pub draw: bool,
}

/// How far one key press moves the selection.
pub open spec fn step_size(shifted: bool) -> usize {
    if shifted {
        SHIFTED_STEP
    } else {
        STEP
    }
}

/// The command that an event stands for: `q` quits; Up, `k` and `K` move
/// up and Down, `j` and `J` move down, by five entries with Shift and by one
/// without; Space pipes the selected entry out; Enter opens or closes it.
pub open spec fn command_of(event: DashboardEvent) -> DashboardCommand {
    match event {
        DashboardEvent::Other => DashboardCommand::Nothing,
        DashboardEvent::Key { key, shifted } => match key {
            DashboardKey::Up => DashboardCommand::SelectUp(step_size(shifted)),
            DashboardKey::Down => DashboardCommand::SelectDown(step_size(shifted)),
            DashboardKey::Enter => DashboardCommand::ToggleOpen,
            DashboardKey::Other => DashboardCommand::Nothing,
            DashboardKey::Char(c) => if c == 'q' {
                DashboardCommand::Quit
            } else if c == 'k' || c == 'K' {
                DashboardCommand::SelectUp(step_size(shifted))
            } else if c == 'j' || c == 'J' {
                DashboardCommand::SelectDown(step_size(shifted))
            } else if c == ' ' {
                DashboardCommand::PipeFile
            } else {
                DashboardCommand::Nothing
            },
        },
    }
}

/// The command that `event` stands for.
pub fn command_for_event(event: DashboardEvent) -> (command: DashboardCommand)
    ensures
        command == command_of(event),
{
    match event {
        DashboardEvent::Other => DashboardCommand::Nothing,
        DashboardEvent::Key { key, shifted } => {
            let count = if shifted {
                SHIFTED_STEP
            } else {
                STEP
            };
            match key {
                DashboardKey::Char('q') => DashboardCommand::Quit,
                DashboardKey::Up | DashboardKey::Char('k') | DashboardKey::Char('K') => {
                    DashboardCommand::SelectUp(count)
                },
                DashboardKey::Down | DashboardKey::Char('j') | DashboardKey::Char('J') => {
                    DashboardCommand::SelectDown(count)
                },
                DashboardKey::Char(' ') => DashboardCommand::PipeFile,
                DashboardKey::Enter => DashboardCommand::ToggleOpen,
                _ => DashboardCommand::Nothing,
            }
        },
    }
}

/// The outcome of an operation that a tick went through, without the tick.
pub open spec fn operation_result(ticked: Result<Tick, DashboardError>) -> Result<
    (),
    DashboardError,
> {
    match ticked {
        Ok(_) => Ok(()),
        Err(error) => Err(error),
    }
}

/// Whether `after` and `ticked` are an outcome of one tick on `before`.
/// Without an event nothing changes, and the screen is cleared and drawn
/// where that is forced. With one, its command is carried out: quitting and
/// piping end the loop at once, and after any other the screen is drawn.
/// An operation that fails ends the tick with its error.
pub open spec fn ticked(
    before: DashboardView,
    after: DashboardView,
    contents: Map<Seq<char>, Seq<u8>>,
    event: Option<DashboardEvent>,
    force_update: bool,
    done: Result<Tick, DashboardError>,
) -> bool {
    let going_on = Tick { step: InspectRunStep::Continue, clear: force_update, draw: true };
    match event {
        None => after == before && done == Ok::<Tick, DashboardError>(
            Tick { step: InspectRunStep::Continue, clear: force_update, draw: force_update },
        ),
        Some(event) => match command_of(event) {
            DashboardCommand::Quit => after == before && done == Ok::<Tick, DashboardError>(
                Tick { step: InspectRunStep::Exit, clear: false, draw: false },
            ),
            DashboardCommand::Nothing => after == before && done == Ok::<Tick, DashboardError>(
                going_on,
            ),
            DashboardCommand::SelectUp(count) => {
                &&& selection_moved(
                    before,
                    after,
                    moved_up(before.selected, count as int),
                    contents,
                    operation_result(done),
                )
                &&& done matches Ok(tick) ==> tick == going_on
            },
            DashboardCommand::SelectDown(count) => {
                &&& selection_moved(
                    before,
                    after,
                    moved_down(before.selected, count as int, before.files.len() as int),
                    contents,
                    operation_result(done),
                )
                &&& done matches Ok(tick) ==> tick == going_on
            },
            DashboardCommand::ToggleOpen => {
                &&& toggled(before, after, contents, operation_result(done))
                &&& done matches Ok(tick) ==> tick == going_on
            },
            DashboardCommand::PipeFile => {
                &&& after.files == before.files
                &&& after.selected == before.selected
                &&& opened_and_buffered(
                    before.selected_path(),
                    contents,
                    before.file,
                    after.file,
                    operation_result(done),
                )
                &&& done matches Ok(tick) ==> tick == (Tick {
                    step: InspectRunStep::PipeFile,
                    clear: false,
                    draw: false,
                })
            },
        },
    }
}

/// One tick of the interactive loop: carries out what `event`, if there is
/// one, asks of the dashboard, and says what the loop does next.
pub fn run_support_bundle_dashboard<A: SupportBundleAccessor>(
    dashboard: &mut SupportBundleDashboard<A>,
    event: Option<DashboardEvent>,
    force_update: bool,
) -> (done: Result<Tick, DashboardError>)
    requires
        old(dashboard).wf(),
    ensures
        final(dashboard).wf(),
        final(dashboard).contents() == old(dashboard).contents(),
        old(dashboard).infallible() ==> final(dashboard).infallible() && (all_openable(
            old(dashboard)@.files,
            old(dashboard).contents(),
        ) ==> done is Ok),
        ticked(
            old(dashboard)@,
            final(dashboard)@,
            old(dashboard).contents(),
            event,
            force_update,
            done,
        ),
{
    let update = match event {
        None => force_update,
        Some(event) => {
            let done = match command_for_event(event) {
                DashboardCommand::Quit => {
                    return Ok(Tick { step: InspectRunStep::Exit, clear: false, draw: false });
                },
                DashboardCommand::SelectUp(count) => dashboard.select_up(count),
                DashboardCommand::SelectDown(count) => dashboard.select_down(count),
                DashboardCommand::PipeFile => {
                    return match dashboard.open_and_buffer() {
                        Ok(()) => Ok(
                            Tick { step: InspectRunStep::PipeFile, clear: false, draw: false },
                        ),
                        Err(error) => Err(error),
                    };
                },
                DashboardCommand::ToggleOpen => dashboard.toggle_file_open(),
                DashboardCommand::Nothing => Ok(()),
            };
            match done {
                Ok(()) => true,
                Err(error) => {
                    return Err(error);
                },
            }
        },
    };
    Ok(Tick { step: InspectRunStep::Continue, clear: force_update, draw: update })
}

} // verus!
