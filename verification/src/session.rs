//! The session's lifecycle: how the host terminal is set up and restored,
//! and which tasks run.

use vstd::prelude::*;

verus! {

/// One step of setting up or restoring the host terminal.
#[derive(Debug, Clone, Copy, PartialEq, Eq, Structural)]
pub enum TerminalStep {
    EnableRawMode,
    EnterAlternateScreen,
    /// Set the title of the terminal to the name of the port.
    SetTitle,
    EnableBracketedPaste,
    EnableMouseCapture,
    /// Move the cursor to the first column of the first row.
    MoveToOrigin,
    DisableMouseCapture,
    DisableBracketedPaste,
    LeaveAlternateScreen,
    ShowCursor,
    DisableRawMode,
    /// Write everything out.
    Flush,
}

/// A task of the session.
#[derive(Debug, Clone, Copy, PartialEq, Eq, Structural)]
pub enum Task {
    /// Mirrors the stream to the log file.
    FileOutput,
    /// Records the stream for debugging.
    DebugOutput,
    /// Owns the port.
    SerialActor,
    /// Feeds the screen buffer and draws the screen.
    Stdout,
    /// Reads keyboard and mouse.
    Stdin,
}

/// The steps that set up the host terminal, in order.
pub open spec fn setup() -> Seq<TerminalStep> {
    seq![
        TerminalStep::EnableRawMode,
        TerminalStep::EnterAlternateScreen,
        TerminalStep::SetTitle,
        TerminalStep::EnableBracketedPaste,
        TerminalStep::EnableMouseCapture,
        TerminalStep::MoveToOrigin,
    ]
}

/// The steps that restore the host terminal, in order.
pub open spec fn teardown() -> Seq<TerminalStep> {
    seq![
        TerminalStep::DisableMouseCapture,
        TerminalStep::DisableBracketedPaste,
        TerminalStep::LeaveAlternateScreen,
        TerminalStep::ShowCursor,
        TerminalStep::DisableRawMode,
        TerminalStep::Flush,
    ]
}

/// The tasks of a session, in the order in which they are started: the file
/// output where a log file is asked for, the debug output where it is asked
/// for, then the actor, the output task and the input task.
pub open spec fn tasks(file: bool, debug: bool) -> Seq<Task> {
    let first = if file {
        seq![Task::FileOutput]
    } else {
        Seq::<Task>::empty()
    };
    let second = if debug {
        seq![Task::DebugOutput]
    } else {
        Seq::<Task>::empty()
    };
    first + second + seq![Task::SerialActor, Task::Stdout, Task::Stdin]
}

/// Gives the steps that set up the host terminal, in order.
pub fn setup_steps() -> (steps: Vec<TerminalStep>)
    ensures
        steps@ == setup(),
{
    let steps = vec![
        TerminalStep::EnableRawMode,
        TerminalStep::EnterAlternateScreen,
        TerminalStep::SetTitle,
        TerminalStep::EnableBracketedPaste,
        TerminalStep::EnableMouseCapture,
        TerminalStep::MoveToOrigin,
    ];
    steps
}

/// Gives the steps that restore the host terminal, in order. They are to
/// be taken on every way out of a session.
pub fn teardown_steps() -> (steps: Vec<TerminalStep>)
    ensures
        steps@ == teardown(),
{
    let steps = vec![
        TerminalStep::DisableMouseCapture,
        TerminalStep::DisableBracketedPaste,
        TerminalStep::LeaveAlternateScreen,
        TerminalStep::ShowCursor,
        TerminalStep::DisableRawMode,
        TerminalStep::Flush,
    ];
    steps
}

/// Gives the tasks of a session in the order in which they are started.
pub fn session_tasks(file: bool, debug: bool) -> (list: Vec<Task>)
    ensures
        list@ == tasks(file, debug),
{
    let mut list: Vec<Task> = Vec::new();
    if file {
        list.push(Task::FileOutput);
    }
    if debug {
        list.push(Task::DebugOutput);
    }
    list.push(Task::SerialActor);
    list.push(Task::Stdout);
    list.push(Task::Stdin);
    list
}

/// Tells whether the exit script runs after the session: one is
/// configured, and a log file was written.
pub fn runs_exit_script(configured: bool, file_written: bool) -> (r: bool)
    ensures
        r == (configured && file_written),
{
    configured && file_written
}

} // verus!
