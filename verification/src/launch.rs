//! The executor's decisions.
//!
//! Realizing a command tree as processes needs forking, replacing process
//! images and exiting, which live outside this library. What is decided
//! here, and proved: which action each tree variant calls for, which
//! standard stream a redirection rebinds, and which pipe end each side of a
//! pipeline receives.

use vstd::prelude::*;

use crate::command::ShellCmd;
use crate::sys;

verus! {

/// What the interpreter process itself does with a freshly built tree,
/// before any child exists.
pub enum TopOutcome {
    /// The line was blank: nothing to do, prompt again.
    NoCommand,
    /// The tree was a directory change and it succeeded.
    ChangedDir,
    /// The tree was a directory change and the system refused it; `code` is
    /// the raw `errno` value.
    ChdirFailed { code: i32 },
    /// Any other tree: a child process must be spawned to launch it.
    Spawn,
}

/// The interpreter's own part of running a tree: a blank line is a no-op, a
/// directory change is performed here in the calling process (never in a
/// child, since it must move the interpreter itself), and every other tree
/// is left for a spawned child.
pub fn parent_prep(cmd: &ShellCmd) -> (o: TopOutcome)
    ensures
        (o is NoCommand) == (cmd is Nothing),
        (o is ChangedDir || o is ChdirFailed) == (cmd is Chdir),
        (o is Spawn) == (!(cmd is Nothing) && !(cmd is Chdir)),
{
    match cmd {
        ShellCmd::Nothing => TopOutcome::NoCommand,
        ShellCmd::Chdir { path } => match sys::change_dir(path) {
            Ok(()) => TopOutcome::ChangedDir,
            Err(code) => TopOutcome::ChdirFailed { code },
        },
        _ => TopOutcome::Spawn,
    }
}

/// The action a launching process takes for one tree node.
pub enum LaunchStep {
    /// Replace the process image with `args[0]`, passing `args`.
    RunProgram { args: Vec<String> },
    /// Rebind a standard stream to `descriptor` (input when `readmode`,
    /// output otherwise), then launch `next` in the same process.
    Bind { descriptor: rustix::fd::OwnedFd, readmode: bool, next: Box<ShellCmd> },
    /// Connect `left`'s standard output to `right`'s standard input through
    /// an anonymous pipe and run both concurrently.
    PipeHalves { left: Box<ShellCmd>, right: Box<ShellCmd> },
    /// Run `left` to completion, then `right`.
    RunBoth { left: Box<ShellCmd>, right: Box<ShellCmd> },
    /// Nothing to run: a blank line, or a directory change that only the
    /// interpreter process may perform.
    Finish,
}

/// The action each tree variant calls for, exactly.
pub fn launch_step(cmd: ShellCmd) -> (s: LaunchStep)
    ensures
        cmd matches ShellCmd::Exec { args } ==> s == (LaunchStep::RunProgram { args }),
        cmd matches ShellCmd::Redir { command, descriptor, readmode } ==> s == (
        LaunchStep::Bind { descriptor, readmode, next: command }),
        cmd matches ShellCmd::Pipe { left, right } ==> s == (LaunchStep::PipeHalves {
            left,
            right,
        }),
        cmd matches ShellCmd::List { left, right } ==> s == (LaunchStep::RunBoth {
            left,
            right,
        }),
        cmd is Nothing || cmd is Chdir ==> s is Finish,
{
    match cmd {
        ShellCmd::Exec { args } => LaunchStep::RunProgram { args },
        ShellCmd::Redir { command, descriptor, readmode } => LaunchStep::Bind {
            descriptor,
            readmode,
            next: command,
        },
        ShellCmd::Pipe { left, right } => LaunchStep::PipeHalves { left, right },
        ShellCmd::List { left, right } => LaunchStep::RunBoth { left, right },
        ShellCmd::Nothing => LaunchStep::Finish,
        ShellCmd::Chdir { .. } => LaunchStep::Finish,
    }
}

/// Which standard stream a binding replaced.
pub enum StdStream {
    Stdin,
    Stdout,
}

/// Rebinds the standard stream a redirection selects: the descriptor is
/// duplicated onto standard input when `readmode` holds and onto standard
/// output otherwise, consuming it. On failure the raw `errno` value is
/// returned and the caller's process must not run the inner command.
pub fn bind_descriptor(descriptor: rustix::fd::OwnedFd, readmode: bool) -> (r: Result<
    StdStream,
    i32,
>)
    ensures
        r matches Ok(s) ==> (s is Stdin) == readmode,
{
    if readmode {
        match sys::dup_onto_stdin(descriptor) {
            Ok(()) => Ok(StdStream::Stdin),
            Err(code) => Err(code),
        }
    } else {
        match sys::dup_onto_stdout(descriptor) {
            Ok(()) => Ok(StdStream::Stdout),
            Err(code) => Err(code),
        }
    }
}

/// One side's share of a pipeline: the descriptor it must bind, and the
/// stream to bind it to (`readmode` as in [`bind_descriptor`]).
pub struct PipeBinding {
    pub descriptor: rustix::fd::OwnedFd,
    pub readmode: bool,
}

/// Creates an anonymous pipe and deals out its ends: the first binding is
/// the left side's, rebinding the pipe's write end onto standard output;
/// the second is the right side's, rebinding the read end onto standard
/// input. Each side must drop the other's binding before launching, so no
/// descriptor outlives the branch that does not use it.
pub fn prepare_pipe() -> (r: Result<(PipeBinding, PipeBinding), i32>)
    ensures
        r matches Ok(b) ==> b.0.readmode == false && b.1.readmode == true,
{
    match sys::make_pipe() {
        Ok((read_end, write_end)) => Ok(
            (
                PipeBinding { descriptor: write_end, readmode: false },
                PipeBinding { descriptor: read_end, readmode: true },
            ),
        ),
        Err(code) => Err(code),
    }
}

} // verus!
