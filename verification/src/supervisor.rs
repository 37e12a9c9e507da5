//! The command supervisor's console contract: what is written before
//! and after each run of the configured command.

use vstd::prelude::*;

verus! {

/// What one attempt to run the command produced: whether the subshell
/// could be spawned at all, and if so the complete captured output of
/// both streams, buffered until the command exited.
pub struct RunResult {
    pub spawned: bool,
    pub stdout: Vec<u8>,
    pub stderr: Vec<u8>,
}

/// One item the driver must write to the console, in order.
#[derive(Debug)]
pub enum ConsoleItem {
    /// The terminal-clear escape sequence, on standard output.
    Clear,
    /// The command line being run, on standard output.
    CommandLine(String),
    /// Captured standard output of the command, verbatim, on standard
    /// output.
    OutBytes(Vec<u8>),
    /// Captured standard error of the command, verbatim, on standard
    /// error.
    ErrBytes(Vec<u8>),
    /// A warning on standard error that the subshell could not be
    /// spawned; the run is skipped and the loop goes on.
    SpawnWarning,
}

/// The escape sequence that clears the terminal and moves the cursor
/// to the top-left corner.
pub open spec fn spec_clear_sequence() -> Seq<char> {
    "\u{1B}[2J\u{1B}[1;1H"@
}

/// The terminal-clear escape sequence written before each run.
pub fn clear_sequence() -> (s: &'static str)
    ensures
        s@ == spec_clear_sequence(),
{
    "\u{1B}[2J\u{1B}[1;1H"
}

/// What must be written immediately before a run: the clear sequence,
/// so each run's output starts on a clean screen, followed on the
/// very first run only by the command line itself.
pub fn pre_run_console(first: bool, command: &String) -> (items: Vec<ConsoleItem>)
    ensures
        items@.len() == (if first {
            2int
        } else {
            1int
        }),
        items@[0] is Clear,
        first ==> (items@[1] matches ConsoleItem::CommandLine(c) && c@ == command@),
{
    let mut items: Vec<ConsoleItem> = Vec::new();
    items.push(ConsoleItem::Clear);
    if first {
        items.push(ConsoleItem::CommandLine(command.clone()));
    }
    items
}

/// What must be written once a run finishes: the whole captured
/// standard output, then the whole captured standard error, in that
/// order and verbatim.  A run whose subshell could not be spawned
/// yields only a warning — a transient environment failure never
/// terminates the loop.
pub fn post_run_console(result: RunResult) -> (items: Vec<ConsoleItem>)
    ensures
        result.spawned ==> items@.len() == 2 && (items@[0] matches ConsoleItem::OutBytes(o)
            && o@ == result.stdout@) && (items@[1] matches ConsoleItem::ErrBytes(e) && e@
            == result.stderr@),
        !result.spawned ==> items@.len() == 1 && items@[0] is SpawnWarning,
{
    let RunResult { spawned, stdout, stderr } = result;
    let mut items: Vec<ConsoleItem> = Vec::new();
    if spawned {
        items.push(ConsoleItem::OutBytes(stdout));
        items.push(ConsoleItem::ErrBytes(stderr));
    } else {
        items.push(ConsoleItem::SpawnWarning);
    }
    items
}

} // verus!
