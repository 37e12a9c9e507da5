//! The runner: the resolved command and watch directories, together
//! with the loop state, built once at startup.

use crate::config::Mode;
use crate::engine::LoopAction;
use crate::engine::LoopEvent;
use crate::engine::LoopState;
use crate::engine::init_state;
use crate::engine::next_action;
use crate::engine::next_state;
use crate::engine::spec_action;
use crate::engine::spec_next;
use vstd::prelude::*;

verus! {

/// The one configuration error that aborts startup: custom mode was
/// selected but no command was supplied.
#[derive(Clone, Copy, Debug, PartialEq, Eq, Structural)]
pub enum ConfigError {
    MissingCustomCommand,
}

impl ConfigError {
    /// The diagnostic printed when startup aborts.
    pub fn message(&self) -> (m: &'static str)
        ensures
            m@ == "Command needs to be present for custom mode"@,
    {
        "Command needs to be present for custom mode"
    }
}

/// The default command line of each mode.  Custom mode has none: the
/// user must supply one.
pub open spec fn default_command(mode: Mode) -> Seq<char> {
    match mode {
        Mode::Rust => "cargo fmt; clear; cargo clippy --color always -q"@,
        Mode::Make => "make -s"@,
        Mode::Custom => Seq::empty(),
    }
}

/// The default watch directories of each mode.
pub open spec fn default_directories(mode: Mode) -> Seq<Seq<char>> {
    match mode {
        Mode::Rust => seq!["src"@],
        Mode::Make => seq!["src"@, "."@],
        Mode::Custom => seq!["src"@, "."@],
    }
}

/// Whether a usable command was supplied: present and non-empty.
pub open spec fn has_command(command: Option<String>) -> bool {
    command matches Some(c) && c@.len() > 0
}

/// The command the runner starts with: the supplied one, or the
/// mode's default.
pub open spec fn resolved_command(mode: Mode, command: Option<String>) -> Seq<char> {
    if has_command(command) {
        command->0@
    } else {
        default_command(mode)
    }
}

/// The watch directories the runner starts with: the supplied ones,
/// or the mode's default when none (or an empty list) was supplied,
/// so that the loop never starts with nothing to watch.
pub open spec fn resolved_directories(mode: Mode, directories: Option<Vec<String>>) -> Seq<
    Seq<char>,
> {
    match directories {
        Some(d) => if d@.len() > 0 {
            d.deep_view()
        } else {
            default_directories(mode)
        },
        None => default_directories(mode),
    }
}

/// The resolved command, the watch directories, and the loop state.
/// Command and directories are fixed at construction and never change
/// afterwards.
pub struct Runner {
    pub command: String,
    pub directories: Vec<String>,
    pub state: LoopState,
}

impl Runner {
    /// Resolve the startup configuration.  Fails exactly when custom
    /// mode is selected without a usable command — the one fatal
    /// configuration error.  On success the command is non-empty, the
    /// directory list is non-empty, and the loop starts with the
    /// unconditional first run still owed.
    pub fn new(mode: Mode, command: Option<String>, directories: Option<Vec<String>>) -> (r:
        Result<Runner, ConfigError>)
        ensures
            r is Err <==> (mode is Custom && !has_command(command)),
            r matches Err(e) ==> e == ConfigError::MissingCustomCommand,
            r matches Ok(runner) ==> {
                &&& runner.command@ == resolved_command(mode, command)
                &&& runner.directories.deep_view() == resolved_directories(mode, directories)
                &&& runner.state == init_state()
                &&& runner.command@.len() > 0
                &&& runner.directories@.len() > 0
            },
    {
        proof {
            reveal_strlit("cargo fmt; clear; cargo clippy --color always -q");
            reveal_strlit("make -s");
            reveal_strlit("src");
            reveal_strlit(".");
        }
        let supplied = match &command {
            Some(c) => !c.as_str().is_empty(),
            None => false,
        };
        let resolved_cmd = if supplied {
            match command {
                Some(c) => c,
                None => String::new(),
            }
        } else {
            match mode {
                Mode::Rust => "cargo fmt; clear; cargo clippy --color always -q".to_owned(),
                Mode::Make => "make -s".to_owned(),
                Mode::Custom => {
                    return Err(ConfigError::MissingCustomCommand);
                },
            }
        };
        let use_default_dirs = match &directories {
            Some(d) => d.len() == 0,
            None => true,
        };
        let resolved_dirs = if use_default_dirs {
            let mut d: Vec<String> = Vec::new();
            d.push("src".to_owned());
            if !matches!(mode, Mode::Rust) {
                d.push(".".to_owned());
            }
            proof {
                assert(d.deep_view() =~= default_directories(mode));
            }
            d
        } else {
            match directories {
                Some(d) => d,
                None => Vec::new(),
            }
        };
        Ok(
            Runner {
                command: resolved_cmd,
                directories: resolved_dirs,
                state: LoopState::InitialRunPending,
            },
        )
    }

    /// The action the loop driver must perform next.
    pub fn current_action(&self) -> (a: LoopAction)
        ensures
            a == spec_action(self.state),
    {
        next_action(self.state)
    }

    /// Advance the loop by the outcome the driver reports.  Neither
    /// the command nor the watch directories ever change once the
    /// runner is built.
    pub fn advance(&mut self, e: LoopEvent)
        ensures
            final(self).state == spec_next(old(self).state, e),
            final(self).command == old(self).command,
            final(self).directories == old(self).directories,
    {
        self.state = next_state(self.state, e);
    }
}

} // verus!
