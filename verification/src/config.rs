//! Configuration model: project mode, the raw startup settings, and
//! how the mode is guessed from marker files.

use crate::split::split_whitespace_owned;
use crate::split::split_ws;
use vstd::prelude::*;
use vstd::string::StrSliceExecFns;

verus! {

/// The project profile that selects default command and watch paths
/// when none are supplied explicitly.
#[derive(Clone, Copy, Debug, PartialEq, Eq, Structural)]
pub enum Mode {
    Rust,
    Make,
    Custom,
}

/// Which mode the marker files seen in the current directory imply:
/// a `Cargo.toml` wins over a `Makefile`; with neither, the user must
/// supply a command, so the mode is `Custom`.
pub open spec fn spec_mode_from_markers(cargo_toml_found: bool, makefile_found: bool) -> Mode {
    if cargo_toml_found {
        Mode::Rust
    } else if makefile_found {
        Mode::Make
    } else {
        Mode::Custom
    }
}

/// Decide the project mode from which marker files were seen in the
/// current directory.
pub fn mode_from_markers(cargo_toml_found: bool, makefile_found: bool) -> (m: Mode)
    ensures
        m == spec_mode_from_markers(cargo_toml_found, makefile_found),
{
    if cargo_toml_found {
        Mode::Rust
    } else if makefile_found {
        Mode::Make
    } else {
        Mode::Custom
    }
}

/// Whether one of the file names equals `name`.
pub open spec fn contains_name(names: Seq<Seq<char>>, name: Seq<char>) -> bool {
    exists|j: int| 0 <= j < names.len() && #[trigger] names[j] == name
}

/// Decide the project mode from the file names found in the current
/// directory: a `Cargo.toml` means a Rust project, otherwise a
/// `Makefile` means a Make project, otherwise the command must come
/// from the user.
pub fn mode_from_file_names(names: &Vec<String>) -> (m: Mode)
    ensures
        m == spec_mode_from_markers(
            contains_name(names.deep_view(), "Cargo.toml"@),
            contains_name(names.deep_view(), "Makefile"@),
        ),
{
    let cargo_marker = "Cargo.toml";
    let make_marker = "Makefile";
    let mut cargo_toml_found = false;
    let mut makefile_found = false;
    let mut i: usize = 0;
    while i < names.len()
        invariant
            i <= names@.len(),
            cargo_marker@ == "Cargo.toml"@,
            make_marker@ == "Makefile"@,
            cargo_toml_found == contains_name(names.deep_view().take(i as int), "Cargo.toml"@),
            makefile_found == contains_name(names.deep_view().take(i as int), "Makefile"@),
        decreases names@.len() - i,
    {
        let ghost prev = names.deep_view().take(i as int);
        let ghost cur = names.deep_view().take(i as int + 1);
        let matches_cargo = str_eq(names[i].as_str(), cargo_marker);
        let matches_make = str_eq(names[i].as_str(), make_marker);
        proof {
            let here = names.deep_view()[i as int];
            assert(here == names@[i as int]@);
            assert(cur[i as int] == here);
            if matches_cargo {
                assert(contains_name(cur, "Cargo.toml"@));
            } else if contains_name(prev, "Cargo.toml"@) {
                let k = choose|k: int| 0 <= k < prev.len() && #[trigger] prev[k]
                    == "Cargo.toml"@;
                assert(cur[k] == "Cargo.toml"@);
                assert(contains_name(cur, "Cargo.toml"@));
            } else {
                assert forall|j: int| 0 <= j < cur.len() implies #[trigger] cur[j]
                    != "Cargo.toml"@ by {
                    if j < i as int {
                        assert(cur[j] == prev[j]);
                    } else {
                        assert(cur[j] == here);
                    }
                }
            }
            if matches_make {
                assert(contains_name(cur, "Makefile"@));
            } else if contains_name(prev, "Makefile"@) {
                let k = choose|k: int| 0 <= k < prev.len() && #[trigger] prev[k] == "Makefile"@;
                assert(cur[k] == "Makefile"@);
                assert(contains_name(cur, "Makefile"@));
            } else {
                assert forall|j: int| 0 <= j < cur.len() implies #[trigger] cur[j]
                    != "Makefile"@ by {
                    if j < i as int {
                        assert(cur[j] == prev[j]);
                    } else {
                        assert(cur[j] == here);
                    }
                }
            }
        }
        if matches_cargo {
            cargo_toml_found = true;
        }
        if matches_make {
            makefile_found = true;
        }
        i = i + 1;
    }
    proof {
        assert(names.deep_view().take(names@.len() as int) =~= names.deep_view());
    }
    mode_from_markers(cargo_toml_found, makefile_found)
}

/// Character-wise equality of two string slices.
fn str_eq(a: &str, b: &str) -> (r: bool)
    ensures
        r == (a@ == b@),
{
    let a_len = a.unicode_len();
    let b_len = b.unicode_len();
    if a_len != b_len {
        assert(a@ != b@);
        return false;
    }
    let mut i: usize = 0;
    while i < a_len
        invariant
            a_len == a@.len(),
            b_len == b@.len(),
            a_len == b_len,
            i <= a_len,
            forall|k: int| 0 <= k < i ==> a@[k] == b@[k],
        decreases a_len - i,
    {
        if a.get_char(i) != b.get_char(i) {
            return false;
        }
        i = i + 1;
    }
    proof {
        assert(a@ =~= b@);
    }
    true
}

/// The raw startup configuration: the command and directory list as
/// the merged settings supplied them, each absent when the setting
/// was empty.
pub struct Config {
    pub command: Option<String>,
    pub directories: Option<Vec<String>>,
}

impl Config {
    /// Build the raw configuration from the two merged settings.  An
    /// empty command setting means no command was supplied; an empty
    /// directory setting means no directories were supplied; a
    /// non-empty directory setting is split on ASCII whitespace into
    /// individual paths.
    pub fn new(command_setting: &str, directories_setting: &str) -> (c: Config)
        ensures
            command_setting@.len() == 0 ==> c.command is None,
            command_setting@.len() > 0 ==> (c.command matches Some(cmd) && cmd@
                == command_setting@),
            directories_setting@.len() == 0 ==> c.directories is None,
            directories_setting@.len() > 0 ==> (c.directories matches Some(d) && d.deep_view()
                == split_ws(directories_setting@)),
    {
        let command = if command_setting.is_empty() {
            None
        } else {
            Some(command_setting.to_owned())
        };
        let directories = if directories_setting.is_empty() {
            None
        } else {
            Some(split_whitespace_owned(directories_setting))
        };
        Config { command, directories }
    }
}

} // verus!
