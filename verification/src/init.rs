//! Project initialization decisions: which action each required project
//! file gets, given whether it already exists at the target.

use vstd::prelude::*;

use crate::strutil;

verus! {

/// What initialization does with one required file.
#[derive(Clone, Copy, Debug, PartialEq, Eq, Structural)]
pub enum InitFileAction {
    /// Write the embedded content to a fresh file.
    Write,
    /// Append the embedded content after a newline to the existing file.
    Append,
    /// Ask the user before replacing the existing file.
    ConfirmOverwrite,
}

/// Whether a required file is appended to rather than replaced when it
/// already exists: only the ignore file is.
pub open spec fn appendable(filename: Seq<char>) -> bool {
    filename == ".gitignore"@
}

/// Decides what initialization does with one required file: a missing
/// file is written; an existing appendable file is appended to; any other
/// existing file needs the user's confirmation.
pub fn init_file_action(filename: &str, exists: bool) -> (r: InitFileAction)
    ensures
        !exists ==> r == InitFileAction::Write,
        exists && appendable(filename@) ==> r == InitFileAction::Append,
        exists && !appendable(filename@) ==> r == InitFileAction::ConfirmOverwrite,
{
    if !exists {
        InitFileAction::Write
    } else if strutil::str_eq(filename, ".gitignore") {
        InitFileAction::Append
    } else {
        InitFileAction::ConfirmOverwrite
    }
}

/// The files initialization materializes, in order.
pub fn required_files() -> (r: Vec<String>)
    ensures
        r@.map_values(|s: String| s@) == seq![
            "devenv.nix"@,
            "devenv.yaml"@,
            ".envrc"@,
            ".gitignore"@,
        ],
{
    let mut out: Vec<String> = Vec::new();
    out.push(String::from_str("devenv.nix"));
    out.push(String::from_str("devenv.yaml"));
    out.push(String::from_str(".envrc"));
    out.push(String::from_str(".gitignore"));
    proof {
        assert(out@.map_values(|s: String| s@) =~= seq![
            "devenv.nix"@,
            "devenv.yaml"@,
            ".envrc"@,
            ".gitignore"@,
        ]);
    }
    out
}

} // verus!
