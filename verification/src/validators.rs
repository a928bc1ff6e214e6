//! Checks of paths that the user gives: the directory for log files and the
//! exit script. What is on disk is found out by the caller.

use vstd::prelude::*;
use vstd::string::*;

verus! {

/// What the caller found out about a path.
#[derive(Debug, Clone, Copy, PartialEq, Eq, Structural)]
pub struct PathFacts {
    /// The path exists.
    pub exists: bool,
    /// The path is a directory.
    pub is_dir: bool,
    /// The path is a file.
    pub is_file: bool,
    /// The path is a file that can be run.
    pub executable: bool,
}

/// Tells whether a file with the permission bits `mode` can be run by
/// anyone: by its owner, its group or others.
pub fn is_executable(mode: u32) -> (r: bool)
    ensures
        r == (mode & 0o111 != 0),
{
    mode & 0o111 != 0
}

/// The message for a path that could not be expanded.
pub open spec fn expansion_failed() -> Seq<char> {
    "Error expanding path."@
}

/// The message for a path that is no directory.
pub open spec fn no_directory(input: Seq<char>) -> Seq<char> {
    "Invalid directory '"@ + input
        + "' out-dir\nEither does not exist or is not a directory"@
}

/// The message for a path that is no file.
pub open spec fn no_file(input: Seq<char>) -> Seq<char> {
    "Invalid file '"@ + input + "'\nEither does not exist or is not a file"@
}

/// The message for a file that cannot be run.
pub open spec fn not_executable(path: Seq<char>) -> Seq<char> {
    "Invalid file type '"@ + path + "'\nMake sure the file is executable"@
}

/// Checks the directory for log files. `input` is what the user wrote,
/// `expanded` its expansion if there is one, and `facts` what is known of
/// the expanded path. The directory is accepted if it exists and is a
/// directory.
pub fn validate_dir(input: &str, expanded: Option<String>, facts: PathFacts) -> (r: Result<
    Option<String>,
    String,
>)
    ensures
        match expanded {
            None => r is Err && r->Err_0@ == expansion_failed(),
            Some(p) => if facts.exists && facts.is_dir {
                r == Ok::<Option<String>, String>(Some(p))
            } else {
                r is Err && r->Err_0@ == no_directory(input@)
            },
        },
{
    match expanded {
        None => Err("Error expanding path.".to_owned()),
        Some(p) => {
            if !facts.exists || !facts.is_dir {
                let mut message = "Invalid directory '".to_owned();
                message.append(input);
                message.append("' out-dir\nEither does not exist or is not a directory");
                Err(message)
            } else {
                Ok(Some(p))
            }
        },
    }
}

/// Checks the exit script. `input` is what the user wrote, `expanded` its
/// expansion if there is one, and `facts` what is known of the expanded
/// path. The script is accepted if it exists, is a file and can be run.
pub fn is_script(input: &str, expanded: Option<String>, facts: PathFacts) -> (r: Result<
    Option<String>,
    String,
>)
    ensures
        match expanded {
            None => r is Err && r->Err_0@ == expansion_failed(),
            Some(p) => if !facts.exists || !facts.is_file {
                r is Err && r->Err_0@ == no_file(input@)
            } else if !facts.executable {
                r is Err && r->Err_0@ == not_executable(p@)
            } else {
                r == Ok::<Option<String>, String>(Some(p))
            },
        },
{
    match expanded {
        None => Err("Error expanding path.".to_owned()),
        Some(p) => {
            if !facts.exists || !facts.is_file {
                let mut message = "Invalid file '".to_owned();
                message.append(input);
                message.append("'\nEither does not exist or is not a file");
                Err(message)
            } else if !facts.executable {
                let mut message = "Invalid file type '".to_owned();
                message.append(p.as_str());
                message.append("'\nMake sure the file is executable");
                Err(message)
            } else {
                Ok(Some(p))
            }
        },
    }
}

} // verus!
