//! The command surface behind the frontend's four operations.
//!
//! Reading a file, writing one, and launching the file manager are single OS
//! calls made outside this library; each hands its raw outcome back in as a
//! plain `Result`. This module decides everything around those calls: which
//! platform supports the reveal operation and with what command line, how
//! every outcome maps to the command's result, and the exact text of each
//! error message.

use vstd::prelude::*;
use vstd::string::StringExecFns;

verus! {

/// Why a command failed.
#[derive(Debug, Clone)]
pub enum CommandError {
    /// The file at `path` could not be opened or read; `os_error` is the
    /// OS's own description.
    ReadFailure { path: String, os_error: String },
    /// The file at `path` could not be created, truncated or written.
    WriteFailure { path: String, os_error: String },
    /// The reveal operation is not implemented for the running platform.
    UnsupportedPlatform,
    /// The file-manager process could not be launched.
    LaunchFailure { os_error: String },
}

/// The message a failed command reports to the frontend: it names the
/// failing path where one is involved, and carries the OS error text.
pub open spec fn message_of(e: CommandError) -> Seq<char> {
    match e {
        CommandError::ReadFailure { path, os_error } => "Failed to read file "@ + path@ + ": "@
            + os_error@,
        CommandError::WriteFailure { path, os_error } => "Failed to write file "@ + path@ + ": "@
            + os_error@,
        CommandError::UnsupportedPlatform => "Not supported on this OS"@,
        CommandError::LaunchFailure { os_error } => "Failed to open explorer: "@ + os_error@,
    }
}

impl CommandError {
    /// Render the error as the descriptive string the frontend receives.
    pub fn message(&self) -> (r: String)
        ensures
            r@ == message_of(*self),
    {
        match self {
            CommandError::ReadFailure { path, os_error } => {
                let mut m = String::from_str("Failed to read file ");
                m.append(path.as_str());
                m.append(": ");
                m.append(os_error.as_str());
                m
            },
            CommandError::WriteFailure { path, os_error } => {
                let mut m = String::from_str("Failed to write file ");
                m.append(path.as_str());
                m.append(": ");
                m.append(os_error.as_str());
                m
            },
            CommandError::UnsupportedPlatform => String::from_str("Not supported on this OS"),
            CommandError::LaunchFailure { os_error } => {
                let mut m = String::from_str("Failed to open explorer: ");
                m.append(os_error.as_str());
                m
            },
        }
    }
}

/// The result of the read command, given the OS's outcome for the file at
/// `path`: the full bytes on success, and otherwise a `ReadFailure` naming
/// that path and carrying the OS error text. Nothing partial is exposed.
pub fn read_pdf_file_result(path: String, outcome: Result<Vec<u8>, String>) -> (r: Result<
    Vec<u8>,
    CommandError,
>)
    ensures
        outcome matches Ok(data) ==> r == Ok::<Vec<u8>, CommandError>(data),
        outcome matches Err(os_error) ==> r == Err::<Vec<u8>, CommandError>(
            CommandError::ReadFailure { path, os_error },
        ),
{
    match outcome {
        Ok(data) => Ok(data),
        Err(os_error) => Err(CommandError::ReadFailure { path, os_error }),
    }
}

/// The result of the write command, given the OS's outcome for the file at
/// `path`: success passes through, and any failure becomes a `WriteFailure`
/// naming that path and carrying the OS error text.
pub fn write_pdf_file_result(path: String, outcome: Result<(), String>) -> (r: Result<
    (),
    CommandError,
>)
    ensures
        outcome matches Ok(u) ==> r == Ok::<(), CommandError>(u),
        outcome matches Err(os_error) ==> r == Err::<(), CommandError>(
            CommandError::WriteFailure { path, os_error },
        ),
{
    match outcome {
        Ok(u) => Ok(u),
        Err(os_error) => Err(CommandError::WriteFailure { path, os_error }),
    }
}

/// The platform the process runs on, as far as the reveal operation cares:
/// only Windows has a launcher today, and the design leaves room to add the
/// other platforms' reveal commands without changing any contract.
#[derive(Clone, Copy, PartialEq, Eq, Structural, Debug)]
pub enum Platform {
    Windows,
    MacOs,
    Linux,
    Other,
}

/// The process the reveal operation launches: a program name and its
/// arguments.
#[derive(Debug)]
pub struct RevealCommand {
    pub program: String,
    pub args: Vec<String>,
}

/// Plan the reveal operation for `path` on `platform`.
///
/// On Windows the plan is the `explorer` process with the two arguments
/// `/select,` and the path — the comma makes `explorer` pre-select the file.
/// On every other platform the operation fails with `UnsupportedPlatform`
/// and there is no process to launch.
pub fn show_in_folder_plan(platform: Platform, path: String) -> (r: Result<
    RevealCommand,
    CommandError,
>)
    ensures
        platform == Platform::Windows ==> (r matches Ok(c) && c.program@ == "explorer"@
            && c.args.deep_view() =~= seq!["/select,"@, path@]),
        platform != Platform::Windows ==> r == Err::<RevealCommand, CommandError>(
            CommandError::UnsupportedPlatform,
        ),
{
    match platform {
        Platform::Windows => {
            let mut args: Vec<String> = Vec::new();
            args.push(String::from_str("/select,"));
            args.push(path);
            proof {
                assert(args.deep_view() =~= seq!["/select,"@, path@]);
            }
            Ok(RevealCommand { program: String::from_str("explorer"), args })
        },
        _ => Err(CommandError::UnsupportedPlatform),
    }
}

/// The result of the reveal command, given the outcome of launching the
/// planned process: the command succeeds as soon as the launch does, and a
/// failed launch becomes a `LaunchFailure` carrying the OS error text.
pub fn show_in_folder_result(outcome: Result<(), String>) -> (r: Result<(), CommandError>)
    ensures
        outcome matches Ok(u) ==> r == Ok::<(), CommandError>(u),
        outcome matches Err(os_error) ==> r == Err::<(), CommandError>(
            CommandError::LaunchFailure { os_error },
        ),
{
    match outcome {
        Ok(u) => Ok(u),
        Err(os_error) => Err(CommandError::LaunchFailure { os_error }),
    }
}

} // verus!
