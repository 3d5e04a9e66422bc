//! One-shot invocations: what is done with the outcome of running a command
//! to completion.

use vstd::prelude::*;
use vstd::string::StringExecFns;
use vstd::utf8::{decode_utf8, valid_utf8};
use crate::error::{ErrorKind, ProcessError};
use serde_json::Value;
use crate::json::{json_document, parse_output};
use crate::text::{
    contains, copy_strings, decode_lossy, occurs_in, same_text, texts, trim, trimmed, utf8_lossy,
};

verus! {

/// The known causes of a failed command, in the order in which they are
/// looked for.
#[derive(Clone, Copy, Debug, PartialEq, Eq, Structural)]
pub enum FailureCause {
    /// Credentials are missing or invalid.
    Credentials,
    /// The configuration file is missing.
    ConfigMissing,
    /// The named profile is missing.
    ProfileMissing,
    /// The credentials lack the permission.
    AccessDenied,
    /// The network timed out or could not be reached.
    Network,
    /// None of the known signatures occurs.
    Unrecognized,
}

/// The cause that the error output `stderr` points to: the first signature
/// that matches decides.
pub open spec fn failure_cause(stderr: Seq<char>) -> FailureCause {
    if occurs_in(stderr, "Unable to locate credentials"@) || occurs_in(
        stderr,
        "InvalidClientTokenId"@,
    ) {
        FailureCause::Credentials
    } else if occurs_in(stderr, "No such file or directory"@) || occurs_in(stderr, "config"@) {
        FailureCause::ConfigMissing
    } else if occurs_in(stderr, "profile"@) && occurs_in(stderr, "not found"@) {
        FailureCause::ProfileMissing
    } else if occurs_in(stderr, "AccessDenied"@) || occurs_in(stderr, "UnauthorizedOperation"@) {
        FailureCause::AccessDenied
    } else if occurs_in(stderr, "timeout"@) || occurs_in(stderr, "Could not connect"@) {
        FailureCause::Network
    } else {
        FailureCause::Unrecognized
    }
}

/// The text reported for a failed command whose error output is `stderr`: a
/// fixed sentence for each known cause, else the trimmed output itself.
pub open spec fn failure_message(stderr: Seq<char>) -> Seq<char> {
    match failure_cause(stderr) {
        FailureCause::Credentials => "AWS credentials not found or invalid. Please sign in with SSO first."@,
        FailureCause::ConfigMissing => "AWS configuration file not found. Please ensure ~/.aws/config exists and contains your profiles."@,
        FailureCause::ProfileMissing => "AWS profile not found. Please check your ~/.aws/config file."@,
        FailureCause::AccessDenied => "Access denied. Your credentials may not have permission for this operation."@,
        FailureCause::Network => "Network timeout or connection error. Please check your internet connection and try again."@,
        FailureCause::Unrecognized => trimmed(stderr),
    }
}

/// Looks for the known signatures in the error output of a failed command.
pub fn classify_cause(stderr: &str) -> (cause: FailureCause)
    ensures
        cause == failure_cause(stderr@),
{
    if contains(stderr, "Unable to locate credentials") || contains(stderr, "InvalidClientTokenId") {
        FailureCause::Credentials
    } else if contains(stderr, "No such file or directory") || contains(stderr, "config") {
        FailureCause::ConfigMissing
    } else if contains(stderr, "profile") && contains(stderr, "not found") {
        FailureCause::ProfileMissing
    } else if contains(stderr, "AccessDenied") || contains(stderr, "UnauthorizedOperation") {
        FailureCause::AccessDenied
    } else if contains(stderr, "timeout") || contains(stderr, "Could not connect") {
        FailureCause::Network
    } else {
        FailureCause::Unrecognized
    }
}

/// The text reported for a failed command whose error output is `stderr`.
pub fn classify_failure(stderr: &str) -> (message: String)
    ensures
        message@ == failure_message(stderr@),
{
    match classify_cause(stderr) {
        FailureCause::Credentials => String::from_str(
            "AWS credentials not found or invalid. Please sign in with SSO first.",
        ),
        FailureCause::ConfigMissing => String::from_str(
            "AWS configuration file not found. Please ensure ~/.aws/config exists and contains your profiles.",
        ),
        FailureCause::ProfileMissing => String::from_str(
            "AWS profile not found. Please check your ~/.aws/config file.",
        ),
        FailureCause::AccessDenied => String::from_str(
            "Access denied. Your credentials may not have permission for this operation.",
        ),
        FailureCause::Network => String::from_str(
            "Network timeout or connection error. Please check your internet connection and try again.",
        ),
        FailureCause::Unrecognized => trim(stderr),
    }
}

/// The time limit of a one-shot invocation, in seconds.
pub const INVOKE_TIMEOUT_SECS: u64 = 30;

/// What a process that ran to completion left behind.
#[derive(Debug)]
pub struct InvocationResult {
    /// Whether the exit status reports success.
    pub success: bool,
    /// Everything the process wrote to its standard output.
    pub stdout: Vec<u8>,
    /// Everything the process wrote to its standard error.
    pub stderr: Vec<u8>,
    /// The exit code, where the process ended with one.
    pub exit_code: Option<i32>,
}

/// Why a process could not be started and run.
#[derive(Debug)]
pub struct LaunchError {
    /// Whether the executable could not be located.
    pub not_found: bool,
    /// The operating system's description of the failure.
    pub detail: String,
}

/// How the attempt to run a command to completion under a time limit ended.
#[derive(Debug)]
pub enum Invocation {
    /// The process could not be started.
    NotStarted(LaunchError),
    /// The time limit passed before the process ended.
    TimedOut,
    /// Waiting for the process failed, with the system's description.
    WaitFailed(String),
    /// The process ended.
    Completed(InvocationResult),
}

/// A process to be spawned: the program, its arguments and the search path
/// to hand to it, where that is to differ from the caller's own.
#[derive(Debug)]
pub struct CommandLine {
    pub program: String,
    pub args: Vec<String>,
    pub search_path: Option<String>,
}

impl View for CommandLine {
    type V = (Seq<char>, Seq<Seq<char>>, Option<Seq<char>>);

    open spec fn view(&self) -> (Seq<char>, Seq<Seq<char>>, Option<Seq<char>>) {
        (
            self.program@,
            texts(self.args@),
            match self.search_path {
                Some(path) => Some(path@),
                None => None,
            },
        )
    }
}

impl CommandLine {
    /// A copy of this command line.
    pub fn copy(&self) -> (c: CommandLine)
        ensures
            c@ == self@,
    {
        CommandLine {
            program: self.program.clone(),
            args: copy_strings(&self.args),
            search_path: match &self.search_path {
                Some(path) => Some(path.clone()),
                None => None,
            },
        }
    }
}

/// Whether the command-line client must be probed before `cmd` is run: it
/// must where `cmd` is the client itself.
pub fn needs_cli_check(cmd: &str) -> (needed: bool)
    ensures
        needed == (cmd@ == "aws"@),
{
    same_text(cmd, "aws")
}

/// Whether `verdict` is the verdict on the command-line client, given how
/// probing it for its version ended: it is usable exactly if the probe ran
/// to its end and reported success.
pub open spec fn cli_verdict(probe: Invocation, verdict: Result<(), ProcessError>) -> bool {
    match probe {
        Invocation::Completed(result) => if result.success {
            verdict is Ok
        } else {
            verdict is Err && verdict->Err_0.is(
                ErrorKind::CommandFailed,
                "AWS CLI is installed but not working properly. Please check your installation."@,
            )
        },
        Invocation::NotStarted(error) => verdict is Err && if error.not_found {
            verdict->Err_0.is(
                ErrorKind::ToolNotFound,
                "AWS CLI is not installed or not found in PATH. Please install AWS CLI v2 from https://aws.amazon.com/cli/"@,
            )
        } else {
            verdict->Err_0.is(ErrorKind::SpawnFailed, "Failed to check AWS CLI: "@ + error.detail@)
        },
        Invocation::WaitFailed(detail) => verdict is Err && verdict->Err_0.is(
            ErrorKind::IoFailure,
            "Failed to check AWS CLI: "@ + detail@,
        ),
        Invocation::TimedOut => verdict is Err && verdict->Err_0.is(
            ErrorKind::Timeout,
            "Command timeout after 30 seconds"@,
        ),
    }
}

/// The verdict on the command-line client, given how probing it for its
/// version under the time limit ended.
pub fn check_aws_cli(probe: Invocation) -> (verdict: Result<(), ProcessError>)
    ensures
        cli_verdict(probe, verdict),
{
    match probe {
        Invocation::Completed(result) => {
            if result.success {
                Ok(())
            } else {
                Err(
                    ProcessError::new(
                        ErrorKind::CommandFailed,
                        String::from_str(
                            "AWS CLI is installed but not working properly. Please check your installation.",
                        ),
                    ),
                )
            }
        },
        Invocation::NotStarted(error) => {
            if error.not_found {
                Err(
                    ProcessError::new(
                        ErrorKind::ToolNotFound,
                        String::from_str(
                            "AWS CLI is not installed or not found in PATH. Please install AWS CLI v2 from https://aws.amazon.com/cli/",
                        ),
                    ),
                )
            } else {
                Err(
                    ProcessError::new(
                        ErrorKind::SpawnFailed,
                        String::from_str("Failed to check AWS CLI: ").concat(error.detail.as_str()),
                    ),
                )
            }
        },
        Invocation::WaitFailed(detail) => Err(
            ProcessError::new(
                ErrorKind::IoFailure,
                String::from_str("Failed to check AWS CLI: ").concat(detail.as_str()),
            ),
        ),
        Invocation::TimedOut => Err(
            ProcessError::new(
                ErrorKind::Timeout,
                String::from_str("Command timeout after 30 seconds"),
            ),
        ),
    }
}

/// The failure reported when `cmd` could not be started.
pub fn launch_failure(cmd: &str, error: &LaunchError) -> (e: ProcessError)
    ensures
        error.not_found ==> e.is(
            ErrorKind::ToolNotFound,
            "Command '"@ + cmd@ + "' not found. Please ensure it is installed and in your PATH."@,
        ),
        !error.not_found ==> e.is(
            ErrorKind::SpawnFailed,
            "Failed to execute command: "@ + error.detail@,
        ),
{
    if error.not_found {
        ProcessError::new(
            ErrorKind::ToolNotFound,
            String::from_str("Command '").concat(cmd).concat(
                "' not found. Please ensure it is installed and in your PATH.",
            ),
        )
    } else {
        ProcessError::new(
            ErrorKind::SpawnFailed,
            String::from_str("Failed to execute command: ").concat(error.detail.as_str()),
        )
    }
}

/// What a command's standard output amounts to once the parser has spoken:
/// the document, or a failure that quotes the parser's complaint.
pub fn parsed_or_malformed(parsed: Result<Value, String>) -> (out: Result<Value, ProcessError>)
    ensures
        parsed is Ok ==> out == Ok::<Value, ProcessError>(parsed->Ok_0),
        parsed is Err ==> out is Err && out->Err_0.is(
            ErrorKind::MalformedOutput,
            "Failed to parse JSON: "@ + parsed->Err_0@,
        ),
{
    match parsed {
        Ok(doc) => Ok(doc),
        Err(detail) => Err(
            ProcessError::new(
                ErrorKind::MalformedOutput,
                String::from_str("Failed to parse JSON: ").concat(detail.as_str()),
            ),
        ),
    }
}

/// Whether `out` is what a one-shot invocation of `cmd` that ended as
/// `outcome` amounts to. Exit-status success and well-formed output are
/// separate conditions: the call succeeds only if both hold. Error output
/// is decoded with invalid sequences replaced; where it is valid UTF-8 that
/// is the text it encodes.
pub open spec fn json_outcome(cmd: Seq<char>, outcome: Invocation, out: Result<
    Value,
    ProcessError,
>) -> bool {
    match outcome {
        Invocation::NotStarted(error) => out is Err && if error.not_found {
            out->Err_0.is(
                ErrorKind::ToolNotFound,
                "Command '"@ + cmd
                    + "' not found. Please ensure it is installed and in your PATH."@,
            )
        } else {
            out->Err_0.is(ErrorKind::SpawnFailed, "Failed to execute command: "@ + error.detail@)
        },
        Invocation::TimedOut => out is Err && out->Err_0.is(
            ErrorKind::Timeout,
            "Command timeout after 30 seconds"@,
        ),
        Invocation::WaitFailed(detail) => out is Err && out->Err_0.is(
            ErrorKind::IoFailure,
            "Failed to wait for command: "@ + detail@,
        ),
        Invocation::Completed(result) => if !result.success {
            &&& out is Err
            &&& out->Err_0.is(ErrorKind::CommandFailed, failure_message(utf8_lossy(result.stderr@)))
            &&& valid_utf8(result.stderr@) ==> out->Err_0.message@ == failure_message(
                decode_utf8(result.stderr@),
            )
        } else {
            match json_document(result.stdout@) {
                Some(doc) => out == Ok::<Value, ProcessError>(doc),
                None => out is Err && out->Err_0.kind == ErrorKind::MalformedOutput
                    && crate::text::has_prefix(out->Err_0.message@, "Failed to parse JSON: "@),
            }
        },
    }
}

/// Turns the outcome of a one-shot invocation of `cmd` into the parsed
/// document or the classified failure.
pub fn run_json(cmd: &str, outcome: Invocation) -> (out: Result<Value, ProcessError>)
    ensures
        json_outcome(cmd@, outcome, out),
{
    match outcome {
        Invocation::NotStarted(error) => Err(launch_failure(cmd, &error)),
        Invocation::TimedOut => Err(
            ProcessError::new(
                ErrorKind::Timeout,
                String::from_str("Command timeout after 30 seconds"),
            ),
        ),
        Invocation::WaitFailed(detail) => Err(
            ProcessError::new(
                ErrorKind::IoFailure,
                String::from_str("Failed to wait for command: ").concat(detail.as_str()),
            ),
        ),
        Invocation::Completed(result) => {
            if !result.success {
                let stderr = decode_lossy(result.stderr.as_slice());
                Err(
                    ProcessError::new(
                        ErrorKind::CommandFailed,
                        classify_failure(stderr.as_str()),
                    ),
                )
            } else {
                let out = parsed_or_malformed(parse_output(result.stdout.as_slice()));
                proof {
                    if out is Err {
                        let head = "Failed to parse JSON: "@;
                        assert(out->Err_0.message@.subrange(0, head.len() as int) =~= head);
                    }
                }
                out
            }
        },
    }
}

} // verus!
