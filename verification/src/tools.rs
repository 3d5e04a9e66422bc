//! Probing for the command-line tools that the sessions rely on.

use vstd::prelude::*;
use vstd::string::StringExecFns;
use vstd::utf8::{decode_utf8, valid_utf8};
use crate::invoke::Invocation;
use crate::text::{decode_lossy, first_line, split_lines, texts, trim, trimmed, utf8_lossy};

verus! {

/// Whether a tool is installed, and the version it reports.
#[derive(Debug)]
pub struct ToolStatus {
    /// The tool's display name.
    pub name: String,
    /// Whether probing the tool succeeded.
    pub installed: bool,
    /// The version line the tool printed, where probing succeeded.
    pub version: Option<String>,
}

/// Whether `found` is the finding on a tool whose version probe ended as
/// `probe`: the trimmed first line of its output where the probe ran to its
/// end and reported success, else a complaint that quotes what went wrong.
pub open spec fn tool_finding(probe: Invocation, found: Result<String, String>) -> bool {
    match probe {
        Invocation::Completed(result) => if result.success {
            &&& found is Ok
            &&& found->Ok_0@ == trimmed(first_line(utf8_lossy(result.stdout@)))
            &&& valid_utf8(result.stdout@) ==> found->Ok_0@ == trimmed(
                first_line(decode_utf8(result.stdout@)),
            )
        } else {
            &&& found is Err
            &&& found->Err_0@ == "Command failed: "@ + utf8_lossy(result.stderr@)
            &&& valid_utf8(result.stderr@) ==> found->Err_0@ == "Command failed: "@ + decode_utf8(
                result.stderr@,
            )
        },
        Invocation::NotStarted(error) => found is Err && found->Err_0@ == "Command not found: "@
            + error.detail@,
        Invocation::WaitFailed(detail) => found is Err && found->Err_0@ == "Command not found: "@
            + detail@,
        Invocation::TimedOut => found is Err && found->Err_0@
            == "Command timeout after 30 seconds"@,
    }
}

/// The version line in the decoded output of a version probe: its first
/// line, trimmed.
pub fn version_line(stdout: &str) -> (version: String)
    ensures
        version@ == trimmed(first_line(stdout@)),
{
    let all = split_lines(stdout);
    if all.len() > 0 {
        assert(texts(all@)[0] == all@[0]@);
        trim(all[0].as_str())
    } else {
        assert(texts(all@).len() == 0);
        String::new()
    }
}

/// The finding on a tool, given how probing it for its version under the
/// time limit ended.
pub fn check_tool(probe: Invocation) -> (found: Result<String, String>)
    ensures
        tool_finding(probe, found),
{
    match probe {
        Invocation::Completed(result) => {
            if result.success {
                let stdout = decode_lossy(result.stdout.as_slice());
                Ok(version_line(stdout.as_str()))
            } else {
                let stderr = decode_lossy(result.stderr.as_slice());
                Err(String::from_str("Command failed: ").concat(stderr.as_str()))
            }
        },
        Invocation::NotStarted(error) => Err(
            String::from_str("Command not found: ").concat(error.detail.as_str()),
        ),
        Invocation::WaitFailed(detail) => Err(
            String::from_str("Command not found: ").concat(detail.as_str()),
        ),
        Invocation::TimedOut => Err(String::from_str("Command timeout after 30 seconds")),
    }
}

/// The status entry for the tool shown as `name`, given the finding on it.
pub fn tool_status(name: &str, found: Result<String, String>) -> (status: ToolStatus)
    ensures
        status.name@ == name@,
        status.installed == (found is Ok),
        found is Ok ==> status.version == Some(found->Ok_0),
        found is Err ==> status.version is None,
{
    match found {
        Ok(version) => ToolStatus {
            name: String::from_str(name),
            installed: true,
            version: Some(version),
        },
        Err(_) => ToolStatus { name: String::from_str(name), installed: false, version: None },
    }
}

/// Whether `status` is the entry for the tool shown as `name` whose version
/// probe ended as `probe`: installed, with the trimmed first line of its
/// output as version, exactly where the probe ran to its end and reported
/// success.
pub open spec fn status_reflects(name: Seq<char>, probe: Invocation, status: ToolStatus) -> bool {
    &&& status.name@ == name
    &&& if probe is Completed && probe->Completed_0.success {
        &&& status.installed
        &&& status.version is Some
        &&& status.version->0@ == trimmed(first_line(utf8_lossy(probe->Completed_0.stdout@)))
        &&& valid_utf8(probe->Completed_0.stdout@) ==> status.version->0@ == trimmed(
            first_line(decode_utf8(probe->Completed_0.stdout@)),
        )
    } else {
        &&& !status.installed
        &&& status.version is None
    }
}

/// The status of the two required tools, the command-line client first and
/// the session plugin second, given how probing each for its version ended.
pub fn check_required_tools(aws_cli: Invocation, plugin: Invocation) -> (tools: Vec<ToolStatus>)
    ensures
        tools@.len() == 2,
        status_reflects("AWS CLI"@, aws_cli, tools@[0]),
        status_reflects("Session Manager Plugin"@, plugin, tools@[1]),
{
    let mut tools: Vec<ToolStatus> = Vec::new();
    let first = check_tool(aws_cli);
    tools.push(tool_status("AWS CLI", first));
    let second = check_tool(plugin);
    tools.push(tool_status("Session Manager Plugin", second));
    tools
}

} // verus!
