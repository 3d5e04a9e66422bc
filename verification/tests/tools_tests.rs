use process_sessions::invoke::{Invocation, InvocationResult, LaunchError};
use process_sessions::tools::{check_required_tools, check_tool, tool_status, version_line};

fn ran(success: bool, stdout: &str, stderr: &str) -> Invocation {
    Invocation::Completed(InvocationResult {
        success,
        stdout: stdout.as_bytes().to_vec(),
        stderr: stderr.as_bytes().to_vec(),
        exit_code: Some(if success { 0 } else { 1 }),
    })
}

#[test]
fn version_is_the_trimmed_first_line() {
    assert_eq!(version_line("aws-cli/2.15.0 Python/3.11 \nmore\n"), "aws-cli/2.15.0 Python/3.11");
    assert_eq!(version_line("  1.2.3\r\n"), "1.2.3");
    assert_eq!(version_line(""), "");
    assert_eq!(version_line("\nsecond"), "");
}

#[test]
fn findings_on_a_tool() {
    assert_eq!(check_tool(ran(true, "1.2.3\n", "")), Ok("1.2.3".to_string()));
    assert_eq!(check_tool(ran(true, "", "warn")), Ok("".to_string()));
    assert_eq!(check_tool(ran(false, "1.2.3", "bad flag\n")), Err("Command failed: bad flag\n".to_string()));
    assert_eq!(
        check_tool(Invocation::NotStarted(LaunchError {
            not_found: true,
            detail: "No such file or directory (os error 2)".to_string()
        })),
        Err("Command not found: No such file or directory (os error 2)".to_string())
    );
    assert_eq!(
        check_tool(Invocation::NotStarted(LaunchError { not_found: false, detail: "denied".to_string() })),
        Err("Command not found: denied".to_string())
    );
    assert_eq!(
        check_tool(Invocation::WaitFailed("interrupted".to_string())),
        Err("Command not found: interrupted".to_string())
    );
    assert_eq!(
        check_tool(Invocation::TimedOut),
        Err("Command timeout after 30 seconds".to_string())
    );
}

#[test]
fn status_entry_reflects_the_finding() {
    let status = tool_status("AWS CLI", Ok("2.0".to_string()));
    assert_eq!(status.name, "AWS CLI");
    assert!(status.installed);
    assert_eq!(status.version, Some("2.0".to_string()));
    let status = tool_status("X", Err("Command not found: x".to_string()));
    assert_eq!(status.name, "X");
    assert!(!status.installed);
    assert_eq!(status.version, None);
}

#[test]
fn both_required_tools_are_reported_in_order() {
    let tools = check_required_tools(
        ran(true, "aws-cli/2.15.0\n", ""),
        Invocation::NotStarted(LaunchError { not_found: true, detail: "missing".to_string() }),
    );
    assert_eq!(tools.len(), 2);
    assert_eq!(tools[0].name, "AWS CLI");
    assert!(tools[0].installed);
    assert_eq!(tools[0].version, Some("aws-cli/2.15.0".to_string()));
    assert_eq!(tools[1].name, "Session Manager Plugin");
    assert!(!tools[1].installed);
    assert_eq!(tools[1].version, None);

    let tools = check_required_tools(ran(false, "", "broken"), ran(true, "1.2.553.0", ""));
    assert!(!tools[0].installed);
    assert_eq!(tools[0].version, None);
    assert!(tools[1].installed);
    assert_eq!(tools[1].version, Some("1.2.553.0".to_string()));

    let tools = check_required_tools(Invocation::TimedOut, ran(true, "\u{e9}t\u{e9} 1.0\n", ""));
    assert!(!tools[0].installed);
    assert!(tools[1].installed);
    assert_eq!(tools[1].version, Some("\u{e9}t\u{e9} 1.0".to_string()));
}
