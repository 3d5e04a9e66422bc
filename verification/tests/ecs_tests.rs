use process_sessions::ecs::{
    client, ecs_describe_tasks, ecs_describe_tasks_args, ecs_list_clusters, ecs_list_clusters_args,
    ecs_list_services, ecs_list_services_args, ecs_list_tasks, ecs_list_tasks_args, exec_command,
    exec_command_args,
};
use process_sessions::search_path::Platform;
use process_sessions::error::ErrorKind;
use process_sessions::invoke::{Invocation, InvocationResult, LaunchError, INVOKE_TIMEOUT_SECS};
use process_sessions::json::parse_output;

fn strings(items: &[&str]) -> Vec<String> {
    items.iter().map(|s| s.to_string()).collect()
}

fn completed(success: bool, stdout: &str, stderr: &str) -> Invocation {
    Invocation::Completed(InvocationResult {
        success,
        stdout: stdout.as_bytes().to_vec(),
        stderr: stderr.as_bytes().to_vec(),
        exit_code: Some(if success { 0 } else { 254 }),
    })
}

#[test]
fn argument_lists_of_the_queries() {
    assert_eq!(client(), "aws");
    assert_eq!(INVOKE_TIMEOUT_SECS, 30);
    assert_eq!(
        ecs_list_clusters_args("dev", "eu-north-1"),
        strings(&["ecs", "list-clusters", "--region", "eu-north-1", "--profile", "dev", "--output", "json"])
    );
    assert_eq!(
        ecs_list_services_args("dev", "eu-north-1", "main"),
        strings(&[
            "ecs", "list-services", "--cluster", "main", "--region", "eu-north-1", "--profile",
            "dev", "--output", "json"
        ])
    );
    assert_eq!(
        ecs_list_tasks_args("dev", "eu-north-1", "main", None),
        strings(&[
            "ecs", "list-tasks", "--cluster", "main", "--region", "eu-north-1", "--profile", "dev",
            "--output", "json"
        ])
    );
    assert_eq!(
        ecs_list_tasks_args("dev", "eu-north-1", "main", Some("web".to_string())),
        strings(&[
            "ecs", "list-tasks", "--cluster", "main", "--region", "eu-north-1", "--profile", "dev",
            "--output", "json", "--service-name", "web"
        ])
    );
    assert_eq!(
        ecs_describe_tasks_args("dev", "eu-north-1", "main", "arn:task/1"),
        strings(&[
            "ecs", "describe-tasks", "--cluster", "main", "--tasks", "arn:task/1", "--region",
            "eu-north-1", "--profile", "dev", "--output", "json"
        ])
    );
}

#[test]
fn argument_list_of_the_interactive_command() {
    assert_eq!(
        exec_command_args("dev", "eu-north-1", "main", "task-1", "app", "/bin/sh"),
        strings(&[
            "ecs", "execute-command", "--cluster", "main", "--task", "task-1", "--container", "app",
            "--command", "/bin/sh", "--interactive", "--region", "eu-north-1", "--profile", "dev"
        ])
    );
}

#[test]
fn clusters_are_listed() {
    let out = ecs_list_clusters(completed(true, "{\"clusterArns\":[\"arn:1\",\"arn:2\"]}", ""));
    assert_eq!(out.unwrap(), strings(&["arn:1", "arn:2"]));
}

#[test]
fn absent_cluster_list_is_empty_not_an_error() {
    assert_eq!(ecs_list_clusters(completed(true, "{}", "")).unwrap(), Vec::<String>::new());
    assert_eq!(
        ecs_list_clusters(completed(true, "{\"serviceArns\":[\"x\"]}", "")).unwrap(),
        Vec::<String>::new()
    );
}

#[test]
fn services_and_tasks_are_read_from_their_own_lists() {
    let answer = "{\"serviceArns\":[\"svc\"],\"taskArns\":[\"t1\",2,\"t2\"]}";
    assert_eq!(ecs_list_services(completed(true, answer, "")).unwrap(), strings(&["svc"]));
    assert_eq!(ecs_list_tasks(completed(true, answer, "")).unwrap(), strings(&["t1", "t2"]));
    assert_eq!(ecs_list_clusters(completed(true, answer, "")).unwrap(), Vec::<String>::new());
}

#[test]
fn failed_query_is_classified() {
    let e = ecs_list_clusters(completed(false, "", "Unable to locate credentials")).unwrap_err();
    assert_eq!(e.kind(), ErrorKind::CommandFailed);
    assert_eq!(e.message(), "AWS credentials not found or invalid. Please sign in with SSO first.");
    let e = ecs_list_tasks(Invocation::TimedOut).unwrap_err();
    assert_eq!(e.kind(), ErrorKind::Timeout);
    let e = ecs_list_services(Invocation::NotStarted(LaunchError {
        not_found: true,
        detail: "x".to_string(),
    }))
    .unwrap_err();
    assert_eq!(e.kind(), ErrorKind::ToolNotFound);
    assert_eq!(e.message(), "Command 'aws' not found. Please ensure it is installed and in your PATH.");
    let e = ecs_list_clusters(completed(true, "<html>", "")).unwrap_err();
    assert_eq!(e.kind(), ErrorKind::MalformedOutput);
}

#[test]
fn task_description_is_the_whole_document() {
    let answer = "{\"tasks\":[{\"taskArn\":\"t1\",\"containers\":[]}],\"failures\":[]}";
    let doc = ecs_describe_tasks(completed(true, answer, "")).unwrap();
    assert_eq!(doc, parse_output(answer.as_bytes()).unwrap());
    let e = ecs_describe_tasks(completed(false, answer, "AccessDenied")).unwrap_err();
    assert_eq!(
        e.message(),
        "Access denied. Your credentials may not have permission for this operation."
    );
}

#[test]
fn interactive_command_pairs_arguments_and_search_path() {
    let command = exec_command(
        Platform::Linux,
        Some("/home/u/bin"),
        None,
        "dev",
        "eu-north-1",
        "main",
        "task-1",
        "app",
        "/bin/sh",
    );
    assert_eq!(command.program, "aws");
    assert_eq!(
        command.args,
        exec_command_args("dev", "eu-north-1", "main", "task-1", "app", "/bin/sh")
    );
    assert_eq!(command.search_path, Some("/home/u/bin:/usr/local/bin:/usr/bin:/bin".to_string()));
    let command = exec_command(Platform::Windows, None, Some("C:\\PF"), "p", "r", "c", "t", "k", "sh");
    assert_eq!(command.search_path, Some("C:\\PF\\Amazon\\AWSCLIV2".to_string()));
}
