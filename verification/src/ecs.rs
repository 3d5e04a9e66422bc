//! The container-service queries: the arguments with which the command-line
//! client is run for each, and what is read from its answer.

use vstd::prelude::*;
use vstd::string::StringExecFns;
use serde_json::Value;
use crate::error::ProcessError;
use crate::invoke::{json_outcome, run_json, CommandLine, Invocation};
use crate::search_path::{
    joined, optional_text, search_dirs, search_path, separator_of, Platform,
};
use crate::json::{json_document, string_list, string_list_of};
use crate::text::texts;

verus! {

/// The name of the command-line client.
pub fn client() -> (name: &'static str)
    ensures
        name@ == "aws"@,
{
    "aws"
}

/// Appends the region, the profile and the output format to `args`.
fn push_common(args: &mut Vec<String>, region: &str, profile: &str)
    ensures
        texts(final(args)@) == texts(old(args)@) + seq![
            "--region"@,
            region@,
            "--profile"@,
            profile@,
            "--output"@,
            "json"@,
        ],
{
    let ghost before = texts(args@);
    args.push(String::from_str("--region"));
    args.push(String::from_str(region));
    args.push(String::from_str("--profile"));
    args.push(String::from_str(profile));
    args.push(String::from_str("--output"));
    args.push(String::from_str("json"));
    assert(texts(args@) =~= before + seq![
        "--region"@,
        region@,
        "--profile"@,
        profile@,
        "--output"@,
        "json"@,
    ]);
}

/// The arguments of the query for the clusters of a region.
pub fn ecs_list_clusters_args(profile: &str, region: &str) -> (args: Vec<String>)
    ensures
        texts(args@) == seq![
            "ecs"@,
            "list-clusters"@,
            "--region"@,
            region@,
            "--profile"@,
            profile@,
            "--output"@,
            "json"@,
        ],
{
    let mut args: Vec<String> = Vec::new();
    args.push(String::from_str("ecs"));
    args.push(String::from_str("list-clusters"));
    assert(texts(args@) =~= seq!["ecs"@, "list-clusters"@]);
    push_common(&mut args, region, profile);
    assert(texts(args@) =~= seq![
        "ecs"@,
        "list-clusters"@,
        "--region"@,
        region@,
        "--profile"@,
        profile@,
        "--output"@,
        "json"@,
    ]);
    args
}

/// The arguments of the query for the services of a cluster.
pub fn ecs_list_services_args(profile: &str, region: &str, cluster: &str) -> (args: Vec<String>)
    ensures
        texts(args@) == seq![
            "ecs"@,
            "list-services"@,
            "--cluster"@,
            cluster@,
            "--region"@,
            region@,
            "--profile"@,
            profile@,
            "--output"@,
            "json"@,
        ],
{
    let mut args: Vec<String> = Vec::new();
    args.push(String::from_str("ecs"));
    args.push(String::from_str("list-services"));
    args.push(String::from_str("--cluster"));
    args.push(String::from_str(cluster));
    assert(texts(args@) =~= seq!["ecs"@, "list-services"@, "--cluster"@, cluster@]);
    push_common(&mut args, region, profile);
    assert(texts(args@) =~= seq![
        "ecs"@,
        "list-services"@,
        "--cluster"@,
        cluster@,
        "--region"@,
        region@,
        "--profile"@,
        profile@,
        "--output"@,
        "json"@,
    ]);
    args
}

/// The arguments that name the service, where the tasks of one service are
/// asked for.
pub open spec fn service_filter(service: Option<String>) -> Seq<Seq<char>> {
    match service {
        Some(name) => seq!["--service-name"@, name@],
        None => Seq::empty(),
    }
}

/// The arguments of the query for the tasks of a cluster, or of one of its
/// services where `service` names one.
pub fn ecs_list_tasks_args(
    profile: &str,
    region: &str,
    cluster: &str,
    service: Option<String>,
) -> (args: Vec<String>)
    ensures
        texts(args@) == seq![
            "ecs"@,
            "list-tasks"@,
            "--cluster"@,
            cluster@,
            "--region"@,
            region@,
            "--profile"@,
            profile@,
            "--output"@,
            "json"@,
        ] + service_filter(service),
{
    let mut args: Vec<String> = Vec::new();
    args.push(String::from_str("ecs"));
    args.push(String::from_str("list-tasks"));
    args.push(String::from_str("--cluster"));
    args.push(String::from_str(cluster));
    assert(texts(args@) =~= seq!["ecs"@, "list-tasks"@, "--cluster"@, cluster@]);
    push_common(&mut args, region, profile);
    let ghost base = texts(args@);
    assert(base =~= seq![
        "ecs"@,
        "list-tasks"@,
        "--cluster"@,
        cluster@,
        "--region"@,
        region@,
        "--profile"@,
        profile@,
        "--output"@,
        "json"@,
    ]);
    match service {
        Some(name) => {
            args.push(String::from_str("--service-name"));
            args.push(name);
            assert(texts(args@) =~= base + seq!["--service-name"@, name@]);
        },
        None => {
            assert(texts(args@) =~= base + Seq::<Seq<char>>::empty());
        },
    }
    args
}

/// The arguments of the query that describes one task.
pub fn ecs_describe_tasks_args(profile: &str, region: &str, cluster: &str, task_arn: &str) -> (args:
    Vec<String>)
    ensures
        texts(args@) == seq![
            "ecs"@,
            "describe-tasks"@,
            "--cluster"@,
            cluster@,
            "--tasks"@,
            task_arn@,
            "--region"@,
            region@,
            "--profile"@,
            profile@,
            "--output"@,
            "json"@,
        ],
{
    let mut args: Vec<String> = Vec::new();
    args.push(String::from_str("ecs"));
    args.push(String::from_str("describe-tasks"));
    args.push(String::from_str("--cluster"));
    args.push(String::from_str(cluster));
    args.push(String::from_str("--tasks"));
    args.push(String::from_str(task_arn));
    assert(texts(args@) =~= seq![
        "ecs"@,
        "describe-tasks"@,
        "--cluster"@,
        cluster@,
        "--tasks"@,
        task_arn@,
    ]);
    push_common(&mut args, region, profile);
    assert(texts(args@) =~= seq![
        "ecs"@,
        "describe-tasks"@,
        "--cluster"@,
        cluster@,
        "--tasks"@,
        task_arn@,
        "--region"@,
        region@,
        "--profile"@,
        profile@,
        "--output"@,
        "json"@,
    ]);
    args
}

/// The arguments with which the command-line client opens an interactive
/// command in a container of a task.
pub fn exec_command_args(
    profile: &str,
    region: &str,
    cluster: &str,
    task: &str,
    container: &str,
    shell_cmd: &str,
) -> (args: Vec<String>)
    ensures
        texts(args@) == seq![
            "ecs"@,
            "execute-command"@,
            "--cluster"@,
            cluster@,
            "--task"@,
            task@,
            "--container"@,
            container@,
            "--command"@,
            shell_cmd@,
            "--interactive"@,
            "--region"@,
            region@,
            "--profile"@,
            profile@,
        ],
{
    let mut args: Vec<String> = Vec::new();
    args.push(String::from_str("ecs"));
    args.push(String::from_str("execute-command"));
    args.push(String::from_str("--cluster"));
    args.push(String::from_str(cluster));
    args.push(String::from_str("--task"));
    args.push(String::from_str(task));
    args.push(String::from_str("--container"));
    args.push(String::from_str(container));
    args.push(String::from_str("--command"));
    args.push(String::from_str(shell_cmd));
    args.push(String::from_str("--interactive"));
    args.push(String::from_str("--region"));
    args.push(String::from_str(region));
    args.push(String::from_str("--profile"));
    args.push(String::from_str(profile));
    assert(texts(args@) =~= seq![
        "ecs"@,
        "execute-command"@,
        "--cluster"@,
        cluster@,
        "--task"@,
        task@,
        "--container"@,
        container@,
        "--command"@,
        shell_cmd@,
        "--interactive"@,
        "--region"@,
        region@,
        "--profile"@,
        profile@,
    ]);
    args
}

/// The process that opens an interactive command in a container of a task:
/// the command-line client with the arguments of `exec_command_args`, and
/// with the search path that `search_path` makes of the caller's own.
pub fn exec_command(
    platform: Platform,
    own_path: Option<&str>,
    program_files: Option<&str>,
    profile: &str,
    region: &str,
    cluster: &str,
    task: &str,
    container: &str,
    shell_cmd: &str,
) -> (command: CommandLine)
    ensures
        command@ == (
            "aws"@,
            seq![
                "ecs"@,
                "execute-command"@,
                "--cluster"@,
                cluster@,
                "--task"@,
                task@,
                "--container"@,
                container@,
                "--command"@,
                shell_cmd@,
                "--interactive"@,
                "--region"@,
                region@,
                "--profile"@,
                profile@,
            ],
            Some(
                joined(
                    search_dirs(platform, optional_text(own_path), optional_text(program_files)),
                    separator_of(platform),
                ),
            ),
        ),
{
    CommandLine {
        program: String::from_str(client()),
        args: exec_command_args(profile, region, cluster, task, container, shell_cmd),
        search_path: Some(search_path(platform, own_path, program_files)),
    }
}

/// Whether `out` is what a query for the list under `key` amounts to, given
/// how running the command-line client ended: the strings in that list
/// where the client succeeded and its output is a document, and else the
/// failure of the invocation. A document without a list under `key` gives
/// the empty list.
pub open spec fn list_outcome(key: Seq<char>, outcome: Invocation, out: Result<
    Vec<String>,
    ProcessError,
>) -> bool {
    if outcome is Completed && outcome->Completed_0.success && json_document(
        outcome->Completed_0.stdout@,
    ) is Some {
        out is Ok && texts(out->Ok_0@) == string_list_of(
            json_document(outcome->Completed_0.stdout@)->0,
            key,
        )
    } else {
        out is Err && json_outcome("aws"@, outcome, Err::<Value, ProcessError>(out->Err_0))
    }
}

/// Reads the list under `key` from the answer of the command-line client.
fn list_under(key: &str, outcome: Invocation) -> (out: Result<Vec<String>, ProcessError>)
    ensures
        list_outcome(key@, outcome, out),
{
    match run_json(client(), outcome) {
        Ok(doc) => Ok(string_list(&doc, key)),
        Err(e) => Err(e),
    }
}

/// The clusters that the command-line client listed.
pub fn ecs_list_clusters(outcome: Invocation) -> (out: Result<Vec<String>, ProcessError>)
    ensures
        list_outcome("clusterArns"@, outcome, out),
{
    list_under("clusterArns", outcome)
}

/// The services that the command-line client listed.
pub fn ecs_list_services(outcome: Invocation) -> (out: Result<Vec<String>, ProcessError>)
    ensures
        list_outcome("serviceArns"@, outcome, out),
{
    list_under("serviceArns", outcome)
}

/// The tasks that the command-line client listed.
pub fn ecs_list_tasks(outcome: Invocation) -> (out: Result<Vec<String>, ProcessError>)
    ensures
        list_outcome("taskArns"@, outcome, out),
{
    list_under("taskArns", outcome)
}

/// The description of a task as the command-line client gave it.
pub fn ecs_describe_tasks(outcome: Invocation) -> (out: Result<Value, ProcessError>)
    ensures
        json_outcome("aws"@, outcome, out),
{
    run_json(client(), outcome)
}

} // verus!
