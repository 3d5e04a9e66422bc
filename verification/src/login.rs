//! The cancellable login job: a process that one caller starts and waits
//! for while another may cancel it. The job is registered so that it can be
//! found and killed, and is taken out again by whoever waits for it; between
//! the two a cancel can intercept it.

use vstd::prelude::*;
use vstd::string::StringExecFns;
use crate::error::{ErrorKind, ProcessError};
use crate::invoke::{check_aws_cli, cli_verdict, CommandLine, Invocation, LaunchError};
use crate::registry::{occupant, Registry};
use crate::text::{decimal, render_decimal, texts};

verus! {

/// How a process that was waited for ended.
#[derive(Clone, Copy, Debug, PartialEq, Eq, Structural)]
pub struct ExitReport {
    /// Whether the exit status reports success.
    pub success: bool,
    /// The exit code, where the process ended with one.
    pub code: Option<i32>,
}

/// The identifier under which the login for `profile` is registered.
pub open spec fn login_id_of(profile: Seq<char>) -> Seq<char> {
    "sso-"@ + profile
}

/// The identifier under which the login for `profile` is registered.
pub fn login_id(profile: &str) -> (id: String)
    ensures
        id@ == login_id_of(profile@),
{
    String::from_str("sso-").concat(profile)
}

/// The arguments with which the command-line client is run to log in under
/// `profile`.
pub open spec fn login_args_of(profile: Seq<char>) -> Seq<Seq<char>> {
    seq!["sso"@, "login"@, "--profile"@, profile]
}

/// The arguments with which the command-line client is run to log in under
/// `profile`.
pub fn login_args(profile: &str) -> (args: Vec<String>)
    ensures
        texts(args@) == login_args_of(profile@),
{
    let mut args: Vec<String> = Vec::new();
    args.push(String::from_str("sso"));
    args.push(String::from_str("login"));
    args.push(String::from_str("--profile"));
    args.push(String::from_str(profile));
    assert(texts(args@) =~= login_args_of(profile@));
    args
}

/// The process that logs in under `profile`: the command-line client with
/// the arguments of `login_args`, run with the caller's own search path.
pub fn login_command(profile: &str) -> (command: CommandLine)
    ensures
        command@ == ("aws"@, login_args_of(profile@), None::<Seq<char>>),
{
    CommandLine { program: String::from_str("aws"), args: login_args(profile), search_path: None }
}

/// The exit code shown for a failed login: the code itself, or -1 where the
/// process ended without one.
pub open spec fn shown_code(report: ExitReport) -> int {
    match report.code {
        Some(code) => code as int,
        None => -1,
    }
}

/// Whether `out` is what a login amounts to whose process was waited for
/// with the result `waited`.
pub open spec fn login_outcome(waited: Result<ExitReport, String>, out: Result<
    String,
    ProcessError,
>) -> bool {
    match waited {
        Ok(report) => if report.success {
            out is Ok && out->Ok_0@ == "SSO login successful"@
        } else {
            out is Err && out->Err_0.is(
                ErrorKind::CommandFailed,
                "SSO login failed (exit code: "@ + decimal(shown_code(report))
                    + "). Please check your profile configuration in ~/.aws/config and try again."@,
            )
        },
        Err(detail) => out is Err && out->Err_0.is(
            ErrorKind::IoFailure,
            "SSO login process error: "@ + detail@
                + ". Please ensure AWS CLI is properly installed."@,
        ),
    }
}

/// What a login amounts to, given how waiting for its process ended.
pub fn login_result(waited: Result<ExitReport, String>) -> (out: Result<String, ProcessError>)
    ensures
        login_outcome(waited, out),
{
    match waited {
        Ok(report) => {
            if report.success {
                Ok(String::from_str("SSO login successful"))
            } else {
                let code: i32 = match report.code {
                    Some(code) => code,
                    None => -1,
                };
                Err(
                    ProcessError::new(
                        ErrorKind::CommandFailed,
                        String::from_str("SSO login failed (exit code: ").concat(
                            render_decimal(code).as_str(),
                        ).concat(
                            "). Please check your profile configuration in ~/.aws/config and try again.",
                        ),
                    ),
                )
            }
        },
        Err(detail) => Err(
            ProcessError::new(
                ErrorKind::IoFailure,
                String::from_str("SSO login process error: ").concat(detail.as_str()).concat(
                    ". Please ensure AWS CLI is properly installed.",
                ),
            ),
        ),
    }
}

/// The failure reported when the login process could not be started.
pub fn login_launch_failure(error: &LaunchError) -> (e: ProcessError)
    ensures
        error.not_found ==> e.is(
            ErrorKind::ToolNotFound,
            "AWS CLI is not installed or not found in PATH. Please install AWS CLI v2 from https://aws.amazon.com/cli/"@,
        ),
        !error.not_found ==> e.is(
            ErrorKind::SpawnFailed,
            "Failed to execute SSO login: "@ + error.detail@,
        ),
{
    if error.not_found {
        ProcessError::new(
            ErrorKind::ToolNotFound,
            String::from_str(
                "AWS CLI is not installed or not found in PATH. Please install AWS CLI v2 from https://aws.amazon.com/cli/",
            ),
        )
    } else {
        ProcessError::new(
            ErrorKind::SpawnFailed,
            String::from_str("Failed to execute SSO login: ").concat(error.detail.as_str()),
        )
    }
}

/// The login jobs that are registered, with `P` the handle of a running
/// process.
pub struct SsoLoginState<P> {
    pub processes: Registry<P>,
}

impl<P> SsoLoginState<P> {
    /// A table without jobs.
    pub fn new() -> (state: Self)
        ensures
            state.processes@ == Map::<Seq<char>, P>::empty(),
    {
        SsoLoginState { processes: Registry::new() }
    }

    /// Cancels the login for `profile`: its process leaves the table and is
    /// handed to the caller to be killed. Where no login is registered for
    /// the profile, nothing changes and nothing is handed out.
    pub fn cancel_sso_login(&mut self, profile: &str) -> (to_kill: Option<P>)
        ensures
            final(self).processes@ == old(self).processes@.remove(login_id_of(profile@)),
            to_kill == occupant(old(self).processes@, login_id_of(profile@)),
            !old(self).processes@.contains_key(login_id_of(profile@)) ==> final(self).processes@
                == old(self).processes@ && to_kill is None,
    {
        let ghost key = login_id_of(profile@);
        assert(!old(self).processes@.contains_key(key) ==> old(self).processes@.remove(key)
            =~= old(self).processes@);
        let id = login_id(profile);
        self.processes.remove(id.as_str())
    }
}

/// How far a login has come.
#[derive(Clone, Copy, Debug, PartialEq, Eq, Structural)]
pub enum LoginPhase {
    /// Nothing has been done yet.
    Idle,
    /// An earlier login for the same profile is being killed.
    Evicting,
    /// The command-line client is being probed.
    Probing,
    /// The login process is being spawned.
    Spawning,
    /// A login that was registered while this one was being spawned is
    /// being killed.
    Superseding,
    /// The process is registered and has yet to be taken back to be waited
    /// for: a cancel can still intercept it.
    Registered,
    /// The process is being waited for.
    Waiting,
    /// The login has ended, with its result reported.
    Done,
}

/// What has just happened to a login.
pub enum LoginEvent<P> {
    /// The login was asked for.
    Begin,
    /// The kill of the process that was handed out has been attempted.
    Killed,
    /// Probing the command-line client for its version ended.
    Probed(Invocation),
    /// The login process was spawned.
    Spawned(P),
    /// Spawning the login process failed.
    SpawnFailed(LaunchError),
    /// The caller is back to take the process and wait for it.
    Reacquire,
    /// Waiting for the process ended.
    Waited(Result<ExitReport, String>),
}

/// What is to be done next for a login.
pub enum LoginAction<P> {
    /// Kill this process, whatever comes of it, and report `Killed`.
    Kill(P),
    /// Probe the command-line client for its version and report `Probed`.
    Probe,
    /// Spawn this process and report `Spawned` or `SpawnFailed`.
    Spawn(CommandLine),
    /// Let go of the table and come back with `Reacquire`.
    Reacquire,
    /// Wait for this process to end and report `Waited`.
    Wait(P),
    /// The login is over, with this result.
    Finish(Result<String, ProcessError>),
    /// The event does not fit the phase: the login is over, with nothing to
    /// do.
    Reject,
}

/// A login in progress: the profile it is for and how far it has come.
pub struct LoginFlow {
    pub profile: String,
    pub phase: LoginPhase,
}

impl LoginFlow {
    /// The login for `profile`, with nothing done yet.
    pub fn new(profile: &str) -> (flow: LoginFlow)
        ensures
            flow.profile@ == profile@,
            flow.phase == LoginPhase::Idle,
    {
        LoginFlow { profile: String::from_str(profile), phase: LoginPhase::Idle }
    }
}

/// The phase that follows `phase` on `event`, where `occupied` says whether
/// a process is registered for the profile.
pub open spec fn login_next_phase<P>(phase: LoginPhase, event: LoginEvent<P>, occupied: bool) -> LoginPhase {
    match (phase, event) {
        (LoginPhase::Idle, LoginEvent::Begin) => if occupied {
            LoginPhase::Evicting
        } else {
            LoginPhase::Probing
        },
        (LoginPhase::Evicting, LoginEvent::Killed) => LoginPhase::Probing,
        (LoginPhase::Probing, LoginEvent::Probed(probe)) => if probe is Completed
            && probe->Completed_0.success {
            LoginPhase::Spawning
        } else {
            LoginPhase::Done
        },
        (LoginPhase::Spawning, LoginEvent::Spawned(_)) => if occupied {
            LoginPhase::Superseding
        } else {
            LoginPhase::Registered
        },
        (LoginPhase::Superseding, LoginEvent::Killed) => LoginPhase::Registered,
        (LoginPhase::Registered, LoginEvent::Reacquire) => if occupied {
            LoginPhase::Waiting
        } else {
            LoginPhase::Done
        },
        _ => LoginPhase::Done,
    }
}

/// Whether a step from `phase` on `event` that found the table `processes`
/// may leave it as `after` and give `action`.
///
/// On `Begin` an earlier login for the profile leaves the table and is
/// handed out to be killed; only then is the client probed and the new
/// process spawned and registered. On `Reacquire` the process is taken out
/// to be waited for; where a cancel has taken it in the meantime, the login
/// ends as not found and nothing is ever waited for.
pub open spec fn login_effect<P>(
    profile: Seq<char>,
    phase: LoginPhase,
    event: LoginEvent<P>,
    processes: Map<Seq<char>, P>,
    after: Map<Seq<char>, P>,
    action: LoginAction<P>,
) -> bool {
    let id = login_id_of(profile);
    match (phase, event) {
        (LoginPhase::Idle, LoginEvent::Begin) => {
            &&& after == processes.remove(id)
            &&& action == if processes.contains_key(id) {
                LoginAction::Kill(processes[id])
            } else {
                LoginAction::Probe
            }
        },
        (LoginPhase::Evicting, LoginEvent::Killed) => {
            &&& after == processes
            &&& action == LoginAction::<P>::Probe
        },
        (LoginPhase::Probing, LoginEvent::Probed(probe)) => {
            &&& after == processes
            &&& if probe is Completed && probe->Completed_0.success {
                action matches LoginAction::Spawn(c) && c@ == (
                    "aws"@,
                    login_args_of(profile),
                    None::<Seq<char>>,
                )
            } else {
                action matches LoginAction::Finish(Err(e)) && cli_verdict(
                    probe,
                    Err::<(), ProcessError>(e),
                )
            }
        },
        (LoginPhase::Spawning, LoginEvent::Spawned(process)) => {
            &&& after == processes.insert(id, process)
            &&& action == if processes.contains_key(id) {
                LoginAction::Kill(processes[id])
            } else {
                LoginAction::Reacquire
            }
        },
        (LoginPhase::Spawning, LoginEvent::SpawnFailed(error)) => {
            &&& after == processes
            &&& action matches LoginAction::Finish(Err(e))
            &&& error.not_found ==> e.is(
                ErrorKind::ToolNotFound,
                "AWS CLI is not installed or not found in PATH. Please install AWS CLI v2 from https://aws.amazon.com/cli/"@,
            )
            &&& !error.not_found ==> e.is(
                ErrorKind::SpawnFailed,
                "Failed to execute SSO login: "@ + error.detail@,
            )
        },
        (LoginPhase::Superseding, LoginEvent::Killed) => {
            &&& after == processes
            &&& action == LoginAction::<P>::Reacquire
        },
        (LoginPhase::Registered, LoginEvent::Reacquire) => {
            &&& after == processes.remove(id)
            &&& if processes.contains_key(id) {
                action == LoginAction::Wait(processes[id])
            } else {
                action matches LoginAction::Finish(Err(e)) && e.is(
                    ErrorKind::SessionNotFound,
                    "Process not found in state"@,
                )
            }
        },
        (LoginPhase::Waiting, LoginEvent::Waited(waited)) => {
            &&& after == processes
            &&& action matches LoginAction::Finish(out) && login_outcome(waited, out)
        },
        (_, LoginEvent::Spawned(process)) => {
            &&& after == processes
            &&& action == LoginAction::Kill(process)
        },
        _ => {
            &&& after == processes
            &&& action == LoginAction::<P>::Reject
        },
    }
}

/// Takes one step of the login of `flow`: given what has just happened,
/// updates the table and the phase and says what to do next.
pub fn sso_login<P>(state: &mut SsoLoginState<P>, flow: &mut LoginFlow, event: LoginEvent<P>) -> (action:
    LoginAction<P>)
    ensures
        final(flow).profile == old(flow).profile,
        final(flow).phase == login_next_phase(
            old(flow).phase,
            event,
            old(state).processes@.contains_key(login_id_of(old(flow).profile@)),
        ),
        login_effect(
            old(flow).profile@,
            old(flow).phase,
            event,
            old(state).processes@,
            final(state).processes@,
            action,
        ),
{
    let phase = flow.phase;
    let id = login_id(flow.profile.as_str());
    match event {
        LoginEvent::Begin => {
            if phase == LoginPhase::Idle {
                match state.processes.remove(id.as_str()) {
                    Some(prior) => {
                        flow.phase = LoginPhase::Evicting;
                        LoginAction::Kill(prior)
                    },
                    None => {
                        flow.phase = LoginPhase::Probing;
                        LoginAction::Probe
                    },
                }
            } else {
                flow.phase = LoginPhase::Done;
                LoginAction::Reject
            }
        },
        LoginEvent::Killed => {
            if phase == LoginPhase::Evicting {
                flow.phase = LoginPhase::Probing;
                LoginAction::Probe
            } else if phase == LoginPhase::Superseding {
                flow.phase = LoginPhase::Registered;
                LoginAction::Reacquire
            } else {
                flow.phase = LoginPhase::Done;
                LoginAction::Reject
            }
        },
        LoginEvent::Probed(probe) => {
            if phase == LoginPhase::Probing {
                match check_aws_cli(probe) {
                    Ok(()) => {
                        flow.phase = LoginPhase::Spawning;
                        LoginAction::Spawn(login_command(flow.profile.as_str()))
                    },
                    Err(e) => {
                        flow.phase = LoginPhase::Done;
                        LoginAction::Finish(Err(e))
                    },
                }
            } else {
                flow.phase = LoginPhase::Done;
                LoginAction::Reject
            }
        },
        LoginEvent::Spawned(process) => {
            if phase == LoginPhase::Spawning {
                match state.processes.insert(id, process) {
                    Some(raced) => {
                        flow.phase = LoginPhase::Superseding;
                        LoginAction::Kill(raced)
                    },
                    None => {
                        flow.phase = LoginPhase::Registered;
                        LoginAction::Reacquire
                    },
                }
            } else {
                flow.phase = LoginPhase::Done;
                LoginAction::Kill(process)
            }
        },
        LoginEvent::SpawnFailed(error) => {
            flow.phase = LoginPhase::Done;
            if phase == LoginPhase::Spawning {
                LoginAction::Finish(Err(login_launch_failure(&error)))
            } else {
                LoginAction::Reject
            }
        },
        LoginEvent::Reacquire => {
            if phase == LoginPhase::Registered {
                match state.processes.remove(id.as_str()) {
                    Some(process) => {
                        flow.phase = LoginPhase::Waiting;
                        LoginAction::Wait(process)
                    },
                    None => {
                        flow.phase = LoginPhase::Done;
                        LoginAction::Finish(
                            Err(
                                ProcessError::new(
                                    ErrorKind::SessionNotFound,
                                    String::from_str("Process not found in state"),
                                ),
                            ),
                        )
                    },
                }
            } else {
                flow.phase = LoginPhase::Done;
                LoginAction::Reject
            }
        },
        LoginEvent::Waited(waited) => {
            flow.phase = LoginPhase::Done;
            if phase == LoginPhase::Waiting {
                LoginAction::Finish(login_result(waited))
            } else {
                LoginAction::Reject
            }
        },
    }
}

/// A cancel that arrives after a login was registered and before its caller
/// is back takes the process, and the caller then finds nothing: the login
/// ends without ever waiting for the process.
pub proof fn cancel_preempts_wait<P>(processes: Map<Seq<char>, P>, profile: Seq<char>, process: P)
    ensures
        ({
            let id = login_id_of(profile);
            let registered = processes.insert(id, process);
            let cancelled = registered.remove(id);
            &&& occupant(registered, id) == Some(process)
            &&& !cancelled.contains_key(id)
            &&& login_next_phase::<P>(
                LoginPhase::Registered,
                LoginEvent::Reacquire,
                cancelled.contains_key(id),
            ) == LoginPhase::Done
        }),
{
}

/// The phase that a login reaches from `Idle` by the steps on `events`,
/// where `occupied[i]` says whether a process was registered for the profile
/// when step `i` was taken.
pub open spec fn login_phase_after<P>(events: Seq<LoginEvent<P>>, occupied: Seq<bool>) -> LoginPhase
    decreases events.len(),
{
    if events.len() == 0 {
        LoginPhase::Idle
    } else {
        login_next_phase(
            login_phase_after(events.drop_last(), occupied.drop_last()),
            events.last(),
            occupied.last(),
        )
    }
}

/// A login that has handed out an earlier login of its profile to be killed
/// goes no further until the kill is reported: while no `Killed` arrives it
/// stays where it is or ends, and neither probes nor spawns.
pub proof fn eviction_waits_for_kill<P>(
    events: Seq<LoginEvent<P>>,
    occupied: Seq<bool>,
    from: int,
    to: int,
)
    requires
        events.len() == occupied.len(),
        0 <= from <= to <= events.len(),
        login_phase_after(events.take(from), occupied.take(from)) == LoginPhase::Evicting,
        forall|k: int| from <= k < to ==> !(events[k] is Killed),
    ensures
        login_phase_after(events.take(to), occupied.take(to)) == LoginPhase::Evicting
            || login_phase_after(events.take(to), occupied.take(to)) == LoginPhase::Done,
    decreases to - from,
{
    if to > from {
        eviction_waits_for_kill(events, occupied, from, to - 1);
        assert(events.take(to).drop_last() =~= events.take(to - 1));
        assert(occupied.take(to).drop_last() =~= occupied.take(to - 1));
        assert(events.take(to).last() == events[to - 1]);
    }
}

} // verus!
