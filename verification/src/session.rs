//! The table of interactive sessions: for each session identifier the
//! process that runs under it and the sending half of its input channel.

use vstd::prelude::*;
use vstd::string::{StrSliceExecFns, StringExecFns, StringSliceAdditionalSpecFns};
use tokio::sync::mpsc::UnboundedSender;
use crate::error::{ErrorKind, ProcessError};
use crate::registry::{occupant, Registry};

verus! {

/// The sending half of an unbounded channel.
#[verifier::external_type_specification]
#[verifier::external_body]
#[verifier::reject_recursive_types(T)]
pub struct ExUnboundedSender<T>(UnboundedSender<T>);

/// Calls `UnboundedSender::send`, which never waits, and renders the error
/// that it gives once the receiving half is closed. Whether the send succeeds
/// depends on the receiver, so nothing is claimed of the result. The call
/// ends the process if the count of messages in the channel overflows, which
/// takes more messages than memory can hold.
#[verifier::external_body]
fn channel_send(writer: &UnboundedSender<Vec<u8>>, data: Vec<u8>) -> (sent: Result<(), String>) {
    match writer.send(data) {
        Ok(()) => Ok(()),
        Err(e) => Err(e.to_string()),
    }
}

/// The three kinds of event that a session publishes.
#[derive(Clone, Copy, Debug, PartialEq, Eq, Structural)]
pub enum EventKind {
    /// A chunk of the process's standard output.
    Data,
    /// A chunk of the process's standard error.
    Error,
    /// The process has ended.
    Exit,
}

/// An event for the subscribers of a topic.
#[derive(Debug)]
pub struct Event {
    pub topic: String,
    pub payload: String,
}

/// The topic on which a session publishes its events of one kind.
pub open spec fn topic_of(kind: EventKind, session_id: Seq<char>) -> Seq<char> {
    match kind {
        EventKind::Data => "term:data:"@ + session_id,
        EventKind::Error => "term:error:"@ + session_id,
        EventKind::Exit => "term:exit:"@ + session_id,
    }
}

/// The topic on which the session `session_id` publishes its events of
/// kind `kind`.
pub fn topic(kind: EventKind, session_id: &str) -> (name: String)
    ensures
        name@ == topic_of(kind, session_id@),
{
    match kind {
        EventKind::Data => String::from_str("term:data:").concat(session_id),
        EventKind::Error => String::from_str("term:error:").concat(session_id),
        EventKind::Exit => String::from_str("term:exit:").concat(session_id),
    }
}

/// The chunk that is enqueued for the text `data`: its UTF-8 encoding.
pub fn input_chunk(data: &str) -> (chunk: Vec<u8>)
    ensures
        chunk@ == data.spec_bytes(),
{
    data.as_bytes_vec()
}

/// What a send on a session's input channel amounts to for the caller.
pub fn send_outcome(sent: Result<(), String>) -> (out: Result<(), ProcessError>)
    ensures
        sent is Ok ==> out is Ok,
        sent is Err ==> out is Err && out->Err_0.is(
            ErrorKind::IoFailure,
            "Failed to send data: "@ + sent->Err_0@,
        ),
{
    match sent {
        Ok(()) => Ok(()),
        Err(detail) => Err(
            ProcessError::new(
                ErrorKind::IoFailure,
                String::from_str("Failed to send data: ").concat(detail.as_str()),
            ),
        ),
    }
}

/// How the attempt to kill a process ended.
#[derive(Debug)]
pub enum KillReport {
    /// The process was killed.
    Killed,
    /// The process had already ended.
    AlreadyExited,
    /// The kill failed, with the system's description.
    Failed(String),
}

/// What closing a session or cancelling a job amounts to for the caller,
/// given the report on the kill, or `None` where nothing was registered and
/// so nothing was killed. It fails only where a kill of a live process
/// failed: an identifier that is not registered and a process that has
/// already ended are both a success.
pub fn termination_result(report: Option<KillReport>) -> (out: Result<(), ProcessError>)
    ensures
        out is Err <==> report matches Some(KillReport::Failed(_)),
        report matches Some(KillReport::Failed(detail)) ==> out->Err_0.is(
            ErrorKind::IoFailure,
            "Failed to kill process: "@ + detail@,
        ),
{
    match report {
        Some(KillReport::Failed(detail)) => Err(
            ProcessError::new(
                ErrorKind::IoFailure,
                String::from_str("Failed to kill process: ").concat(detail.as_str()),
            ),
        ),
        _ => Ok(()),
    }
}

/// The input channel of a session, with the serial number of the session
/// that it belongs to.
pub struct SessionChannel {
    /// The number that the session was given when it was registered.
    pub serial: u64,
    /// The sending half of the session's input channel.
    pub sender: UnboundedSender<Vec<u8>>,
}

/// What registering a session gave.
pub struct Registered<P> {
    /// The serial number of the session.
    pub serial: u64,
    /// The process that was still registered under the identifier, to be
    /// killed.
    pub superseded: Option<P>,
}

/// Whether the session that `writers` holds under `id` is the one with the
/// serial number `serial`.
pub open spec fn is_current(
    writers: Map<Seq<char>, SessionChannel>,
    id: Seq<char>,
    serial: u64,
) -> bool {
    writers.contains_key(id) && writers[id].serial == serial
}

/// The channels that are left once the session `serial` under `id` is
/// retired: its own channel is gone, and the channel of a newer session
/// under the same identifier stays.
pub open spec fn retired(
    writers: Map<Seq<char>, SessionChannel>,
    id: Seq<char>,
    serial: u64,
) -> Map<Seq<char>, SessionChannel> {
    if is_current(writers, id, serial) {
        writers.remove(id)
    } else {
        writers
    }
}

/// The serial number that follows `serial`. The numbers start over after
/// the largest, which takes more sessions than a process can start.
pub open spec fn serial_after(serial: u64) -> u64 {
    if serial < u64::MAX {
        (serial + 1) as u64
    } else {
        0
    }
}

/// The interactive sessions that are registered, with `P` the handle of a
/// running process.
pub struct TerminalState<P> {
    /// The input channel of each session.
    pub writers: Registry<SessionChannel>,
    /// The process of each session, until the session is closed or its
    /// process is taken out to be waited for.
    pub processes: Registry<P>,
    /// The serial number of the next session.
    pub next_serial: u64,
}

impl<P> TerminalState<P> {
    /// A table without sessions.
    pub fn new() -> (state: Self)
        ensures
            state.writers@ == Map::<Seq<char>, SessionChannel>::empty(),
            state.processes@ == Map::<Seq<char>, P>::empty(),
            state.next_serial == 0,
    {
        TerminalState { writers: Registry::new(), processes: Registry::new(), next_serial: 0 }
    }

    /// Registers a freshly spawned process and its input channel under
    /// `session_id` and gives the session its serial number. A process that
    /// was still registered under the identifier is handed back: it is
    /// superseded, and the caller kills it.
    pub fn register(
        &mut self,
        session_id: &str,
        process: P,
        writer: UnboundedSender<Vec<u8>>,
    ) -> (registered: Registered<P>)
        ensures
            final(self).writers@ == old(self).writers@.insert(
                session_id@,
                SessionChannel { serial: old(self).next_serial, sender: writer },
            ),
            final(self).processes@ == old(self).processes@.insert(session_id@, process),
            final(self).next_serial == serial_after(old(self).next_serial),
            registered.serial == old(self).next_serial,
            registered.superseded == occupant(old(self).processes@, session_id@),
    {
        let serial: u64 = self.next_serial;
        self.next_serial = if serial < u64::MAX {
            serial + 1
        } else {
            0
        };
        let _ = self.writers.insert(
            String::from_str(session_id),
            SessionChannel { serial, sender: writer },
        );
        let superseded = self.processes.insert(String::from_str(session_id), process);
        Registered { serial, superseded }
    }

    /// The input channel of `session_id`, if the session is registered.
    pub fn get_input_channel(&self, session_id: &str) -> (found: Option<&UnboundedSender<Vec<u8>>>)
        ensures
            found is Some <==> self.writers@.contains_key(session_id@),
            found is Some ==> *found->0 == self.writers@[session_id@].sender,
    {
        match self.writers.get(session_id) {
            Some(channel) => Some(&channel.sender),
            None => None,
        }
    }

    /// Whether the session registered under `session_id` is the one with
    /// the serial number `serial`.
    pub fn holds(&self, session_id: &str, serial: u64) -> (current: bool)
        ensures
            current == is_current(self.writers@, session_id@, serial),
    {
        match self.writers.get(session_id) {
            Some(channel) => channel.serial == serial,
            None => false,
        }
    }

    /// Takes the process of the session `serial` out of the table so that
    /// its exit can be waited for. The process of a newer session under the
    /// same identifier is left where it is. The input channel stays
    /// registered until the session is retired or closed.
    pub fn reap(&mut self, session_id: &str, serial: u64) -> (taken: Option<P>)
        ensures
            final(self).writers@ == old(self).writers@,
            final(self).next_serial == old(self).next_serial,
            final(self).processes@ == if is_current(old(self).writers@, session_id@, serial) {
                old(self).processes@.remove(session_id@)
            } else {
                old(self).processes@
            },
            taken == if is_current(old(self).writers@, session_id@, serial) {
                occupant(old(self).processes@, session_id@)
            } else {
                None
            },
    {
        if self.holds(session_id, serial) {
            self.processes.remove(session_id)
        } else {
            None
        }
    }

    /// Retires the session `serial` once its process has ended: its input
    /// channel leaves the table, so that no entry outlives the process. The
    /// channel of a newer session under the same identifier stays.
    pub fn retire(&mut self, session_id: &str, serial: u64)
        ensures
            final(self).writers@ == retired(old(self).writers@, session_id@, serial),
            final(self).processes@ == old(self).processes@,
            final(self).next_serial == old(self).next_serial,
    {
        if self.holds(session_id, serial) {
            let _ = self.writers.remove(session_id);
        }
    }

    /// Enqueues `data` on the input channel of `session_id`. Fails with
    /// `SessionNotFound` exactly where no channel is registered under the
    /// identifier; where one is, the only failure is that of the send.
    pub fn write_exec_stdin(&self, session_id: &str, data: String) -> (out: Result<
        (),
        ProcessError,
    >)
        ensures
            !self.writers@.contains_key(session_id@) ==> out is Err && out->Err_0.is(
                ErrorKind::SessionNotFound,
                "Session not found"@,
            ),
            self.writers@.contains_key(session_id@) && out is Err ==> out->Err_0.kind
                == ErrorKind::IoFailure && crate::text::has_prefix(
                out->Err_0.message@,
                "Failed to send data: "@,
            ),
    {
        match self.get_input_channel(session_id) {
            Some(writer) => {
                let out = send_outcome(channel_send(writer, input_chunk(data.as_str())));
                proof {
                    if out is Err {
                        let head = "Failed to send data: "@;
                        assert(out->Err_0.message@.subrange(0, head.len() as int) =~= head);
                    }
                }
                out
            },
            None => Err(
                ProcessError::new(ErrorKind::SessionNotFound, String::from_str("Session not found")),
            ),
        }
    }

    /// Retires the session `session_id`: its input channel and its process
    /// leave the table in one step, and the process, if one was still
    /// registered, is handed to the caller to be killed. Where nothing is
    /// registered under the identifier, nothing changes and nothing is
    /// handed out.
    pub fn close_exec_session(&mut self, session_id: &str) -> (to_kill: Option<P>)
        ensures
            final(self).writers@ == old(self).writers@.remove(session_id@),
            final(self).processes@ == old(self).processes@.remove(session_id@),
            final(self).next_serial == old(self).next_serial,
            to_kill == occupant(old(self).processes@, session_id@),
            !final(self).writers@.contains_key(session_id@),
            !final(self).processes@.contains_key(session_id@),
            !old(self).writers@.contains_key(session_id@) ==> final(self).writers@ == old(self).writers@,
            !old(self).processes@.contains_key(session_id@) ==> final(self).processes@ == old(self).processes@
                && to_kill is None,
    {
        let ghost key = session_id@;
        assert(!old(self).writers@.contains_key(key) ==> old(self).writers@.remove(key)
            =~= old(self).writers@);
        assert(!old(self).processes@.contains_key(key) ==> old(self).processes@.remove(key)
            =~= old(self).processes@);
        let _ = self.writers.remove(session_id);
        self.processes.remove(session_id)
    }
}

/// A reaper that retires its session leaves a newer session under the same
/// identifier as it is, and a session that was retired or closed accepts no
/// more input: nothing is registered under its identifier.
pub proof fn retiring_spares_newer_session(
    writers: Map<Seq<char>, SessionChannel>,
    id: Seq<char>,
    serial: u64,
)
    ensures
        writers.contains_key(id) && writers[id].serial != serial ==> retired(writers, id, serial)
            == writers,
        is_current(writers, id, serial) ==> !retired(writers, id, serial).contains_key(id),
        !retired(writers, id, serial).contains_key(id) || retired(writers, id, serial)[id].serial
            != serial,
        !writers.remove(id).contains_key(id),
{
}

} // verus!
