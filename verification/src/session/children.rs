//! Waiting for the runtime and for the container.
use vstd::prelude::*;

use crate::error::{fail, failure, plain_view, ConmonResult, ErrorView};
use crate::os::{ErrorKind, OsFailure};
use crate::session::RuntimeSession;
use crate::text::join2;

verus! {

/// State changes of a child process that a wait reports.
#[derive(Debug, Copy, Clone, PartialEq, Eq, Structural)]
pub enum WaitStatus {
    /// The process with this pid exited with this code.
    Exited(i32, i32),
    /// The process with this pid was killed by this signal, with or without a core dump.
    Signaled(i32, u8, bool),
    /// The process with this pid was stopped.
    Stopped(i32),
    /// The process with this pid was stopped by a `ptrace` event.
    PtraceEvent(i32),
    /// The process with this pid was stopped at a system call.
    PtraceSyscall(i32),
    /// The process with this pid goes on.
    Continued(i32),
    /// No process has changed its state.
    StillAlive,
}

/// What is known of a process that is not waited for.
#[derive(Debug, Copy, Clone, PartialEq, Eq, Structural)]
pub enum ProcessStatus {
    Running,
    Exited,
    /// It could not be found out.
    Unknown,
}

/// Result of a single non-blocking child-process poll during the event loop.
#[derive(Debug, Copy, Clone, PartialEq, Eq, Structural)]
pub enum PollChildrenResult {
    /// Keep polling sockets and reaping children.
    KeepRunning,
    /// Stop the event loop (container or runtime finished).
    StopEventLoop,
    /// Reaped an unrelated child; call again so pending zombies are drained.
    ReapedOther,
}

/// What happened while children were polled.
#[derive(Debug)]
pub enum PollEvent {
    Start,
    /// A wait for any child came back without blocking.
    Waited(WaitStatus),
    WaitFailed(OsFailure),
    /// A process was looked up.
    Probed(ProcessStatus),
}

/// What is needed next to poll children.
#[derive(Debug, Copy, Clone, PartialEq, Eq, Structural)]
pub enum PollStep {
    /// Wait for any child, without blocking.
    Wait,
    /// Look up the process with this pid.
    Probe(i32),
    /// The poll is over.
    Done(PollChildrenResult),
}

/// What is needed next to reap children.
#[derive(Debug, Copy, Clone, PartialEq, Eq, Structural)]
pub enum ReapStep {
    /// Wait for any child, without blocking.
    Wait,
    /// Look up the process with this pid.
    Probe(i32),
    /// There is nothing more to reap.
    Done,
}

/// What happened while the exit of the container was being settled.
#[derive(Debug)]
pub enum FinalizeEvent {
    Start,
    /// What came of the last step of reaping.
    Reap(PollEvent),
    /// The container was looked up after all children were reaped.
    Probed(ProcessStatus),
}

/// What is needed next to settle the exit of the container.
#[derive(Debug, Copy, Clone, PartialEq, Eq, Structural)]
pub enum FinalizeStep {
    /// Take this step of reaping.
    Reap(ReapStep),
    /// Look up the process with this pid.
    Probe(i32),
    /// As much is known of the exit as can be.
    Done,
}

/// The exit status of a process that a wait reports as gone: the code it exited with,
/// or 128 and the number of the signal that killed it.
pub open spec fn exit_status(status: WaitStatus) -> Option<i32> {
    match status {
        WaitStatus::Exited(_, code) => Some(code),
        WaitStatus::Signaled(_, signal, _) => Some((128 + signal) as i32),
        _ => None,
    }
}

/// The pid of a process that a wait reports as gone.
pub open spec fn gone_pid(status: WaitStatus) -> Option<i32> {
    match status {
        WaitStatus::Exited(pid, _) => Some(pid),
        WaitStatus::Signaled(pid, _, _) => Some(pid),
        _ => None,
    }
}

/// The exit status and the pid of a process that a wait reports as gone.
fn gone(status: WaitStatus) -> (process: Option<(i32, i32)>)
    ensures
        process is Some <==> gone_pid(status) is Some,
        process matches Some((pid, code)) ==> gone_pid(status) == Some(pid) && exit_status(status)
            == Some(code),
{
    match status {
        WaitStatus::Exited(pid, code) => Some((pid, code)),
        WaitStatus::Signaled(pid, signal, _) => Some((pid, 128 + signal as i32)),
        _ => None,
    }
}

impl RuntimeSession {
    /// The session once the container is known to have exited with `code`.
    pub open spec fn container_exited(self, code: i32) -> RuntimeSession {
        RuntimeSession { container_status: Some(code), container_pid: None, ..self }
    }

    /// The session once the container is gone: a status that was never recorded is 0.
    pub open spec fn container_gone(self) -> RuntimeSession {
        RuntimeSession {
            container_status: match self.container_status {
                Some(code) => Some(code),
                None => Some(0),
            },
            container_pid: None,
            ..self
        }
    }

    /// Records a terminal `Exited` / `Signaled` wait status for the container.
    pub fn handle_container_wait_status(&mut self, status: WaitStatus)
        requires
            exit_status(status) is Some,
        ensures
            *final(self) == old(self).container_exited(exit_status(status)->0),
    {
        if let Some((_, code)) = gone(status) {
            self.container_status = Some(code);
            self.container_pid = None;
        }
    }

    /// When the process is gone but its exit status is unknown, assume success only
    /// if we never recorded a status.
    pub fn assume_container_exited_without_status(&mut self)
        ensures
            *final(self) == old(self).container_gone(),
    {
        if self.container_status.is_none() {
            self.container_status = Some(0);
        }
        self.container_pid = None;
    }

    /// What is needed to poll children after `event`.
    pub open spec fn poll_outcome(self, event: PollEvent) -> Result<PollStep, ErrorView> {
        match event {
            PollEvent::Start => Ok(PollStep::Wait),
            PollEvent::Waited(status) => match gone_pid(status) {
                Some(pid) => if self.container_pid == Some(pid) || pid == self.process_pid {
                    Ok(PollStep::Done(PollChildrenResult::StopEventLoop))
                } else {
                    Ok(PollStep::Done(PollChildrenResult::ReapedOther))
                },
                None => Ok(PollStep::Done(PollChildrenResult::KeepRunning)),
            },
            PollEvent::WaitFailed(failed) => match failed.kind {
                ErrorKind::Interrupted => Ok(PollStep::Done(PollChildrenResult::KeepRunning)),
                ErrorKind::NoChild => match self.container_pid {
                    Some(pid) => Ok(PollStep::Probe(pid)),
                    None => if self.container_status is Some || !self.container_started {
                        Ok(PollStep::Done(PollChildrenResult::StopEventLoop))
                    } else {
                        Ok(PollStep::Done(PollChildrenResult::KeepRunning))
                    },
                },
                _ => Err(failure("Failed to read child process status: "@ + failed.reason@)),
            },
            PollEvent::Probed(status) => if status == ProcessStatus::Exited {
                Ok(PollStep::Done(PollChildrenResult::StopEventLoop))
            } else {
                Ok(PollStep::Done(PollChildrenResult::KeepRunning))
            },
        }
    }

    /// The session after `event` while children were polled.
    pub open spec fn after_poll(self, event: PollEvent) -> RuntimeSession {
        match event {
            PollEvent::Waited(status) => match gone_pid(status) {
                Some(pid) => if self.container_pid == Some(pid) {
                    self.container_exited(exit_status(status)->0)
                } else if pid == self.process_pid {
                    RuntimeSession { exit_code: exit_status(status), ..self }
                } else {
                    self
                },
                None => self,
            },
            PollEvent::Probed(ProcessStatus::Exited) => self.container_gone(),
            _ => self,
        }
    }

    /// Non-blocking wait for any child.
    ///
    /// When there is no child to wait for, a container that is still expected is looked
    /// up by its pid.
    pub fn poll_children_once(&mut self, event: PollEvent) -> (step: ConmonResult<PollStep>)
        ensures
            plain_view(step) == old(self).poll_outcome(event),
            *final(self) == old(self).after_poll(event),
    {
        match event {
            PollEvent::Start => Ok(PollStep::Wait),
            PollEvent::Waited(status) => {
                if let Some((pid, code)) = gone(status) {
                    if self.container_pid == Some(pid) {
                        self.handle_container_wait_status(status);
                        Ok(PollStep::Done(PollChildrenResult::StopEventLoop))
                    } else if pid == self.process_pid {
                        self.exit_code = Some(code);
                        Ok(PollStep::Done(PollChildrenResult::StopEventLoop))
                    } else {
                        // Keep draining so reap_pending_children() can clear remaining zombies.
                        Ok(PollStep::Done(PollChildrenResult::ReapedOther))
                    }
                } else {
                    Ok(PollStep::Done(PollChildrenResult::KeepRunning))
                }
            },
            PollEvent::WaitFailed(failed) => match failed.kind {
                ErrorKind::Interrupted => Ok(PollStep::Done(PollChildrenResult::KeepRunning)),
                ErrorKind::NoChild => {
                    if let Some(pid) = self.container_pid {
                        // There are no waitable children, so a targeted wait cannot reveal
                        // a status. Probe instead.
                        return Ok(PollStep::Probe(pid));
                    }
                    // Container already reaped (status known, pid cleared) or never started.
                    // Do not keep the event loop alive forever.
                    if self.container_status.is_some() || !self.container_started {
                        Ok(PollStep::Done(PollChildrenResult::StopEventLoop))
                    } else {
                        Ok(PollStep::Done(PollChildrenResult::KeepRunning))
                    }
                },
                _ => Err(
                    fail(join2("Failed to read child process status: ", failed.reason.as_str())),
                ),
            },
            PollEvent::Probed(status) => match status {
                ProcessStatus::Exited => {
                    self.assume_container_exited_without_status();
                    Ok(PollStep::Done(PollChildrenResult::StopEventLoop))
                },
                // Permission/IO/parse failure - do not invent an exit code.
                ProcessStatus::Running | ProcessStatus::Unknown => Ok(
                    PollStep::Done(PollChildrenResult::KeepRunning),
                ),
            },
        }
    }

    /// What is needed to reap children after `event`: polls follow each other until one
    /// reaps no unrelated child or the status of the container is known.
    pub open spec fn reap_outcome(self, event: PollEvent) -> Result<ReapStep, ErrorView> {
        match (event, self.poll_outcome(event)) {
            (PollEvent::Start, _) => if self.container_status is Some {
                Ok(ReapStep::Done)
            } else {
                Ok(ReapStep::Wait)
            },
            (_, Ok(PollStep::Wait)) => Ok(ReapStep::Wait),
            (_, Ok(PollStep::Probe(pid))) => Ok(ReapStep::Probe(pid)),
            (_, Ok(PollStep::Done(result))) => if result == PollChildrenResult::ReapedOther
                && self.container_status is None {
                Ok(ReapStep::Wait)
            } else {
                Ok(ReapStep::Done)
            },
            (_, Err(e)) => Err(e),
        }
    }

    /// Reap any children that already exited before / during the event loop.
    ///
    /// Exec processes can finish immediately after the PID is written to the sync pipe.
    /// Unrelated zombies are drained via [`PollChildrenResult::ReapedOther`].
    pub fn reap_pending_children(&mut self, event: PollEvent) -> (step: ConmonResult<ReapStep>)
        ensures
            plain_view(step) == old(self).reap_outcome(event),
            *final(self) == old(self).after_poll(event),
    {
        if let PollEvent::Start = event {
            if self.container_status.is_some() {
                return Ok(ReapStep::Done);
            }
            return Ok(ReapStep::Wait);
        }
        match self.poll_children_once(event) {
            Ok(PollStep::Wait) => Ok(ReapStep::Wait),
            Ok(PollStep::Probe(pid)) => Ok(ReapStep::Probe(pid)),
            Ok(PollStep::Done(PollChildrenResult::ReapedOther)) => {
                if self.container_status.is_some() {
                    Ok(ReapStep::Done)
                } else {
                    Ok(ReapStep::Wait)
                }
            },
            Ok(PollStep::Done(_)) => Ok(ReapStep::Done),
            Err(e) => Err(e),
        }
    }

    /// What is needed to settle the exit of the container once all children are reaped.
    pub open spec fn finalize_after_reap(self) -> FinalizeStep {
        match (self.container_status, self.container_pid) {
            (None, Some(pid)) => FinalizeStep::Probe(pid),
            _ => FinalizeStep::Done,
        }
    }

    /// What is needed to settle the exit of the container after `event`.
    pub open spec fn finalize_outcome(self, event: FinalizeEvent) -> Result<
        FinalizeStep,
        ErrorView,
    > {
        match event {
            FinalizeEvent::Start => if self.container_status is Some {
                Ok(FinalizeStep::Done)
            } else {
                Ok(FinalizeStep::Reap(ReapStep::Wait))
            },
            FinalizeEvent::Reap(inner) => match self.reap_outcome(inner) {
                Ok(ReapStep::Done) => Ok(self.after_poll(inner).finalize_after_reap()),
                Ok(step) => Ok(FinalizeStep::Reap(step)),
                Err(e) => Err(e),
            },
            FinalizeEvent::Probed(_) => Ok(FinalizeStep::Done),
        }
    }

    /// The session after `event` while the exit of the container was being settled.
    pub open spec fn after_finalize(self, event: FinalizeEvent) -> RuntimeSession {
        match event {
            FinalizeEvent::Start => self,
            FinalizeEvent::Reap(inner) => self.after_poll(inner),
            FinalizeEvent::Probed(status) => if status == ProcessStatus::Exited {
                self.container_gone()
            } else {
                self
            },
        }
    }

    /// Ensure the container exit status is known before writing exit files.
    pub fn finalize_container_exit(&mut self, event: FinalizeEvent) -> (step: ConmonResult<
        FinalizeStep,
    >)
        ensures
            plain_view(step) == old(self).finalize_outcome(event),
            *final(self) == old(self).after_finalize(event),
    {
        match event {
            FinalizeEvent::Start => {
                if self.container_status.is_some() {
                    return Ok(FinalizeStep::Done);
                }
                Ok(FinalizeStep::Reap(ReapStep::Wait))
            },
            FinalizeEvent::Reap(inner) => match self.reap_pending_children(inner) {
                Ok(ReapStep::Done) => {
                    if self.container_status.is_some() {
                        return Ok(FinalizeStep::Done);
                    }
                    // All waitable children are drained. If the process is still tracked, it
                    // is not a waitable child - probe only.
                    match self.container_pid {
                        Some(pid) => Ok(FinalizeStep::Probe(pid)),
                        None => Ok(FinalizeStep::Done),
                    }
                },
                Ok(step) => Ok(FinalizeStep::Reap(step)),
                Err(e) => Err(e),
            },
            FinalizeEvent::Probed(status) => {
                if status == ProcessStatus::Exited {
                    self.assume_container_exited_without_status();
                }
                Ok(FinalizeStep::Done)
            },
        }
    }

    /// A container whose status is known is not waited for any more.
    pub open spec fn settled(self) -> bool {
        self.container_status is Some ==> self.container_pid is None
    }
}

/// Whatever happens while children are polled, a container whose status is known is not
/// waited for, and its status never changes again.
pub proof fn law_known_status_is_final(session: RuntimeSession, event: PollEvent)
    requires
        session.settled(),
    ensures
        session.after_poll(event).settled(),
        session.container_status is Some ==> session.after_poll(event).container_status
            == session.container_status,
{
}

/// The session after all of `events`, one after the other.
pub open spec fn after_polls(session: RuntimeSession, events: Seq<PollEvent>) -> RuntimeSession
    decreases events.len(),
{
    if events.len() == 0 {
        session
    } else {
        after_polls(session, events.drop_last()).after_poll(events.last())
    }
}

/// A status that is known stays as it is through any number of polls.
pub proof fn law_known_status_is_final_forever(session: RuntimeSession, events: Seq<PollEvent>)
    requires
        session.settled(),
    ensures
        after_polls(session, events).settled(),
        session.container_status is Some ==> after_polls(session, events).container_status
            == session.container_status,
    decreases events.len(),
{
    if events.len() > 0 {
        law_known_status_is_final_forever(session, events.drop_last());
        law_known_status_is_final(after_polls(session, events.drop_last()), events.last());
    }
}

/// Settling the exit of a container keeps what is known, and does nothing when the status
/// is known already.
pub proof fn law_finalize_keeps_known_status(session: RuntimeSession, event: FinalizeEvent)
    ensures
        session.settled() ==> session.after_finalize(event).settled(),
        session.settled() && session.container_status is Some ==> session.after_finalize(
            event,
        ).container_status == session.container_status,
        session.container_status is Some ==> session.finalize_outcome(FinalizeEvent::Start) == Ok::<
            FinalizeStep,
            ErrorView,
        >(FinalizeStep::Done) && session.after_finalize(FinalizeEvent::Start) == session,
{
}

/// No exit code is made up: a status appears only when a wait reports the container as
/// gone, or when a look-up finds that its process does not exist any more.
pub proof fn law_status_is_not_invented(session: RuntimeSession, event: PollEvent)
    requires
        session.container_status is None,
        session.after_poll(event).container_status is Some,
    ensures
        match event {
            PollEvent::Waited(status) => {
                &&& gone_pid(status) is Some
                &&& session.container_pid == gone_pid(status)
                &&& session.after_poll(event).container_status == exit_status(status)
            },
            PollEvent::Probed(found) => {
                &&& found == ProcessStatus::Exited
                &&& session.after_poll(event).container_status == Some(0i32)
            },
            _ => false,
        },
{
}

/// The event loop stops for a reason: the container or the runtime has exited, or there
/// is no child and nothing to wait for. Without a child and without a pid to look up it
/// goes on only while a container that was started has no status.
pub proof fn law_event_loop_stops_for_a_reason(session: RuntimeSession, event: PollEvent)
    requires
        session.poll_outcome(event) == Ok::<PollStep, ErrorView>(
            PollStep::Done(PollChildrenResult::StopEventLoop),
        ),
    ensures
        ({
            let after = session.after_poll(event);
            ||| after.container_status is Some
            ||| after.exit_code is Some
            ||| !after.container_started
        }),
{
}

/// When a wait reports the end of the container, its status is recorded as it is: the very
/// code that it exited with, or 128 and the number of the signal that killed it. The
/// container is not waited for any more, and what is known of the runtime stays.
pub proof fn law_end_of_container_is_recorded(
    session: RuntimeSession,
    pid: i32,
    code: i32,
    signal: u8,
    core: bool,
)
    requires
        session.container_pid == Some(pid),
    ensures
        ({
            let exited = session.after_poll(PollEvent::Waited(WaitStatus::Exited(pid, code)));
            &&& exited.container_status == Some(code)
            &&& exited.container_pid is None
            &&& exited.exit_code == session.exit_code
        }),
        ({
            let killed = session.after_poll(
                PollEvent::Waited(WaitStatus::Signaled(pid, signal, core)),
            );
            &&& killed.container_status is Some
            &&& killed.container_status->0 == 128 + signal
            &&& killed.container_pid is None
            &&& killed.exit_code == session.exit_code
        }),
{
}

/// When a wait reports the end of the runtime, its exit code is recorded in the same way, and
/// what is known of the container stays.
pub proof fn law_end_of_runtime_is_recorded(
    session: RuntimeSession,
    pid: i32,
    code: i32,
    signal: u8,
    core: bool,
)
    requires
        session.container_pid != Some(pid),
        session.process_pid == pid,
    ensures
        ({
            let exited = session.after_poll(PollEvent::Waited(WaitStatus::Exited(pid, code)));
            &&& exited.exit_code == Some(code)
            &&& exited.container_status == session.container_status
            &&& exited.container_pid == session.container_pid
        }),
        ({
            let killed = session.after_poll(
                PollEvent::Waited(WaitStatus::Signaled(pid, signal, core)),
            );
            &&& killed.exit_code is Some
            &&& killed.exit_code->0 == 128 + signal
            &&& killed.container_status == session.container_status
            &&& killed.container_pid == session.container_pid
        }),
{
}

/// Whether a wait reports the end of the process with this pid.
pub open spec fn reports_end(event: PollEvent, pid: i32) -> bool {
    match event {
        PollEvent::Waited(WaitStatus::Exited(p, _)) => p == pid,
        PollEvent::Waited(WaitStatus::Signaled(p, _, _)) => p == pid,
        _ => false,
    }
}

/// Whether a wait reports the end of some process.
pub open spec fn reports_some_end(event: PollEvent) -> bool {
    exists|pid: i32| #[trigger] reports_end(event, pid)
}

/// Whether a wait reports the end of the container or of the runtime.
pub open spec fn reports_own_end(session: RuntimeSession, event: PollEvent) -> bool {
    ||| session.container_pid is Some && reports_end(event, session.container_pid->0)
    ||| reports_end(event, session.process_pid)
}

proof fn lemma_reports_some_end(event: PollEvent)
    ensures
        reports_some_end(event) <==> (event matches PollEvent::Waited(status) && (status is Exited
            || status is Signaled)),
{
    match event {
        PollEvent::Waited(WaitStatus::Exited(p, _)) => {
            assert(reports_end(event, p));
        },
        PollEvent::Waited(WaitStatus::Signaled(p, _, _)) => {
            assert(reports_end(event, p));
        },
        _ => {
            assert(!reports_some_end(event)) by {
                if reports_some_end(event) {
                    let pid = choose|pid: i32| #[trigger] reports_end(event, pid);
                    assert(reports_end(event, pid));
                }
            }
        },
    }
}

/// Polling touches nothing of a session but the status and the pid of the container and the
/// exit code of the runtime, and these only when a wait reports the end of the process in
/// question, or when the container is found to be gone.
pub proof fn law_polls_touch_nothing_else(session: RuntimeSession, event: PollEvent)
    ensures
        ({
            let after = session.after_poll(event);
            &&& after == (RuntimeSession {
                container_status: after.container_status,
                container_pid: after.container_pid,
                exit_code: after.exit_code,
                ..session
            })
            &&& after.exit_code != session.exit_code ==> reports_end(event, session.process_pid)
            &&& after.container_status != session.container_status || after.container_pid
                != session.container_pid ==> event == PollEvent::Probed(ProcessStatus::Exited) || (
            session.container_pid is Some && reports_end(event, session.container_pid->0))
        }),
{
}

/// A container that is looked up and found to be gone counts as a success, unless its status
/// is known already; one that runs, or of which nothing can be found out, is left alone.
pub proof fn law_lookup_of_container(session: RuntimeSession)
    ensures
        ({
            let gone = session.after_poll(PollEvent::Probed(ProcessStatus::Exited));
            &&& gone.container_pid is None
            &&& session.container_status is None ==> gone.container_status == Some(0i32)
            &&& session.container_status is Some ==> gone.container_status
                == session.container_status
        }),
        session.after_poll(PollEvent::Probed(ProcessStatus::Running)) == session,
        session.after_poll(PollEvent::Probed(ProcessStatus::Unknown)) == session,
        session.after_finalize(FinalizeEvent::Probed(ProcessStatus::Exited)) == session.after_poll(
            PollEvent::Probed(ProcessStatus::Exited),
        ),
        session.after_finalize(FinalizeEvent::Probed(ProcessStatus::Running)) == session,
        session.after_finalize(FinalizeEvent::Probed(ProcessStatus::Unknown)) == session,
{
}

/// What each result of a poll means. The event loop stops exactly when the container or the
/// runtime has ended, when a look-up finds the container gone, or when there is no child and
/// no container to expect; a poll is to be repeated exactly when an unrelated child has ended.
pub proof fn law_meaning_of_poll(session: RuntimeSession, event: PollEvent)
    ensures
        ({
            let no_child = event matches PollEvent::WaitFailed(failed) && failed.kind
                == ErrorKind::NoChild;
            let other_failure = event matches PollEvent::WaitFailed(failed) && failed.kind
                != ErrorKind::NoChild && failed.kind != ErrorKind::Interrupted;
            let outcome = session.poll_outcome(event);
            let done = |result: PollChildrenResult| Ok::<_, ErrorView>(PollStep::Done(result));
            &&& outcome == Ok::<_, ErrorView>(PollStep::Wait) <==> event is Start
            &&& (outcome matches Ok(PollStep::Probe(_))) <==> no_child
                && session.container_pid is Some
            &&& outcome matches Ok(PollStep::Probe(pid)) ==> session.container_pid == Some(pid)
            &&& outcome == done(PollChildrenResult::StopEventLoop) <==> {
                ||| reports_own_end(session, event)
                ||| event == PollEvent::Probed(ProcessStatus::Exited)
                ||| no_child && session.container_pid is None && (session.container_status is Some
                    || !session.container_started)
            }
            &&& outcome == done(PollChildrenResult::ReapedOther) <==> reports_some_end(event)
                && !reports_own_end(session, event)
            &&& outcome is Err <==> other_failure
            &&& other_failure ==> outcome == Err::<PollStep, _>(
                failure(
                    "Failed to read child process status: "@ + event->WaitFailed_0.reason@,
                ),
            )
        }),
{
    lemma_reports_some_end(event);
}

/// Children are reaped until an end that concerns nobody is not reported any more, and no
/// longer than until the status of the container is known.
pub proof fn law_meaning_of_reaping(session: RuntimeSession, event: PollEvent)
    ensures
        ({
            let outcome = session.reap_outcome(event);
            &&& outcome == Ok::<_, ErrorView>(ReapStep::Wait) <==> session.container_status is None
                && (event is Start || (reports_some_end(event) && !reports_own_end(session, event)))
            &&& (outcome matches Ok(ReapStep::Probe(_))) <==> (session.poll_outcome(
                event,
            ) matches Ok(PollStep::Probe(_)))
            &&& outcome matches Ok(ReapStep::Probe(pid)) ==> session.container_pid == Some(pid)
            &&& outcome is Err <==> session.poll_outcome(event) is Err
            &&& outcome is Err ==> outcome->Err_0 == session.poll_outcome(event)->Err_0
        }),
{
    lemma_reports_some_end(event);
}

/// The exit of a container is settled by reaping first, and by a look-up at the end if it is
/// still expected then. Nothing is done when its status is known.
pub proof fn law_meaning_of_finalizing(
    session: RuntimeSession,
    inner: PollEvent,
    found: ProcessStatus,
)
    ensures
        session.finalize_outcome(FinalizeEvent::Start) == Ok::<_, ErrorView>(
            if session.container_status is Some {
                FinalizeStep::Done
            } else {
                FinalizeStep::Reap(ReapStep::Wait)
            },
        ),
        session.after_finalize(FinalizeEvent::Start) == session,
        session.after_finalize(FinalizeEvent::Reap(inner)) == session.after_poll(inner),
        ({
            let outcome = session.finalize_outcome(FinalizeEvent::Reap(inner));
            let after = session.after_poll(inner);
            let reaped = session.reap_outcome(inner) == Ok::<_, ErrorView>(ReapStep::Done);
            &&& (outcome matches Ok(FinalizeStep::Probe(_))) <==> reaped && after.container_status
                is None && after.container_pid is Some
            &&& outcome matches Ok(FinalizeStep::Probe(pid)) ==> after.container_pid == Some(pid)
            &&& (outcome matches Ok(FinalizeStep::Reap(_))) <==> session.reap_outcome(inner) is Ok
                && !reaped
            &&& outcome matches Ok(FinalizeStep::Reap(step)) ==> session.reap_outcome(inner)
                == Ok::<_, ErrorView>(step)
            &&& outcome is Err ==> session.reap_outcome(inner) == Err::<ReapStep, _>(
                outcome->Err_0,
            )
        }),
        session.finalize_outcome(FinalizeEvent::Probed(found)) == Ok::<_, ErrorView>(
            FinalizeStep::Done,
        ),
{
}

} // verus!
