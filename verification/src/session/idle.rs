//! What is done between two rounds of the event loop.
use vstd::prelude::*;

use crate::config::CommonCfg;
use crate::error::{plain_view, ConmonError, ConmonResult, ErrorView};
use crate::os::known_signal;
use crate::session::children::{PollChildrenResult, PollEvent, PollStep};
use crate::session::launch::LaunchEvent;
use crate::session::RuntimeSession;

verus! {

/// The signal that kills a process.
pub const SIGKILL: i32 = 9;

/// What happened between two rounds of the event loop.
#[derive(Debug)]
pub enum IdleEvent {
    /// The callback was called, with or without a signal to be read.
    Start(bool),
    /// This was read from the signal-fd.
    SignalRead(Option<u32>),
    /// The signal-fd could not be read.
    SignalReadFailed,
    /// The signal was sent to the container.
    SignalForwarded,
    /// This is the time, in seconds since the epoch.
    Now(u64),
    /// The container belongs to this process group.
    Group(i32),
    /// The container was killed.
    Killed,
    /// What came of the last step of polling children.
    Poll(PollEvent),
    /// The last step failed, which ends the matter.
    Failed(ConmonError),
}

/// What is needed next between two rounds of the event loop.
#[derive(Debug, Copy, Clone, PartialEq, Eq, Structural)]
pub enum IdleStep {
    /// Read from the signal-fd.
    ReadSignal(i32),
    /// Send the signal to the process.
    ForwardSignal { pid: i32, signal: i32 },
    /// Tell the time.
    AskTime,
    /// Tell the process group of the process.
    AskGroup(i32),
    /// Send the signal to the process, or to the process group if the number is negative.
    Kill { pid: i32, signal: i32 },
    /// Take this step of polling children.
    Poll(PollStep),
    /// The event loop goes on or not.
    Done(bool),
}

/// The process that is killed with a container of a process group: the whole group, but
/// for group 1, since to kill that would kill everything we have permission for.
pub open spec fn kill_target(pid: i32, group: i32) -> i32 {
    if group > 1 {
        (-group) as i32
    } else {
        pid
    }
}

impl RuntimeSession {
    /// Whether the time of the session is over.
    pub open spec fn overdue(self, now: u64) -> bool {
        self.timeout > 0 && now > self.timeout
    }

    /// What is needed between two rounds of the event loop after `event`.
    pub open spec fn idle_outcome(self, event: IdleEvent) -> Result<IdleStep, ErrorView> {
        match event {
            IdleEvent::Start(signal_received) => if self.container_status is Some {
                Ok(IdleStep::Done(false))
            } else if !signal_received {
                Ok(IdleStep::AskTime)
            } else {
                match self.signals {
                    Some(fd) => Ok(IdleStep::ReadSignal(fd)),
                    None => Ok(IdleStep::Done(true)),
                }
            },
            IdleEvent::SignalRead(None) | IdleEvent::SignalReadFailed => Ok(IdleStep::Done(true)),
            IdleEvent::SignalRead(Some(number)) => match self.container_pid {
                Some(pid) => if 1 <= number <= 31 {
                    Ok(IdleStep::ForwardSignal { pid, signal: number as i32 })
                } else {
                    Ok(IdleStep::Done(self.container_status is None))
                },
                None => Ok(IdleStep::Done(self.container_status is None)),
            },
            IdleEvent::SignalForwarded => Ok(IdleStep::Done(self.container_status is None)),
            IdleEvent::Now(now) => if self.overdue(now) {
                match self.container_pid {
                    Some(pid) => Ok(IdleStep::AskGroup(pid)),
                    None => Ok(IdleStep::Done(false)),
                }
            } else {
                Ok(IdleStep::Poll(PollStep::Wait))
            },
            IdleEvent::Group(group) => match self.container_pid {
                Some(pid) => Ok(IdleStep::Kill { pid: kill_target(pid, group), signal: SIGKILL }),
                None => Ok(IdleStep::Done(false)),
            },
            IdleEvent::Killed => Ok(IdleStep::Done(false)),
            IdleEvent::Poll(inner) => match self.poll_outcome(inner) {
                Ok(PollStep::Done(result)) => Ok(
                    IdleStep::Done(result != PollChildrenResult::StopEventLoop),
                ),
                Ok(step) => Ok(IdleStep::Poll(step)),
                Err(e) => Err(e),
            },
            IdleEvent::Failed(e) => Err(e@),
        }
    }

    /// The session after `event` between two rounds of the event loop.
    pub open spec fn after_idle(self, event: IdleEvent) -> RuntimeSession {
        match event {
            IdleEvent::Now(now) => if self.overdue(now) && self.container_pid is None {
                RuntimeSession { timed_out: true, ..self }
            } else {
                self
            },
            IdleEvent::Group(_) => if self.container_pid is None {
                RuntimeSession { timed_out: true, ..self }
            } else {
                self
            },
            IdleEvent::Killed => RuntimeSession { timed_out: true, ..self },
            IdleEvent::Poll(inner) => self.after_poll(inner),
            _ => self,
        }
    }

    /// Function executed periodically during the event-loop execution.
    ///
    /// This function monitors the signal-fd, all the children processes and
    /// also stops the event-loop in case of execution timeout.
    ///
    /// # Returns
    ///
    /// * What to do next; in the end, whether the event-loop should still continue.
    pub fn idle_callback(&mut self, event: IdleEvent) -> (step: ConmonResult<IdleStep>)
        ensures
            plain_view(step) == old(self).idle_outcome(event),
            *final(self) == old(self).after_idle(event),
    {
        match event {
            IdleEvent::Start(signal_received) => {
                // Fast-exiting exec processes may already have a recorded status before
                // the event loop starts (or right after the first reap). Stop immediately.
                if self.container_status.is_some() {
                    return Ok(IdleStep::Done(false));
                }
                // We received a signal.
                if signal_received {
                    return match self.signals {
                        Some(fd) => Ok(IdleStep::ReadSignal(fd)),
                        None => Ok(IdleStep::Done(true)),
                    };
                }
                Ok(IdleStep::AskTime)
            },
            IdleEvent::SignalRead(None) => Ok(IdleStep::Done(true)),
            IdleEvent::SignalReadFailed => Ok(IdleStep::Done(true)),
            IdleEvent::SignalRead(Some(number)) => {
                let raw: i32 = if number <= 0x7fff_ffff {
                    number as i32
                } else {
                    0
                };
                if let Some(signal) = known_signal(raw) {
                    // Forward the signal the container if it's running.
                    if let Some(pid) = self.container_pid {
                        return Ok(IdleStep::ForwardSignal { pid, signal });
                    }
                }
                Ok(IdleStep::Done(self.container_status.is_none()))
            },
            IdleEvent::SignalForwarded => Ok(IdleStep::Done(self.container_status.is_none())),
            IdleEvent::Now(now) => {
                // Stop the event-loop if we reach a timeout.
                if self.timeout > 0 && now > self.timeout {
                    // Kill the container in case it exists.
                    if let Some(pid) = self.container_pid {
                        // Get the process group ID of the container
                        return Ok(IdleStep::AskGroup(pid));
                    }
                    self.timed_out = true;
                    // Quit the event-loop.
                    return Ok(IdleStep::Done(false));
                }
                Ok(IdleStep::Poll(PollStep::Wait))
            },
            IdleEvent::Group(group) => {
                if let Some(pid) = self.container_pid {
                    // NOTE:
                    // If pgid is 1, calling kill(-1, SIGKILL) would kill everything we have
                    // permission for.
                    let target: i32 = if group > 1 {
                        // kill entire process group
                        -group
                    } else {
                        // kill only the container process
                        pid
                    };
                    return Ok(IdleStep::Kill { pid: target, signal: SIGKILL });
                }
                self.timed_out = true;
                Ok(IdleStep::Done(false))
            },
            IdleEvent::Killed => {
                self.timed_out = true;
                Ok(IdleStep::Done(false))
            },
            IdleEvent::Poll(inner) => match self.poll_children_once(inner) {
                Ok(PollStep::Done(PollChildrenResult::StopEventLoop)) => Ok(IdleStep::Done(false)),
                Ok(PollStep::Done(_)) => Ok(IdleStep::Done(true)),
                Ok(step) => Ok(IdleStep::Poll(step)),
                Err(e) => Err(e),
            },
            IdleEvent::Failed(e) => Err(e),
        }
    }
}

/// A timeout kills the container or its process group and nothing else: what is killed is
/// the process itself, or a group other than 1. Everything is never killed, unless the
/// container itself goes by -1.
pub proof fn law_timeout_spares_everyone_else(pid: i32, group: i32)
    ensures
        kill_target(pid, group) == pid || kill_target(pid, group) < -1,
        pid != -1 ==> kill_target(pid, group) != -1,
{
}

/// A session is marked as timed out only when it is overdue and there is no container, or
/// when the container was killed; and that ends the event loop.
pub proof fn law_timeout_is_set_last(session: RuntimeSession, event: IdleEvent)
    requires
        !session.timed_out,
        session.after_idle(event).timed_out,
    ensures
        match event {
            IdleEvent::Now(now) => session.timeout > 0 && now > session.timeout
                && session.container_pid is None,
            IdleEvent::Group(_) => session.container_pid is None,
            IdleEvent::Killed => true,
            _ => false,
        },
        session.idle_outcome(event) == Ok::<IdleStep, ErrorView>(IdleStep::Done(false)),
{
}

/// A container that has exited already stops the event loop at once, with or without a
/// signal.
pub proof fn law_known_status_stops_event_loop(session: RuntimeSession, signal_received: bool)
    requires
        session.container_status is Some,
    ensures
        session.idle_outcome(IdleEvent::Start(signal_received)) == Ok::<IdleStep, ErrorView>(
            IdleStep::Done(false),
        ),
        session.after_idle(IdleEvent::Start(signal_received)) == session,
{
}

/// A timeout counts from the launch: a session that was launched at a time, with so many
/// seconds to go, is overdue from the second after those on, and never before.
pub proof fn law_timeout_counts_from_launch(
    session: RuntimeSession,
    common: CommonCfg,
    launch_time: u64,
    launched: RuntimeSession,
    now: u64,
)
    requires
        launch_time > 0,
        common.timeout is Some,
        launch_time + common.timeout->0 <= u64::MAX,
        session.launched(common, LaunchEvent::Now(launch_time), launched),
    ensures
        launched.overdue(now) <==> now > launch_time + common.timeout->0,
{
}

/// A session whose timeout is 0, as it is unless one is set, is never overdue.
pub proof fn law_no_timeout_is_never_overdue(session: RuntimeSession, now: u64)
    requires
        session.timeout == 0,
    ensures
        !session.overdue(now),
{
}

/// An overdue container is killed with all of its process group: for every group but 0, 1 and
/// what is no group at all, the signal goes to the negative of the group, whatever the pid;
/// for those it goes to the container alone.
pub proof fn law_whole_group_is_killed(session: RuntimeSession, pid: i32, group: i32)
    requires
        session.container_pid == Some(pid),
    ensures
        session.idle_outcome(IdleEvent::Group(group)) matches Ok(IdleStep::Kill { pid: to, signal })
            && signal == 9 && to == (if group > 1 {
            -group
        } else {
            pid as int
        }),
        session.after_idle(IdleEvent::Group(group)) == session,
{
}

/// A signal that was read is sent on as it is, to the container and to nobody else, exactly
/// if there is a container and the signal is one of the standard ones.
pub proof fn law_signals_are_forwarded(session: RuntimeSession, number: u32)
    ensures
        ({
            let outcome = session.idle_outcome(IdleEvent::SignalRead(Some(number)));
            let known = session.container_pid is Some && 1 <= number <= 31;
            &&& outcome is Ok
            &&& outcome->Ok_0 is ForwardSignal <==> known
            &&& known ==> outcome->Ok_0->ForwardSignal_pid == session.container_pid->0
                && outcome->Ok_0->ForwardSignal_signal == number
            &&& !known ==> outcome->Ok_0 == IdleStep::Done(session.container_status is None)
        }),
        session.after_idle(IdleEvent::SignalRead(Some(number))) == session,
{
}

/// A timeout is enforced as soon as it has passed and not before: then the group of the
/// container is asked for, and without a container the session has timed out at once.
/// Otherwise children are polled.
pub proof fn law_timeout_is_enforced(session: RuntimeSession, now: u64)
    ensures
        ({
            let outcome = session.idle_outcome(IdleEvent::Now(now));
            let late = session.timeout != 0 && session.timeout < now;
            &&& outcome is Ok
            &&& outcome->Ok_0 == IdleStep::Poll(PollStep::Wait) <==> !late
            &&& outcome->Ok_0 is AskGroup <==> late && session.container_pid is Some
            &&& outcome->Ok_0 is AskGroup ==> session.container_pid == Some(
                outcome->Ok_0->AskGroup_0,
            )
            &&& outcome->Ok_0 == IdleStep::Done(false) <==> late && session.container_pid is None
            &&& session.after_idle(IdleEvent::Now(now)) == (RuntimeSession {
                timed_out: session.timed_out || (late && session.container_pid is None),
                ..session
            })
        }),
{
}

/// A killed container ends the event loop, and the session has timed out; so it has when there
/// is no container to kill.
pub proof fn law_kill_ends_session(session: RuntimeSession, group: i32)
    ensures
        session.idle_outcome(IdleEvent::Killed) == Ok::<_, ErrorView>(IdleStep::Done(false)),
        session.after_idle(IdleEvent::Killed) == (RuntimeSession { timed_out: true, ..session }),
        session.container_pid is None ==> {
            &&& session.idle_outcome(IdleEvent::Group(group)) == Ok::<_, ErrorView>(
                IdleStep::Done(false),
            )
            &&& session.after_idle(IdleEvent::Group(group)) == (RuntimeSession {
                timed_out: true,
                ..session
            })
        },
{
}

/// How a round between two of the event loop begins: with a signal to be read if one has
/// come, else with the time, unless the container has ended already.
pub proof fn law_idle_begins(session: RuntimeSession, signal_received: bool)
    ensures
        ({
            let outcome = session.idle_outcome(IdleEvent::Start(signal_received));
            let alive = session.container_status is None;
            &&& outcome is Ok
            &&& outcome->Ok_0 == IdleStep::Done(false) <==> !alive
            &&& outcome->Ok_0 == IdleStep::AskTime <==> alive && !signal_received
            &&& outcome->Ok_0 is ReadSignal <==> alive && signal_received && session.signals is Some
            &&& outcome->Ok_0 is ReadSignal ==> session.signals == Some(
                outcome->Ok_0->ReadSignal_0,
            )
            &&& outcome->Ok_0 == IdleStep::Done(true) <==> alive && signal_received
                && session.signals is None
        }),
        session.after_idle(IdleEvent::Start(signal_received)) == session,
{
}

/// A round that polls children goes on unless the poll says that the event loop stops, and
/// does to the session what the poll does. A round that only dealt with a signal goes on as
/// long as the container has not ended.
pub proof fn law_idle_ends(session: RuntimeSession, poll: PollEvent)
    ensures
        ({
            let outcome = session.idle_outcome(IdleEvent::Poll(poll));
            let polled = session.poll_outcome(poll);
            &&& outcome is Err <==> polled is Err
            &&& polled is Err ==> outcome->Err_0 == polled->Err_0
            &&& polled matches Ok(PollStep::Done(result)) ==> outcome == Ok::<_, ErrorView>(
                IdleStep::Done(result != PollChildrenResult::StopEventLoop),
            )
            &&& polled is Ok && !(polled->Ok_0 is Done) ==> outcome == Ok::<_, ErrorView>(
                IdleStep::Poll(polled->Ok_0),
            )
        }),
        session.after_idle(IdleEvent::Poll(poll)) == session.after_poll(poll),
        session.idle_outcome(IdleEvent::SignalForwarded) == Ok::<_, ErrorView>(
            IdleStep::Done(session.container_status is None),
        ),
        session.idle_outcome(IdleEvent::SignalRead(None)) == Ok::<_, ErrorView>(
            IdleStep::Done(true),
        ),
        session.idle_outcome(IdleEvent::SignalReadFailed) == Ok::<_, ErrorView>(
            IdleStep::Done(true),
        ),
        session.after_idle(IdleEvent::SignalForwarded) == session,
        session.after_idle(IdleEvent::SignalRead(None)) == session,
        session.after_idle(IdleEvent::SignalReadFailed) == session,
{
}

/// What fails between two rounds of the event loop is what comes out, and the session stays
/// as it is.
pub proof fn law_failure_while_idle(session: RuntimeSession, error: ConmonError)
    ensures
        session.idle_outcome(IdleEvent::Failed(error)) == Err::<IdleStep, _>(error@),
        session.after_idle(IdleEvent::Failed(error)) == session,
{
}

} // verus!
