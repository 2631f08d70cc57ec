use conmon::error::{ConmonError, ConmonResult};
use conmon::session::children::{PollEvent, PollStep, WaitStatus};
use conmon::session::idle::{IdleEvent, IdleStep};
use conmon::session::{OpenFilesSnapshot, RuntimeSession};

fn running() -> RuntimeSession {
    let mut sess = RuntimeSession::new(OpenFilesSnapshot { fds: Vec::new() });
    sess.container_started = true;
    sess.container_pid = Some(200);
    sess.signals = Some(7);
    sess
}

#[test]
fn a_signal_is_forwarded_to_the_container() -> ConmonResult<()> {
    let mut sess = running();
    assert_eq!(
        sess.idle_callback(IdleEvent::Start(true))?,
        IdleStep::ReadSignal(7)
    );
    for number in 1..=31u32 {
        assert_eq!(
            sess.idle_callback(IdleEvent::SignalRead(Some(number)))?,
            IdleStep::ForwardSignal {
                pid: 200,
                signal: number as i32
            }
        );
    }
    assert_eq!(
        sess.idle_callback(IdleEvent::SignalForwarded)?,
        IdleStep::Done(true)
    );
    Ok(())
}

#[test]
fn unknown_signals_are_not_forwarded() -> ConmonResult<()> {
    let mut sess = running();
    for number in [0, 32, 64, 0x7fff_ffff, 0x8000_0000, 0x8000_000f, u32::MAX] {
        assert_eq!(
            sess.idle_callback(IdleEvent::SignalRead(Some(number)))?,
            IdleStep::Done(true),
            "{number}"
        );
    }
    sess.container_pid = None;
    assert_eq!(
        sess.idle_callback(IdleEvent::SignalRead(Some(15)))?,
        IdleStep::Done(true)
    );
    Ok(())
}

#[test]
fn without_a_signal_to_read_the_loop_goes_on() -> ConmonResult<()> {
    let mut sess = running();
    assert_eq!(
        sess.idle_callback(IdleEvent::SignalRead(None))?,
        IdleStep::Done(true)
    );
    assert_eq!(
        sess.idle_callback(IdleEvent::SignalReadFailed)?,
        IdleStep::Done(true)
    );
    sess.signals = None;
    assert_eq!(
        sess.idle_callback(IdleEvent::Start(true))?,
        IdleStep::Done(true)
    );
    Ok(())
}

#[test]
fn a_known_status_stops_the_loop_at_once() -> ConmonResult<()> {
    for signal_received in [false, true] {
        let mut sess = running();
        sess.container_status = Some(0);
        assert_eq!(
            sess.idle_callback(IdleEvent::Start(signal_received))?,
            IdleStep::Done(false)
        );
    }
    Ok(())
}

#[test]
fn children_are_polled_until_the_timeout() -> ConmonResult<()> {
    let mut sess = running();
    assert_eq!(
        sess.idle_callback(IdleEvent::Start(false))?,
        IdleStep::AskTime
    );
    // No timeout at all.
    assert_eq!(
        sess.idle_callback(IdleEvent::Now(u64::MAX))?,
        IdleStep::Poll(PollStep::Wait)
    );
    // The time of the timeout is still in time.
    sess.timeout = 1000;
    assert_eq!(
        sess.idle_callback(IdleEvent::Now(1000))?,
        IdleStep::Poll(PollStep::Wait)
    );
    assert_eq!(
        sess.idle_callback(IdleEvent::Poll(PollEvent::Waited(WaitStatus::StillAlive)))?,
        IdleStep::Done(true)
    );
    assert_eq!(
        sess.idle_callback(IdleEvent::Poll(PollEvent::Waited(WaitStatus::Exited(
            999, 0
        ))))?,
        IdleStep::Done(true)
    );
    assert!(!sess.timed_out);
    assert_eq!(
        sess.idle_callback(IdleEvent::Poll(PollEvent::Waited(WaitStatus::Exited(
            200, 3
        ))))?,
        IdleStep::Done(false)
    );
    assert_eq!(sess.container_exit_code(), Some(3));
    Ok(())
}

#[test]
fn a_timeout_kills_the_group_of_the_container() -> ConmonResult<()> {
    let mut sess = running();
    sess.timeout = 1000;
    assert_eq!(
        sess.idle_callback(IdleEvent::Now(1001))?,
        IdleStep::AskGroup(200)
    );
    assert_eq!(
        sess.idle_callback(IdleEvent::Group(180))?,
        IdleStep::Kill {
            pid: -180,
            signal: 9
        }
    );
    // Killing group 1 would kill everything.
    for group in [1, 0, -5] {
        assert_eq!(
            sess.idle_callback(IdleEvent::Group(group))?,
            IdleStep::Kill {
                pid: 200,
                signal: 9
            }
        );
    }
    assert!(!sess.timed_out);
    assert_eq!(
        sess.idle_callback(IdleEvent::Killed)?,
        IdleStep::Done(false)
    );
    assert!(sess.timed_out);
    assert_eq!(sess.container_exit_code(), Some(-1));
    Ok(())
}

#[test]
fn a_timeout_without_a_container_kills_nobody() -> ConmonResult<()> {
    let mut sess = running();
    sess.timeout = 1000;
    sess.container_pid = None;
    assert_eq!(
        sess.idle_callback(IdleEvent::Now(1001))?,
        IdleStep::Done(false)
    );
    assert!(sess.timed_out);
    Ok(())
}

#[test]
fn a_container_that_cannot_be_killed_has_not_timed_out() {
    let mut sess = running();
    sess.timeout = 1000;
    let err = sess
        .idle_callback(IdleEvent::Failed(ConmonError::new("EPERM".to_owned(), 1)))
        .unwrap_err();
    assert_eq!(err.message(), "EPERM");
    assert!(!sess.timed_out);
}
