use tcp_receiver::connection::ConnectionState;
use tcp_receiver::report::{Failure, Report};
use tcp_receiver::teardown::{join_report, WorkerExit};
use tcp_receiver::worker::{on_accept, on_decode_failure, Step};

#[test]
fn listening_holds_the_bound_descriptor() {
    let state = ConnectionState::listening(3);
    assert_eq!(state, ConnectionState::Listening(3));
    assert!(!state.is_shut_down());
    assert_eq!(state.current_descriptor(), Some(3));
}

#[test]
fn shutdown_of_a_listening_socket_interrupts_it() {
    let mut state = ConnectionState::listening(3);
    assert_eq!(state.shutdown(), Some(3));
    assert_eq!(state, ConnectionState::ShutDown);
    assert!(state.is_shut_down());
    assert_eq!(state.current_descriptor(), None);
}

#[test]
fn shutdown_of_a_connection_interrupts_the_connection() {
    let mut state = ConnectionState::Accepted(8);
    assert_eq!(state.current_descriptor(), Some(8));
    assert_eq!(state.shutdown(), Some(8));
    assert_eq!(state, ConnectionState::ShutDown);
}

#[test]
fn shutdown_is_idempotent() {
    let mut state = ConnectionState::listening(3);
    assert_eq!(state.shutdown(), Some(3));
    assert_eq!(state.shutdown(), None);
    assert_eq!(state.shutdown(), None);
    assert_eq!(state, ConnectionState::ShutDown);
}

#[test]
fn only_a_zero_status_is_a_successful_interrupt() {
    assert!(!ConnectionState::interrupt_failed(0));
    assert!(ConnectionState::interrupt_failed(-1));
    assert!(ConnectionState::interrupt_failed(1));
    assert!(ConnectionState::interrupt_failed(i32::MIN));
    assert!(ConnectionState::interrupt_failed(i32::MAX));
}

#[test]
fn accepted_connection_is_recorded() {
    let mut state = ConnectionState::listening(3);
    let step = on_accept(&mut state, Ok(4));
    assert_eq!(step, Step::Continue);
    assert_eq!(state, ConnectionState::Accepted(4));
}

#[test]
fn failed_accept_ends_the_worker() {
    let mut state = ConnectionState::listening(3);
    let step = on_accept(&mut state, Err(String::from("too many open files")));
    assert_eq!(
        step,
        Step::Exit(Err(Failure::Accept(String::from("too many open files"))))
    );
    assert_eq!(state, ConnectionState::Listening(3));
}

#[test]
fn accept_after_shutdown_is_discarded() {
    let mut state = ConnectionState::listening(3);
    state.shutdown();
    let step = on_accept(&mut state, Ok(4));
    assert_eq!(step, Step::Exit(Ok(())));
    assert_eq!(state, ConnectionState::ShutDown);
}

#[test]
fn failed_accept_after_shutdown_is_no_failure() {
    let mut state = ConnectionState::listening(3);
    state.shutdown();
    let step = on_accept(&mut state, Err(String::from("invalid argument")));
    assert_eq!(step, Step::Exit(Ok(())));
    assert_eq!(state, ConnectionState::ShutDown);
}

#[test]
fn decode_failure_is_recorded_while_listening_or_connected() {
    let connected = ConnectionState::Accepted(4);
    assert_eq!(
        on_decode_failure(&connected, String::from("unexpected end of file")),
        Step::Record(Report::DecodeFailed(String::from("unexpected end of file")))
    );
    let listening = ConnectionState::Listening(3);
    assert_eq!(
        on_decode_failure(&listening, String::from("bad tag")),
        Step::Record(Report::DecodeFailed(String::from("bad tag")))
    );
}

#[test]
fn decode_failure_after_shutdown_ends_the_worker_cleanly() {
    let mut state = ConnectionState::Accepted(4);
    state.shutdown();
    assert_eq!(
        on_decode_failure(&state, String::from("connection reset")),
        Step::Exit(Ok(()))
    );
}

/// A receiver that is torn down right after it was set up.
#[test]
fn drop() {
    let mut state = ConnectionState::listening(3);
    assert_eq!(state.shutdown(), Some(3));
    let step = on_accept(&mut state, Err(String::from("invalid argument")));
    assert_eq!(step, Step::Exit(Ok(())));
    assert_eq!(join_report(WorkerExit::Finished(Ok(()))), None);
}

/// A peer connects, hangs up, and the receiver is torn down.
#[test]
fn accept() {
    let mut state = ConnectionState::listening(3);
    assert_eq!(on_accept(&mut state, Ok(4)), Step::Continue);
    assert_eq!(state, ConnectionState::Accepted(4));
    assert_eq!(
        on_decode_failure(&state, String::from("unexpected end of file")),
        Step::Record(Report::DecodeFailed(String::from("unexpected end of file")))
    );
    assert_eq!(state.shutdown(), Some(4));
    assert_eq!(
        on_decode_failure(&state, String::from("unexpected end of file")),
        Step::Exit(Ok(()))
    );
}

/// A receiver that is torn down before any peer connected never takes up a
/// connection, not even one that `accept` still handed out.
#[test]
fn never_accepted() {
    for late in [Ok(4), Err(String::from("connection aborted"))] {
        let mut state = ConnectionState::listening(3);
        assert_eq!(state.shutdown(), Some(3));
        assert_eq!(on_accept(&mut state, late), Step::Exit(Ok(())));
        assert_eq!(state, ConnectionState::ShutDown);
        assert_eq!(state.current_descriptor(), None);
    }
}
