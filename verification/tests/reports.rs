use tcp_receiver::message::{Message, MessageKind};
use tcp_receiver::report::{Failure, Report};
use tcp_receiver::teardown::{join_report, WorkerExit};

#[test]
fn kind_of_each_frame() {
    assert_eq!(Message::<u64>::Start.kind(), MessageKind::Start);
    assert_eq!(Message::Updates(vec![1u64]).kind(), MessageKind::Updates);
    assert_eq!(Message::<u64>::Updates(vec![]).kind(), MessageKind::Updates);
    assert_eq!(Message::<u64>::Commit.kind(), MessageKind::Commit);
    assert_eq!(Message::<u64>::Complete.kind(), MessageKind::Complete);
}

#[test]
fn name_of_each_kind() {
    assert_eq!(MessageKind::Start.name(), "start");
    assert_eq!(MessageKind::Updates.name(), "updates");
    assert_eq!(MessageKind::Commit.name(), "commit");
    assert_eq!(MessageKind::Complete.name(), "complete");
}

#[test]
fn failure_messages() {
    assert_eq!(
        Failure::Bind(String::from("address in use")).message(),
        "failed to bind TCP socket: address in use"
    );
    assert_eq!(
        Failure::LocalAddress(String::from("bad descriptor")).message(),
        "failed to inquire local address: bad descriptor"
    );
    assert_eq!(
        Failure::Accept(String::from("too many open files")).message(),
        "failed to accept connection: too many open files"
    );
    assert_eq!(Failure::Accept(String::new()).message(), "failed to accept connection: ");
}

#[test]
fn report_messages() {
    assert_eq!(
        Report::InterruptFailed(String::from("not connected")).message(),
        "failed to shut down TcpReceiver file descriptor: not connected"
    );
    assert_eq!(
        Report::DecodeFailed(String::from("unexpected end of file")).message(),
        "failed to deserialize message: unexpected end of file"
    );
    assert_eq!(
        Report::ListenerFailed {
            kind: MessageKind::Updates,
            detail: String::from("disk full"),
        }
        .message(),
        "listener failed to process updates event: disk full"
    );
    assert_eq!(
        Report::WorkerFailed(Failure::Accept(String::from("too many open files"))).message(),
        "TcpReceiver accept thread failed: failed to accept connection: too many open files"
    );
    assert_eq!(Report::WorkerPanicked.message(), "TcpReceiver thread has panicked");
}

#[test]
fn clean_exit_is_not_reported() {
    assert_eq!(join_report(WorkerExit::Finished(Ok(()))), None);
}

#[test]
fn failed_worker_is_reported() {
    assert_eq!(
        join_report(WorkerExit::Finished(Err(Failure::Accept(String::from("no buffer space"))))),
        Some(Report::WorkerFailed(Failure::Accept(String::from("no buffer space"))))
    );
}

#[test]
fn panicked_worker_is_reported() {
    assert_eq!(join_report(WorkerExit::Panicked), Some(Report::WorkerPanicked));
}
