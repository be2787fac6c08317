use nxzr::controller::protocol::{
    ControllerProtocolError, Event as ControllerEvent, LogType as ControllerLogType,
};
use nxzr::protocol::{
    on_task_exit, relay_event, BlankReportSender, Event, LogType, ProtocolError,
    ProtocolInternalError, TaskExit, BLANK_REPORT_LIMIT,
};

#[test]
fn controller_events_are_relayed() {
    match relay_event(ControllerEvent::Log(ControllerLogType::PairingEnded)) {
        Event::Log(LogType::ControllerProtocol(ControllerLogType::PairingEnded)) => {}
        other => panic!("unexpected: {:?}", other),
    }
    match relay_event(ControllerEvent::Warning(ControllerProtocolError::WriteWhilePaused)) {
        Event::Warning(ProtocolError::Internal(ProtocolInternalError::ControllerProtocol(
            ControllerProtocolError::WriteWhilePaused,
        ))) => {}
        other => panic!("unexpected: {:?}", other),
    }
}

#[test]
fn task_exits() {
    let (event, close) = on_task_exit(TaskExit::Finished);
    assert!(event.is_none());
    assert!(!close);
    let (event, close) = on_task_exit(TaskExit::Panicked("boom".to_owned()));
    assert!(close);
    match event {
        Some(Event::Error(ProtocolError::Internal(ProtocolInternalError::JoinError(m)))) => {
            assert_eq!(m, "boom")
        }
        other => panic!("unexpected: {:?}", other),
    }
    let failure = ProtocolError::ActionAbortedDueToClosing("update_controller_state".to_owned());
    let (event, close) = on_task_exit(TaskExit::Failed(failure));
    assert!(close);
    assert!(matches!(event, Some(Event::Error(ProtocolError::ActionAbortedDueToClosing(_)))));
}

#[test]
fn blank_reports_stop_at_the_limit_or_the_reply() {
    let mut sender = BlankReportSender::new();
    let mut sent = 0;
    while sender.next(false) {
        sent += 1;
    }
    assert_eq!(sent, BLANK_REPORT_LIMIT);
    let mut sender = BlankReportSender::new();
    assert!(sender.next(false));
    assert!(!sender.next(true));
}
