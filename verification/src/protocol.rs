//! Decisions of a running protocol session: the errors and events it
//! reports, how the events of the controller protocol are relayed, and how
//! the exit of one of its tasks is handled. The tasks themselves (reader,
//! writer, connection handler) run outside, on an async runtime.
use vstd::prelude::*;
use crate::controller::protocol::{
    ControllerProtocolError, Event as ControllerEvent, EventView as ControllerEventView,
    LogType as ControllerLogType, ProtocolErrorView as ControllerErrorView,
};

verus! {

/// Failures below a running protocol.
#[derive(Clone, Debug)]
pub enum ProtocolInternalError {
    /// A protocol task could not be joined (it panicked or was cancelled);
    /// the message of the failure.
    JoinError(String),
    /// The controller protocol failed.
    ControllerProtocol(ControllerProtocolError),
}

/// Errors of a running protocol.
#[derive(Clone, Debug)]
pub enum ProtocolError {
    /// The protocol is closing, so the named action was aborted.
    ActionAbortedDueToClosing(String),
    Internal(ProtocolInternalError),
}

/// A protocol error with its messages as character sequences.
pub ghost enum ProtocolErrorModel {
    ActionAbortedDueToClosing(Seq<char>),
    JoinError(Seq<char>),
    ControllerProtocol(ControllerErrorView),
}

impl View for ProtocolError {
    type V = ProtocolErrorModel;

    open spec fn view(&self) -> ProtocolErrorModel {
        match self {
            ProtocolError::ActionAbortedDueToClosing(a) => ProtocolErrorModel::ActionAbortedDueToClosing(a@),
            ProtocolError::Internal(ProtocolInternalError::JoinError(m)) => ProtocolErrorModel::JoinError(m@),
            ProtocolError::Internal(ProtocolInternalError::ControllerProtocol(e)) => {
                ProtocolErrorModel::ControllerProtocol(e@)
            },
        }
    }
}

impl From<ControllerProtocolError> for ProtocolError {
    fn from(err: ControllerProtocolError) -> (r: Self) {
        ProtocolError::Internal(ProtocolInternalError::ControllerProtocol(err))
    }
}

impl vstd::std_specs::convert::FromSpecImpl<ControllerProtocolError> for ProtocolError {
    open spec fn obeys_from_spec() -> bool {
        true
    }

    open spec fn from_spec(err: ControllerProtocolError) -> Self {
        ProtocolError::Internal(ProtocolInternalError::ControllerProtocol(err))
    }
}

/// Informational events of a protocol session.
#[derive(Clone, Copy, Debug, PartialEq, Eq, Structural)]
pub enum LogType {
    /// The session started closing.
    Closing,
    /// Every task of the session has ended.
    Closed,
    /// A log event of the controller protocol.
    ControllerProtocol(ControllerLogType),
}

/// What a protocol session reports to its listeners.
#[derive(Clone, Debug)]
pub enum Event {
    Log(LogType),
    Error(ProtocolError),
    Warning(ProtocolError),
}

/// An event with its messages as character sequences.
pub ghost enum EventModel {
    Log(LogType),
    Error(ProtocolErrorModel),
    Warning(ProtocolErrorModel),
}

impl View for Event {
    type V = EventModel;

    open spec fn view(&self) -> EventModel {
        match self {
            Event::Log(l) => EventModel::Log(*l),
            Event::Error(e) => EventModel::Error(e@),
            Event::Warning(e) => EventModel::Warning(e@),
        }
    }
}

/// An event of the controller protocol as the session reports it: its
/// warnings stay warnings, its logs are tagged as the controller's.
pub open spec fn spec_relayed(inner: ControllerEventView) -> EventModel {
    match inner {
        ControllerEventView::Warning(e) => EventModel::Warning(ProtocolErrorModel::ControllerProtocol(e)),
        ControllerEventView::Log(l) => EventModel::Log(LogType::ControllerProtocol(l)),
    }
}

/// Relays an event of the controller protocol to the session's listeners.
pub fn relay_event(inner: ControllerEvent) -> (r: Event)
    ensures
        r@ == spec_relayed(inner@),
{
    match inner {
        ControllerEvent::Warning(err) => Event::Warning(ProtocolError::from(err)),
        ControllerEvent::Log(log) => Event::Log(LogType::ControllerProtocol(log)),
    }
}

/// How one task of a session ended.
#[derive(Clone, Debug)]
pub enum TaskExit {
    /// The task returned without error.
    Finished,
    /// The task returned this error.
    Failed(ProtocolError),
    /// The task could not be joined; the message of the failure.
    Panicked(String),
}

/// The error that a task exit reports, if any.
pub open spec fn spec_exit_error(exit: TaskExit) -> Option<ProtocolErrorModel> {
    match exit {
        TaskExit::Finished => None,
        TaskExit::Failed(e) => Some(e@),
        TaskExit::Panicked(m) => Some(ProtocolErrorModel::JoinError(m@)),
    }
}

/// Handles the exit of a session task: a failed or panicked task is
/// reported as an error event, and (while the session runs) closes the
/// session; a finished task changes nothing. Returns the event to report
/// and whether the session must close.
pub fn on_task_exit(exit: TaskExit) -> (r: (Option<Event>, bool))
    ensures
        match spec_exit_error(exit) {
            None => r.0 is None && !r.1,
            Some(e) => r.0 matches Some(ev) && ev@ == EventModel::Error(e) && r.1,
        },
{
    match exit {
        TaskExit::Finished => (None, false),
        TaskExit::Failed(err) => (Some(Event::Error(err)), true),
        TaskExit::Panicked(message) => {
            (Some(Event::Error(ProtocolError::Internal(ProtocolInternalError::JoinError(message)))), true)
        },
    }
}

/// Most blank input reports sent while waiting for the host to reply.
pub const BLANK_REPORT_LIMIT: u8 = 10;

/// Paces the blank input reports sent after connecting: one per round
/// until the host replies or the limit is reached.
#[derive(Clone, Copy, Debug)]
pub struct BlankReportSender {
    sent: u8,
}

impl BlankReportSender {
    #[verifier::type_invariant]
    spec fn within_limit(self) -> bool {
        self.sent <= BLANK_REPORT_LIMIT
    }

    /// Number of blank reports sent so far.
    pub closed spec fn spec_sent(self) -> nat {
        self.sent as nat
    }

    /// A sender that has sent nothing.
    pub fn new() -> (r: Self)
        ensures
            r.spec_sent() == 0,
    {
        BlankReportSender { sent: 0 }
    }

    /// Decides whether to send another blank report: only while the host
    /// has not replied and fewer than the limit were sent; counts the send.
    pub fn next(&mut self, host_replied: bool) -> (send: bool)
        ensures
            send == (!host_replied && old(self).spec_sent() < BLANK_REPORT_LIMIT),
            final(self).spec_sent() == old(self).spec_sent() + (if send { 1int } else { 0int }),
            final(self).spec_sent() <= BLANK_REPORT_LIMIT,
    {
        proof {
            use_type_invariant(&*self);
        }
        if host_replied || self.sent >= BLANK_REPORT_LIMIT {
            false
        } else {
            self.sent = self.sent + 1;
            true
        }
    }
}

} // verus!
