//! The lifecycle of one stream request, from the admission decision to the end of
//! its connection task.
//!
//! The machine issues an [`Action`] for the caller to perform and is told the
//! result as an [`Event`]. It never performs I/O itself.
use vstd::prelude::*;
use crate::admission::{admits, admitted, RequestDescriptor};

verus! {

/// The stage of the pipeline at which a connection failed.
#[derive(Clone, Copy, Debug, PartialEq, Eq, Structural)]
pub enum Stage {
    Reject,
    Accept,
    Tls,
    Serve,
}

/// How a connection ended.
#[derive(Clone, Copy, Debug, PartialEq, Eq, Structural)]
pub enum Outcome {
    /// Admission turned the request away and the circuit was shut down.
    Rejected,
    /// HTTP serving ran until the peer closed the connection.
    Served,
    /// The given stage failed; the connection was abandoned.
    Failed(Stage),
}

/// Where a connection stands.
#[derive(Clone, Copy, Debug, PartialEq, Eq, Structural)]
pub enum Phase {
    /// `reject()` was issued and its result is awaited.
    Rejecting,
    /// `accept()` was issued and its result is awaited.
    Accepting,
    /// The TLS handshake was issued on the accepted stream.
    Handshaking,
    /// The encrypted stream was handed to the HTTP engine.
    Serving,
    /// The connection is over.
    Done(Outcome),
}

/// What the caller is to do next for a connection.
#[derive(Clone, Copy, Debug, PartialEq, Eq, Structural)]
pub enum Action {
    /// Invoke the request's `accept()`.
    Accept,
    /// Invoke the request's `reject()`.
    Reject,
    /// Start a connection task that performs the TLS handshake.
    Handshake,
    /// Hand the encrypted stream to the HTTP engine.
    Serve,
    /// Report the failure of the given stage, with the descriptor redacted.
    Report(Stage),
    /// Nothing more is to be done; the connection ended without a failure.
    Finish,
    /// The event did not belong to the current phase and was ignored.
    Ignore,
}

/// The result of the operation that the last action asked for.
#[derive(Clone, Copy, Debug, PartialEq, Eq, Structural)]
pub enum Event {
    /// `reject()` returned: `true` when it succeeded.
    RejectDone(bool),
    /// `accept()` returned: `true` when it produced a stream.
    AcceptDone(bool),
    /// The TLS handshake returned: `true` when it produced an encrypted stream.
    HandshakeDone(bool),
    /// HTTP serving returned: `true` when it ended without an error.
    ServeDone(bool),
}

/// The admission decision for a request, as the action it issues.
pub open spec fn admission_action(d: RequestDescriptor) -> Action {
    if admitted(d) {
        Action::Accept
    } else {
        Action::Reject
    }
}

/// The phase a request enters once admission has been decided.
pub open spec fn admission_phase(d: RequestDescriptor) -> Phase {
    if admitted(d) {
        Phase::Accepting
    } else {
        Phase::Rejecting
    }
}

/// The phase and action that follow an event.
pub open spec fn next(p: Phase, e: Event) -> (Phase, Action) {
    match p {
        Phase::Rejecting => match e {
            Event::RejectDone(true) => (Phase::Done(Outcome::Rejected), Action::Finish),
            Event::RejectDone(false) => (Phase::Done(Outcome::Failed(Stage::Reject)), Action::Report(Stage::Reject)),
            _ => (p, Action::Ignore),
        },
        Phase::Accepting => match e {
            Event::AcceptDone(true) => (Phase::Handshaking, Action::Handshake),
            Event::AcceptDone(false) => (Phase::Done(Outcome::Failed(Stage::Accept)), Action::Report(Stage::Accept)),
            _ => (p, Action::Ignore),
        },
        Phase::Handshaking => match e {
            Event::HandshakeDone(true) => (Phase::Serving, Action::Serve),
            Event::HandshakeDone(false) => (Phase::Done(Outcome::Failed(Stage::Tls)), Action::Report(Stage::Tls)),
            _ => (p, Action::Ignore),
        },
        Phase::Serving => match e {
            Event::ServeDone(true) => (Phase::Done(Outcome::Served), Action::Finish),
            Event::ServeDone(false) => (Phase::Done(Outcome::Failed(Stage::Serve)), Action::Report(Stage::Serve)),
            _ => (p, Action::Ignore),
        },
        Phase::Done(_) => (p, Action::Ignore),
    }
}

/// One stream request on its way through the pipeline.
#[derive(Clone, Copy, Debug, PartialEq, Eq, Structural)]
pub struct Connection {
    /// What the request asked for; reported, redacted, on failure.
    pub descriptor: RequestDescriptor,
    /// Where the connection stands.
    pub phase: Phase,
}

impl Connection {
    /// Takes in a stream request and applies the port check to it: an admitted
    /// request is to be accepted, any other rejected.
    pub fn receive(descriptor: RequestDescriptor) -> (r: (Connection, Action))
        ensures
            r.0.descriptor == descriptor,
            r.0.phase == admission_phase(descriptor),
            r.1 == admission_action(descriptor),
    {
        if admits(&descriptor) {
            (Connection { descriptor, phase: Phase::Accepting }, Action::Accept)
        } else {
            (Connection { descriptor, phase: Phase::Rejecting }, Action::Reject)
        }
    }

    /// Feeds the result of the last action to the machine and returns the
    /// next action.
    pub fn step(&mut self, e: Event) -> (a: Action)
        ensures
            final(self).descriptor == old(self).descriptor,
            (final(self).phase, a) == next(old(self).phase, e),
    {
        let (p, a) = match self.phase {
            Phase::Rejecting => match e {
                Event::RejectDone(true) => (Phase::Done(Outcome::Rejected), Action::Finish),
                Event::RejectDone(false) => (Phase::Done(Outcome::Failed(Stage::Reject)), Action::Report(Stage::Reject)),
                _ => (self.phase, Action::Ignore),
            },
            Phase::Accepting => match e {
                Event::AcceptDone(true) => (Phase::Handshaking, Action::Handshake),
                Event::AcceptDone(false) => (Phase::Done(Outcome::Failed(Stage::Accept)), Action::Report(Stage::Accept)),
                _ => (self.phase, Action::Ignore),
            },
            Phase::Handshaking => match e {
                Event::HandshakeDone(true) => (Phase::Serving, Action::Serve),
                Event::HandshakeDone(false) => (Phase::Done(Outcome::Failed(Stage::Tls)), Action::Report(Stage::Tls)),
                _ => (self.phase, Action::Ignore),
            },
            Phase::Serving => match e {
                Event::ServeDone(true) => (Phase::Done(Outcome::Served), Action::Finish),
                Event::ServeDone(false) => (Phase::Done(Outcome::Failed(Stage::Serve)), Action::Report(Stage::Serve)),
                _ => (self.phase, Action::Ignore),
            },
            Phase::Done(_) => (self.phase, Action::Ignore),
        };
        self.phase = p;
        a
    }

    /// Whether the connection is over.
    pub fn is_finished(&self) -> (r: bool)
        ensures
            r == (self.phase is Done),
    {
        match self.phase {
            Phase::Done(_) => true,
            _ => false,
        }
    }

    /// How the connection ended, once it has.
    pub fn outcome(&self) -> (r: Option<Outcome>)
        ensures
            r == (match self.phase {
                Phase::Done(o) => Some(o),
                _ => None::<Outcome>,
            }),
    {
        match self.phase {
            Phase::Done(o) => Some(o),
            _ => None,
        }
    }
}

} // verus!
