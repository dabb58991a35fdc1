//! The accept loop: what the dispatcher does with each item that the
//! transport source yields.
use vstd::prelude::*;
use crate::connection::{admission_action, admission_phase, Action, Connection};
use crate::admission::RequestDescriptor;

verus! {

/// What the transport source yielded when the loop pulled from it.
#[derive(Clone, Copy, Debug, PartialEq, Eq, Structural)]
pub enum SourceEvent {
    /// A new stream request.
    Request(RequestDescriptor),
    /// The sequence ended cleanly: no request will ever arrive again.
    Ended,
    /// The sequence itself cannot go on.
    Failed,
}

/// Whether the accept loop is still pulling.
#[derive(Clone, Copy, Debug, PartialEq, Eq, Structural)]
pub enum LoopState {
    Running,
    /// The source ended; the loop has returned normally.
    Ended,
    /// The source failed; the error propagates out of the loop.
    Failed,
}

/// What the loop is to do with the item it pulled.
#[derive(Clone, Copy, Debug, PartialEq, Eq, Structural)]
pub enum Directive {
    /// Perform the admission action for this new connection. A connection that
    /// goes on to `Action::Handshake` runs in a task of its own.
    Handle(Connection, Action),
    /// Leave the loop normally.
    Return,
    /// Leave the loop with the source's error.
    Abort,
}

/// The state the loop is in after an item.
pub open spec fn loop_next(s: LoopState, ev: SourceEvent) -> LoopState {
    match s {
        LoopState::Running => match ev {
            SourceEvent::Request(_) => LoopState::Running,
            SourceEvent::Ended => LoopState::Ended,
            SourceEvent::Failed => LoopState::Failed,
        },
        _ => s,
    }
}

/// What the loop does with an item.
pub open spec fn directive(s: LoopState, ev: SourceEvent) -> Directive {
    match s {
        LoopState::Running => match ev {
            SourceEvent::Request(d) => Directive::Handle(
                (Connection { descriptor: d, phase: admission_phase(d) }),
                admission_action(d),
            ),
            SourceEvent::Ended => Directive::Return,
            SourceEvent::Failed => Directive::Abort,
        },
        LoopState::Ended => Directive::Return,
        LoopState::Failed => Directive::Abort,
    }
}

/// The requests screened by the port check, in order, when the loop in state `s` is
/// handed the items `evs`.
pub open spec fn screened(s: LoopState, evs: Seq<SourceEvent>) -> Seq<RequestDescriptor>
    decreases evs.len(),
{
    if evs.len() == 0 {
        Seq::empty()
    } else {
        let head = match directive(s, evs[0]) {
            Directive::Handle(c, _) => seq![c.descriptor],
            _ => Seq::empty(),
        };
        head + screened(loop_next(s, evs[0]), evs.drop_first())
    }
}

/// The state reached from `s` after the items `evs`.
pub open spec fn loop_reached(s: LoopState, evs: Seq<SourceEvent>) -> LoopState
    decreases evs.len(),
{
    if evs.len() == 0 {
        s
    } else {
        loop_reached(loop_next(s, evs[0]), evs.drop_first())
    }
}

/// The dispatcher of the accept loop.
#[derive(Clone, Copy, Debug, PartialEq, Eq, Structural)]
pub struct Dispatcher {
    pub state: LoopState,
}

impl Dispatcher {
    /// A dispatcher ready to pull its first item.
    pub fn new() -> (r: Dispatcher)
        ensures
            r.state == LoopState::Running,
    {
        Dispatcher { state: LoopState::Running }
    }

    /// Decides what to do with the item the source yielded. A request is
    /// screened at once; the end of the sequence ends the loop; once
    /// the loop has ended nothing more is screened, accepted or rejected.
    pub fn on_source(&mut self, ev: SourceEvent) -> (r: Directive)
        ensures
            final(self).state == loop_next(old(self).state, ev),
            r == directive(old(self).state, ev),
    {
        match self.state {
            LoopState::Running => match ev {
                SourceEvent::Request(d) => {
                    let (c, a) = Connection::receive(d);
                    Directive::Handle(c, a)
                },
                SourceEvent::Ended => {
                    self.state = LoopState::Ended;
                    Directive::Return
                },
                SourceEvent::Failed => {
                    self.state = LoopState::Failed;
                    Directive::Abort
                },
            },
            LoopState::Ended => Directive::Return,
            LoopState::Failed => Directive::Abort,
        }
    }

    /// Whether the loop is still pulling from the source.
    pub fn is_running(&self) -> (r: bool)
        ensures
            r == (self.state == LoopState::Running),
    {
        match self.state {
            LoopState::Running => true,
            _ => false,
        }
    }
}

/// Once the source has ended, the loop screens no request and accepts or
/// rejects nothing, whatever is pulled after; it stays ended.
pub proof fn lemma_nothing_after_end(evs: Seq<SourceEvent>)
    ensures
        screened(LoopState::Ended, evs) == Seq::<RequestDescriptor>::empty(),
        loop_reached(LoopState::Ended, evs) == LoopState::Ended,
        forall|ev: SourceEvent| directive(LoopState::Ended, ev) == Directive::Return,
    decreases evs.len(),
{
    if evs.len() > 0 {
        lemma_nothing_after_end(evs.drop_first());
        assert(screened(LoopState::Ended, evs) =~= Seq::<RequestDescriptor>::empty());
    }
}

/// The descriptor that a request item carries.
pub open spec fn descriptor_of(ev: SourceEvent) -> RequestDescriptor
    recommends
        ev is Request,
{
    match ev {
        SourceEvent::Request(d) => d,
        _ => RequestDescriptor::Other,
    }
}

/// While the source yields requests, the loop screens each of them, in the
/// order they arrive, and keeps running.
pub proof fn lemma_screened_in_arrival_order(evs: Seq<SourceEvent>)
    requires
        forall|i: int| 0 <= i < evs.len() ==> evs[i] is Request,
    ensures
        screened(LoopState::Running, evs) == evs.map_values(|ev: SourceEvent| descriptor_of(ev)),
        loop_reached(LoopState::Running, evs) == LoopState::Running,
    decreases evs.len(),
{
    if evs.len() > 0 {
        let rest = evs.drop_first();
        assert forall|i: int| 0 <= i < rest.len() implies rest[i] is Request by {
            assert(rest[i] == evs[i + 1]);
        }
        lemma_screened_in_arrival_order(rest);
        assert(screened(LoopState::Running, evs) =~= evs.map_values(|ev: SourceEvent| descriptor_of(ev)));
    }
}

} // verus!
