//! Properties of whole runs of the connection machine: what it issues over
//! any sequence of events.
use vstd::prelude::*;
use crate::connection::{admission_action, admission_phase, next, Action, Event, Outcome, Phase, Stage};
use crate::admission::{admitted, RequestDescriptor};

verus! {

/// How many times `a` occurs in `s`.
pub open spec fn occurrences(s: Seq<Action>, a: Action) -> nat
    decreases s.len(),
{
    if s.len() == 0 {
        0
    } else {
        (if s[0] == a { 1nat } else { 0nat }) + occurrences(s.drop_first(), a)
    }
}

/// The actions issued, from phase `p`, in answer to the events `evs`.
pub open spec fn run(p: Phase, evs: Seq<Event>) -> Seq<Action>
    decreases evs.len(),
{
    if evs.len() == 0 {
        Seq::empty()
    } else {
        seq![next(p, evs[0]).1] + run(next(p, evs[0]).0, evs.drop_first())
    }
}

/// The phase reached from `p` after the events `evs`.
pub open spec fn reached(p: Phase, evs: Seq<Event>) -> Phase
    decreases evs.len(),
{
    if evs.len() == 0 {
        p
    } else {
        reached(next(p, evs[0]).0, evs.drop_first())
    }
}

/// Every action issued for a request: the admission decision, then the answers
/// to the events `evs`.
pub open spec fn lifecycle(d: RequestDescriptor, evs: Seq<Event>) -> Seq<Action> {
    seq![admission_action(d)] + run(admission_phase(d), evs)
}

proof fn lemma_occurrences_prepend(x: Action, s: Seq<Action>, a: Action)
    ensures
        occurrences(seq![x] + s, a) == (if x == a { 1nat } else { 0nat }) + occurrences(s, a),
{
    let t = seq![x] + s;
    assert(t[0] == x);
    assert(t.drop_first() =~= s);
}

/// Past admission, the machine never issues `accept()` or `reject()` again.
pub proof fn lemma_run_issues_no_admission_action(p: Phase, evs: Seq<Event>)
    ensures
        occurrences(run(p, evs), Action::Accept) == 0,
        occurrences(run(p, evs), Action::Reject) == 0,
    decreases evs.len(),
{
    if evs.len() > 0 {
        let (q, a) = next(p, evs[0]);
        lemma_run_issues_no_admission_action(q, evs.drop_first());
        lemma_occurrences_prepend(a, run(q, evs.drop_first()), Action::Accept);
        lemma_occurrences_prepend(a, run(q, evs.drop_first()), Action::Reject);
    }
}

/// A request whose port is outside the allow-set is rejected exactly once
/// and never accepted, whatever events follow.
pub proof fn lemma_disallowed_rejected_once(d: RequestDescriptor, evs: Seq<Event>)
    requires
        !admitted(d),
    ensures
        occurrences(lifecycle(d, evs), Action::Reject) == 1,
        occurrences(lifecycle(d, evs), Action::Accept) == 0,
{
    lemma_run_issues_no_admission_action(admission_phase(d), evs);
    lemma_occurrences_prepend(admission_action(d), run(admission_phase(d), evs), Action::Reject);
    lemma_occurrences_prepend(admission_action(d), run(admission_phase(d), evs), Action::Accept);
}

/// A request to port 80 or 443 is accepted exactly once and never rejected,
/// whatever events follow.
pub proof fn lemma_allowed_accepted_once(d: RequestDescriptor, evs: Seq<Event>)
    requires
        admitted(d),
    ensures
        occurrences(lifecycle(d, evs), Action::Accept) == 1,
        occurrences(lifecycle(d, evs), Action::Reject) == 0,
{
    lemma_run_issues_no_admission_action(admission_phase(d), evs);
    lemma_occurrences_prepend(admission_action(d), run(admission_phase(d), evs), Action::Reject);
    lemma_occurrences_prepend(admission_action(d), run(admission_phase(d), evs), Action::Accept);
}

/// Every request sees exactly one of `accept()` and `reject()`: never
/// neither, never both.
pub proof fn lemma_exactly_one_terminal_operation(d: RequestDescriptor, evs: Seq<Event>)
    ensures
        occurrences(lifecycle(d, evs), Action::Accept) + occurrences(lifecycle(d, evs), Action::Reject) == 1,
{
    if admitted(d) {
        lemma_allowed_accepted_once(d, evs);
    } else {
        lemma_disallowed_rejected_once(d, evs);
    }
}

/// A finished connection stays finished and ignores every later event.
pub proof fn lemma_finished_absorbs(o: Outcome, evs: Seq<Event>)
    ensures
        reached(Phase::Done(o), evs) == Phase::Done(o),
        forall|i: int| 0 <= i < evs.len() ==> run(Phase::Done(o), evs)[i] == Action::Ignore,
        run(Phase::Done(o), evs).len() == evs.len(),
    decreases evs.len(),
{
    if evs.len() > 0 {
        let rest = evs.drop_first();
        lemma_finished_absorbs(o, rest);
        let r = run(Phase::Done(o), evs);
        assert(r == seq![Action::Ignore] + run(Phase::Done(o), rest));
        assert forall|i: int| 0 <= i < evs.len() implies r[i] == Action::Ignore by {
            if i > 0 {
                assert(r[i] == run(Phase::Done(o), rest)[i - 1]);
            }
        }
    }
}

/// A failed TLS handshake ends its own connection, which is then reported
/// and ignores every later event: the failure goes no further.
pub proof fn lemma_tls_failure_ends_connection(evs: Seq<Event>)
    ensures
        next(Phase::Handshaking, Event::HandshakeDone(false)) == (Phase::Done(Outcome::Failed(Stage::Tls)), Action::Report(Stage::Tls)),
        reached(Phase::Handshaking, seq![Event::HandshakeDone(false)] + evs) == Phase::Done(Outcome::Failed(Stage::Tls)),
        run(Phase::Handshaking, seq![Event::HandshakeDone(false)] + evs)[0] == Action::Report(Stage::Tls),
        forall|i: int| 0 < i <= evs.len() ==> run(Phase::Handshaking, seq![Event::HandshakeDone(false)] + evs)[i] == Action::Ignore,
{
    let all = seq![Event::HandshakeDone(false)] + evs;
    assert(all[0] == Event::HandshakeDone(false));
    assert(all.drop_first() =~= evs);
    lemma_finished_absorbs(Outcome::Failed(Stage::Tls), evs);
    let r = run(Phase::Handshaking, all);
    assert(r == seq![Action::Report(Stage::Tls)] + run(Phase::Done(Outcome::Failed(Stage::Tls)), evs));
    assert forall|i: int| 0 < i <= evs.len() implies r[i] == Action::Ignore by {
        assert(r[i] == run(Phase::Done(Outcome::Failed(Stage::Tls)), evs)[i - 1]);
    }
}

} // verus!
