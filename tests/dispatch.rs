use onion_dispatch::connection::{Action, Event, Phase, Stage};
use onion_dispatch::dispatch::{Directive, Dispatcher, LoopState, SourceEvent};
use onion_dispatch::admission::RequestDescriptor;

fn request(port: u16) -> SourceEvent {
    SourceEvent::Request(RequestDescriptor::Begin { port })
}

#[test]
fn new_dispatcher_is_running() {
    let d = Dispatcher::new();
    assert!(d.is_running());
    assert_eq!(d.state, LoopState::Running);
}

#[test]
fn requests_are_screened_in_arrival_order() {
    let mut d = Dispatcher::new();
    let mut decisions = vec![];
    for p in [8080u16, 443, 80, 22] {
        match d.on_source(request(p)) {
            Directive::Handle(c, a) => {
                assert_eq!(c.descriptor, RequestDescriptor::Begin { port: p });
                decisions.push(a);
            }
            other => panic!("unexpected directive {other:?}"),
        }
    }
    assert_eq!(decisions, vec![Action::Reject, Action::Accept, Action::Accept, Action::Reject]);
    assert!(d.is_running());
}

#[test]
fn loop_returns_when_source_ends_and_screens_nothing_after() {
    let mut d = Dispatcher::new();
    assert_eq!(d.on_source(SourceEvent::Ended), Directive::Return);
    assert!(!d.is_running());
    assert_eq!(d.state, LoopState::Ended);
    assert_eq!(d.on_source(request(443)), Directive::Return);
    assert_eq!(d.on_source(SourceEvent::Failed), Directive::Return);
    assert_eq!(d.state, LoopState::Ended);
}

#[test]
fn source_failure_aborts_the_loop() {
    let mut d = Dispatcher::new();
    assert_eq!(d.on_source(SourceEvent::Failed), Directive::Abort);
    assert_eq!(d.state, LoopState::Failed);
    assert_eq!(d.on_source(request(80)), Directive::Abort);
}

#[test]
fn connection_ended_after_loop_returns_is_unaffected() {
    let mut d = Dispatcher::new();
    let mut c = match d.on_source(request(443)) {
        Directive::Handle(c, Action::Accept) => c,
        other => panic!("unexpected directive {other:?}"),
    };
    assert_eq!(c.step(Event::AcceptDone(true)), Action::Handshake);
    assert_eq!(d.on_source(SourceEvent::Ended), Directive::Return);
    assert_eq!(c.step(Event::HandshakeDone(true)), Action::Serve);
    assert_eq!(c.step(Event::ServeDone(true)), Action::Finish);
}

#[test]
fn loop_goes_on_after_failed_accept() {
    let mut d = Dispatcher::new();
    let mut c = match d.on_source(request(80)) {
        Directive::Handle(c, Action::Accept) => c,
        other => panic!("unexpected directive {other:?}"),
    };
    assert_eq!(c.step(Event::AcceptDone(false)), Action::Report(Stage::Accept));
    assert!(d.is_running());
    match d.on_source(request(443)) {
        Directive::Handle(c, a) => {
            assert_eq!(a, Action::Accept);
            assert_eq!(c.phase, Phase::Accepting);
        }
        other => panic!("unexpected directive {other:?}"),
    }
}

#[test]
fn loop_goes_on_after_failed_handshake() {
    let mut d = Dispatcher::new();
    let mut c = match d.on_source(request(443)) {
        Directive::Handle(c, _) => c,
        other => panic!("unexpected directive {other:?}"),
    };
    c.step(Event::AcceptDone(true));
    assert_eq!(c.step(Event::HandshakeDone(false)), Action::Report(Stage::Tls));
    assert!(d.is_running());
    assert!(matches!(d.on_source(request(80)), Directive::Handle(_, Action::Accept)));
}
