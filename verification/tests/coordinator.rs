use hello_axum::shutdown::{Action, Coordinator, Event, State};

#[test]
fn starts_running() {
    let c = Coordinator::new();
    assert_eq!(c.state(), State::Running);
}

#[test]
fn interrupt_stops_accepting() {
    let mut c = Coordinator::new();
    let a = c.on_event(Event::Interrupt);
    assert_eq!(a, Action::StopAccepting);
    assert_eq!(c.state(), State::ShuttingDown);
}

#[test]
fn terminate_stops_accepting() {
    let mut c = Coordinator::new();
    let a = c.on_event(Event::Terminate);
    assert_eq!(a, Action::StopAccepting);
    assert_eq!(c.state(), State::ShuttingDown);
}

#[test]
fn second_signal_is_ignored() {
    let mut c = Coordinator::new();
    assert_eq!(c.on_event(Event::Interrupt), Action::StopAccepting);
    assert_eq!(c.on_event(Event::Interrupt), Action::Ignore);
    assert_eq!(c.state(), State::ShuttingDown);
    assert_eq!(c.on_event(Event::Terminate), Action::Ignore);
    assert_eq!(c.state(), State::ShuttingDown);
}

#[test]
fn drain_before_signal_is_ignored() {
    let mut c = Coordinator::new();
    assert_eq!(c.on_event(Event::DrainComplete), Action::Ignore);
    assert_eq!(c.state(), State::Running);
}

#[test]
fn exit_comes_only_after_drain() {
    let mut c = Coordinator::new();
    assert_eq!(c.on_event(Event::Interrupt), Action::StopAccepting);
    assert_eq!(c.on_event(Event::DrainComplete), Action::Exit);
    assert_eq!(c.state(), State::Stopped);
}

#[test]
fn stopped_is_final() {
    let mut c = Coordinator::new();
    c.on_event(Event::Terminate);
    c.on_event(Event::DrainComplete);
    for e in [Event::Interrupt, Event::Terminate, Event::DrainComplete] {
        assert_eq!(c.on_event(e), Action::Ignore);
        assert_eq!(c.state(), State::Stopped);
    }
}
