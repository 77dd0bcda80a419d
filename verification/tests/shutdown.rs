use sshx_server::shutdown::{Action, Coordinator, Event, Phase};

fn after(events: &[Event]) -> (Coordinator, Vec<Action>) {
    let mut coordinator = Coordinator::new();
    let mut actions = Vec::new();
    for event in events {
        let (next, action) = coordinator.step(*event);
        coordinator = next;
        actions.push(action);
    }
    (coordinator, actions)
}

#[test]
fn starts_accepting_with_nothing_in_flight() {
    let coordinator = Coordinator::new();
    assert_eq!(coordinator.phase(), Phase::Accepting);
    assert!(!coordinator.is_in_flight(0));
}

#[test]
fn connections_are_numbered_in_order() {
    let (coordinator, actions) = after(&[Event::Incoming, Event::Incoming, Event::Incoming]);
    assert_eq!(actions, vec![Action::Serve(0), Action::Serve(1), Action::Serve(2)]);
    assert_eq!(coordinator.phase(), Phase::Accepting);
    assert!(coordinator.is_in_flight(0));
    assert!(coordinator.is_in_flight(1));
    assert!(coordinator.is_in_flight(2));
    assert!(!coordinator.is_in_flight(3));
}

#[test]
fn numbers_are_not_used_again() {
    let (coordinator, actions) =
        after(&[Event::Incoming, Event::Finished(0), Event::Incoming, Event::Finished(1), Event::Incoming]);
    assert_eq!(
        actions,
        vec![Action::Serve(0), Action::Wait, Action::Serve(1), Action::Wait, Action::Serve(2)]
    );
    assert!(!coordinator.is_in_flight(0));
    assert!(!coordinator.is_in_flight(1));
    assert!(coordinator.is_in_flight(2));
}

#[test]
fn finished_connection_leaves_while_accepting() {
    let (coordinator, actions) = after(&[Event::Incoming, Event::Incoming, Event::Finished(0)]);
    assert_eq!(actions[2], Action::Wait);
    assert_eq!(coordinator.phase(), Phase::Accepting);
    assert!(!coordinator.is_in_flight(0));
    assert!(coordinator.is_in_flight(1));
}

#[test]
fn shutdown_with_nothing_in_flight_stops_at_once() {
    let (coordinator, actions) = after(&[Event::Shutdown]);
    assert_eq!(actions, vec![Action::Stop]);
    assert_eq!(coordinator.phase(), Phase::Stopped);
}

#[test]
fn shutdown_after_all_finished_stops_at_once() {
    let (coordinator, actions) =
        after(&[Event::Incoming, Event::Incoming, Event::Finished(1), Event::Finished(0), Event::Shutdown]);
    assert_eq!(actions[4], Action::Stop);
    assert_eq!(coordinator.phase(), Phase::Stopped);
}

#[test]
fn shutdown_with_connections_in_flight_drains() {
    let (coordinator, actions) = after(&[Event::Incoming, Event::Shutdown]);
    assert_eq!(actions, vec![Action::Serve(0), Action::Drain]);
    assert_eq!(coordinator.phase(), Phase::Draining);
    assert!(coordinator.is_in_flight(0));
}

#[test]
fn no_connection_is_accepted_after_shutdown() {
    let (coordinator, actions) =
        after(&[Event::Incoming, Event::Shutdown, Event::Incoming, Event::Incoming]);
    assert_eq!(actions[2], Action::Refuse);
    assert_eq!(actions[3], Action::Refuse);
    assert_eq!(coordinator.phase(), Phase::Draining);
    assert!(coordinator.is_in_flight(0));
    assert!(!coordinator.is_in_flight(1));
    assert!(!coordinator.is_in_flight(2));
}

#[test]
fn no_connection_is_accepted_once_stopped() {
    let (coordinator, actions) = after(&[Event::Shutdown, Event::Incoming]);
    assert_eq!(actions, vec![Action::Stop, Action::Refuse]);
    assert_eq!(coordinator.phase(), Phase::Stopped);
    assert!(!coordinator.is_in_flight(0));
}

#[test]
fn connection_in_flight_finishes_before_stop() {
    let (coordinator, actions) = after(&[
        Event::Incoming,
        Event::Incoming,
        Event::Shutdown,
        Event::Finished(1),
    ]);
    assert_eq!(actions[3], Action::Wait);
    assert_eq!(coordinator.phase(), Phase::Draining);
    assert!(coordinator.is_in_flight(0));
    let (coordinator, action) = coordinator.step(Event::Finished(0));
    assert_eq!(action, Action::Stop);
    assert_eq!(coordinator.phase(), Phase::Stopped);
    assert!(!coordinator.is_in_flight(0));
}

#[test]
fn second_shutdown_is_no_op_while_draining() {
    let (coordinator, actions) = after(&[Event::Incoming, Event::Shutdown, Event::Shutdown]);
    assert_eq!(actions, vec![Action::Serve(0), Action::Drain, Action::Wait]);
    assert_eq!(coordinator.phase(), Phase::Draining);
    assert!(coordinator.is_in_flight(0));
    let (coordinator, action) = coordinator.step(Event::Finished(0));
    assert_eq!(action, Action::Stop);
    assert_eq!(coordinator.phase(), Phase::Stopped);
}

#[test]
fn second_shutdown_is_no_op_once_stopped() {
    let (coordinator, actions) = after(&[Event::Shutdown, Event::Shutdown, Event::Shutdown]);
    assert_eq!(actions, vec![Action::Stop, Action::Wait, Action::Wait]);
    assert_eq!(coordinator.phase(), Phase::Stopped);
}

#[test]
fn stop_is_reported_once() {
    let (_, actions) = after(&[
        Event::Incoming,
        Event::Shutdown,
        Event::Finished(0),
        Event::Finished(0),
        Event::Shutdown,
        Event::Incoming,
    ]);
    assert_eq!(
        actions,
        vec![
            Action::Serve(0),
            Action::Drain,
            Action::Stop,
            Action::Wait,
            Action::Wait,
            Action::Refuse
        ]
    );
}

#[test]
fn end_of_one_connection_leaves_the_others_in_flight() {
    let (coordinator, actions) =
        after(&[Event::Incoming, Event::Incoming, Event::Incoming, Event::Finished(1)]);
    assert_eq!(actions[3], Action::Wait);
    assert!(coordinator.is_in_flight(0));
    assert!(!coordinator.is_in_flight(1));
    assert!(coordinator.is_in_flight(2));
    assert_eq!(coordinator.phase(), Phase::Accepting);
    let (coordinator, action) = coordinator.step(Event::Incoming);
    assert_eq!(action, Action::Serve(3));
    assert!(coordinator.is_in_flight(3));
}

#[test]
fn end_of_unknown_connection_changes_nothing() {
    let (coordinator, actions) = after(&[Event::Incoming, Event::Finished(7), Event::Shutdown, Event::Finished(7)]);
    assert_eq!(actions, vec![Action::Serve(0), Action::Wait, Action::Drain, Action::Wait]);
    assert_eq!(coordinator.phase(), Phase::Draining);
    assert!(coordinator.is_in_flight(0));
}

#[test]
fn end_reported_twice_counts_once() {
    let (coordinator, actions) =
        after(&[Event::Incoming, Event::Incoming, Event::Shutdown, Event::Finished(0), Event::Finished(0)]);
    assert_eq!(actions[3], Action::Wait);
    assert_eq!(actions[4], Action::Wait);
    assert_eq!(coordinator.phase(), Phase::Draining);
    assert!(coordinator.is_in_flight(1));
}

#[test]
fn many_connections_drain_in_any_order() {
    let mut coordinator = Coordinator::new();
    for expected in 0..100u64 {
        let (next, action) = coordinator.step(Event::Incoming);
        assert_eq!(action, Action::Serve(expected));
        coordinator = next;
    }
    let (next, action) = coordinator.step(Event::Shutdown);
    assert_eq!(action, Action::Drain);
    coordinator = next;
    for id in (0..100u64).rev() {
        assert_eq!(coordinator.phase(), Phase::Draining);
        assert!(coordinator.is_in_flight(id));
        let (next, action) = coordinator.step(Event::Finished(id));
        assert_eq!(action, if id == 0 { Action::Stop } else { Action::Wait });
        coordinator = next;
    }
    assert_eq!(coordinator.phase(), Phase::Stopped);
}
