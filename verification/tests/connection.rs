use yewchat::connection::{Connection, ConnectionError, SendError};
use yewchat::event_bus::EventBus;

#[test]
fn connect_fails_without_a_transport() {
    assert_eq!(Connection::connect("ws://127.0.0.1:8080", false).err(), Some(ConnectionError::Unreachable));
}

#[test]
fn connect_gives_an_open_connection() {
    let mut wss = Connection::connect("ws://127.0.0.1:8080", true).unwrap();
    assert!(wss.is_open());
    assert_eq!(wss.url(), "ws://127.0.0.1:8080");
    assert!(wss.take_outbound().is_empty());
}

#[test]
fn send_queues_frames_in_order() {
    let mut wss = Connection::connect("ws://host", true).unwrap();
    assert_eq!(wss.send("one".to_string()), Ok(()));
    assert_eq!(wss.send("two".to_string()), Ok(()));
    assert_eq!(wss.take_outbound(), vec!["one", "two"]);
    assert!(wss.take_outbound().is_empty());
    assert_eq!(wss.send("three".to_string()), Ok(()));
    assert_eq!(wss.take_outbound(), vec!["three"]);
}

#[test]
fn send_fails_once_closed() {
    let mut wss = Connection::connect("ws://host", true).unwrap();
    assert_eq!(wss.send("one".to_string()), Ok(()));
    wss.close();
    assert!(!wss.is_open());
    assert_eq!(wss.send("two".to_string()), Err(SendError::Closed));
    assert_eq!(wss.take_outbound(), vec!["one"]);
    wss.close();
    assert_eq!(wss.send("three".to_string()), Err(SendError::Closed));
    assert!(wss.take_outbound().is_empty());
    assert_eq!(wss.url(), "ws://host");
}

#[test]
fn receive_forwards_frames_untouched_and_in_order() {
    let wss = Connection::connect("ws://host", true).unwrap();
    let mut bus = EventBus::new();
    let listener = bus.subscribe();
    assert!(wss.receive(&mut bus, "  {not interpreted} "));
    assert!(wss.receive(&mut bus, ""));
    assert!(wss.receive(&mut bus, "second"));
    assert_eq!(bus.take(&listener), vec!["  {not interpreted} ", "", "second"]);
}

#[test]
fn receive_distributes_nothing_once_closed() {
    let mut wss = Connection::connect("ws://host", true).unwrap();
    let mut bus = EventBus::new();
    let listener = bus.subscribe();
    assert!(wss.receive(&mut bus, "one"));
    wss.close();
    assert!(!wss.receive(&mut bus, "two"));
    assert_eq!(bus.take(&listener), vec!["one"]);
}

#[test]
fn a_rejected_write_closes_the_connection() {
    let mut wss = Connection::connect("ws://host", true).unwrap();
    assert_eq!(wss.send("one".to_string()), Ok(()));
    assert_eq!(wss.record_write(true), Ok(()));
    assert!(wss.is_open());
    assert_eq!(wss.take_outbound(), vec!["one"]);
    assert_eq!(wss.record_write(false), Err(SendError::Rejected));
    assert!(!wss.is_open());
    assert_eq!(wss.send("two".to_string()), Err(SendError::Closed));
    assert!(wss.take_outbound().is_empty());
    let mut bus = EventBus::new();
    let listener = bus.subscribe();
    assert!(!wss.receive(&mut bus, "late"));
    assert!(bus.take(&listener).is_empty());
}
