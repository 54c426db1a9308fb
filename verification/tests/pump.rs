use websocket_bridge::message::{WebSocketMessage, WireClose, WireMessage};
use websocket_bridge::pump::{event_for, Action, Event, Inbound, Phase, Pump};
use websocket_bridge::registry::Registry;

fn open_pump(handle: u32, registry: &mut Registry<&'static str>) -> Pump {
    let mut pump = Pump::new(handle);
    assert!(matches!(pump.open(registry, "writer"), Ok(())));
    pump
}

fn text(payload: &str) -> Inbound {
    Inbound::Message(WireMessage::Text(String::from(payload)))
}

#[test]
fn new_pump_is_connecting_and_unregistered() {
    let registry: Registry<&str> = Registry::new();
    let pump = Pump::new(11);
    assert_eq!(pump.handle(), 11);
    assert_eq!(pump.phase(), Phase::Connecting);
    assert!(!registry.contains(11));
}

#[test]
fn opening_registers_the_handle() {
    let mut registry = Registry::new();
    let pump = open_pump(11, &mut registry);
    assert_eq!(pump.phase(), Phase::Open);
    assert!(registry.contains(11));
    assert_eq!(registry.writer(11).ok(), Some(&"writer"));
}

#[test]
fn a_pump_opens_once() {
    let mut registry = Registry::new();
    let mut pump = open_pump(11, &mut registry);
    assert_eq!(pump.open(&mut registry, "again"), Err("again"));
    assert_eq!(pump.phase(), Phase::Open);
    assert_eq!(registry.writer(11).ok(), Some(&"writer"));
}

#[test]
fn a_connecting_pump_takes_no_step() {
    let mut pump = Pump::new(3);
    assert!(pump.on_inbound(text("early")).is_empty());
    assert_eq!(pump.phase(), Phase::Connecting);
}

#[test]
fn a_message_is_delivered_and_the_connection_stays_open() {
    let mut registry = Registry::new();
    let mut pump = open_pump(1, &mut registry);
    let actions = pump.on_inbound(text("hello"));
    assert_eq!(actions.len(), 1);
    match &actions[0] {
        Action::Deliver(Event::Message(WebSocketMessage::Text(payload))) => assert_eq!(payload, "hello"),
        _ => panic!("the text should be delivered"),
    }
    assert_eq!(pump.phase(), Phase::Open);
    assert_eq!(pump.settle(&mut registry, &actions[0]), None);
    assert!(registry.contains(1));
}

#[test]
fn events_keep_the_order_of_arrival() {
    let mut registry = Registry::new();
    let mut pump = open_pump(1, &mut registry);
    let mut seen = Vec::new();
    for tag in 0..50u32 {
        for action in pump.on_inbound(text(&format!("frame-{tag}"))) {
            if let Action::Deliver(Event::Message(WebSocketMessage::Text(payload))) = action {
                seen.push(payload);
            }
        }
    }
    let expected: Vec<String> = (0..50u32).map(|tag| format!("frame-{tag}")).collect();
    assert_eq!(seen, expected);
    assert!(registry.contains(1));
}

#[test]
fn a_raw_frame_is_delivered_as_nothing() {
    let mut registry = Registry::new();
    let mut pump = open_pump(1, &mut registry);
    let actions = pump.on_inbound(Inbound::Message(WireMessage::Frame));
    assert_eq!(actions.len(), 1);
    assert!(matches!(actions[0], Action::Deliver(Event::Empty)));
    assert_eq!(pump.phase(), Phase::Open);
}

#[test]
fn a_close_frame_deregisters_before_it_is_delivered() {
    let mut registry = Registry::new();
    registry.register(2, "other");
    let mut pump = open_pump(1, &mut registry);
    let close = Inbound::Message(WireMessage::Close(Some(WireClose {
        code: 1001,
        reason: String::from("going away"),
    })));
    let actions = pump.on_inbound(close);
    assert_eq!(actions.len(), 3);
    assert!(matches!(actions[0], Action::Deregister));
    match &actions[1] {
        Action::Deliver(Event::Message(WebSocketMessage::Close(Some(frame)))) => {
            assert_eq!(frame.code, 1001);
            assert_eq!(frame.reason, "going away");
        }
        _ => panic!("the close should be delivered second"),
    }
    assert!(matches!(actions[2], Action::Finish));
    assert_eq!(pump.phase(), Phase::Closed);

    assert_eq!(pump.settle(&mut registry, &actions[0]), Some("writer"));
    assert!(!registry.contains(1));
    assert!(registry.contains(2));
    assert!(registry.dispatch(1, WebSocketMessage::Text(String::from("late"))).is_err());
}

#[test]
fn a_close_without_frame_closes_too() {
    let mut registry = Registry::new();
    let mut pump = open_pump(1, &mut registry);
    let actions = pump.on_inbound(Inbound::Message(WireMessage::Close(None)));
    assert_eq!(actions.len(), 3);
    assert!(matches!(actions[1], Action::Deliver(Event::Message(WebSocketMessage::Close(None)))));
    assert_eq!(pump.phase(), Phase::Closed);
}

#[test]
fn a_failure_is_delivered_as_its_description_and_ends_the_connection() {
    let mut registry = Registry::new();
    let mut pump = open_pump(1, &mut registry);
    let actions = pump.on_inbound(Inbound::Failure(String::from("connection reset")));
    assert_eq!(actions.len(), 3);
    assert!(matches!(actions[0], Action::Deregister));
    match &actions[1] {
        Action::Deliver(Event::Failure(description)) => assert_eq!(description, "connection reset"),
        _ => panic!("the failure should be delivered"),
    }
    assert!(matches!(actions[2], Action::Finish));
    assert_eq!(pump.phase(), Phase::Closed);
    for action in &actions {
        pump.settle(&mut registry, action);
    }
    assert!(!registry.contains(1));
}

#[test]
fn a_closed_pump_delivers_nothing_more() {
    let mut registry = Registry::new();
    let mut pump = open_pump(1, &mut registry);
    pump.on_inbound(Inbound::Message(WireMessage::Close(None)));
    assert!(pump.on_inbound(text("after")).is_empty());
    assert!(pump.on_inbound(Inbound::Failure(String::from("late"))).is_empty());
    assert_eq!(pump.phase(), Phase::Closed);
    assert_eq!(pump.open(&mut registry, "again"), Err("again"));
}

#[test]
fn closing_one_connection_leaves_the_others() {
    let mut registry = Registry::new();
    let mut first = open_pump(1, &mut registry);
    let mut second = open_pump(2, &mut registry);
    for action in first.on_inbound(Inbound::Failure(String::from("broken"))) {
        first.settle(&mut registry, &action);
    }
    assert!(!registry.contains(1));
    assert!(registry.contains(2));
    assert_eq!(second.on_inbound(text("still here")).len(), 1);
    assert_eq!(second.phase(), Phase::Open);
}

#[test]
fn events_stand_for_what_was_read() {
    assert!(matches!(
        event_for(Inbound::Message(WireMessage::Ping(vec![1]))),
        Event::Message(WebSocketMessage::Ping(_))
    ));
    assert!(matches!(
        event_for(Inbound::Message(WireMessage::Pong(vec![1]))),
        Event::Message(WebSocketMessage::Pong(_))
    ));
    assert!(matches!(
        event_for(Inbound::Message(WireMessage::Binary(vec![1]))),
        Event::Message(WebSocketMessage::Binary(_))
    ));
    assert!(matches!(event_for(Inbound::Message(WireMessage::Frame)), Event::Empty));
}

#[test]
fn a_live_handle_is_not_taken_over() {
    let mut registry = Registry::new();
    let _first = open_pump(7, &mut registry);
    let mut second = Pump::new(7);
    assert_eq!(second.open(&mut registry, "intruder"), Err("intruder"));
    assert_eq!(second.phase(), Phase::Connecting);
    assert_eq!(second.handle(), 7);
    assert_eq!(registry.writer(7).ok(), Some(&"writer"));
}

#[test]
fn a_free_handle_is_kept_when_opening_uniquely() {
    let mut registry = Registry::new();
    registry.register(1, "other");
    let mut pump = Pump::new(2);
    assert_eq!(pump.open_unique(&mut registry, "mine", 3), Ok(()));
    assert_eq!(pump.handle(), 2);
    assert_eq!(pump.phase(), Phase::Open);
    assert_eq!(registry.writer(2).ok(), Some(&"mine"));
    assert_eq!(registry.writer(1).ok(), Some(&"other"));
}

#[test]
fn a_taken_handle_is_drawn_again() {
    let mut registry = Registry::new();
    let _first = open_pump(7, &mut registry);
    let mut second = Pump::new(7);
    assert_eq!(second.open_unique(&mut registry, "second", 64), Ok(()));
    assert!(second.handle() != 7);
    assert_eq!(second.phase(), Phase::Open);
    assert_eq!(registry.writer(7).ok(), Some(&"writer"));
    assert_eq!(registry.writer(second.handle()).ok(), Some(&"second"));
}

#[test]
fn without_further_draws_a_taken_handle_is_refused() {
    let mut registry = Registry::new();
    let _first = open_pump(7, &mut registry);
    let mut second = Pump::new(7);
    assert_eq!(second.open_unique(&mut registry, "second", 0), Err("second"));
    assert_eq!(second.phase(), Phase::Connecting);
    assert_eq!(registry.writer(7).ok(), Some(&"writer"));
}

#[test]
fn only_a_connecting_pump_draws_again() {
    let mut registry = Registry::new();
    let mut pump = open_pump(7, &mut registry);
    pump.redraw();
    assert_eq!(pump.handle(), 7);
    assert_eq!(pump.phase(), Phase::Open);
    assert_eq!(pump.open_unique(&mut registry, "again", 5), Err("again"));
    assert_eq!(pump.handle(), 7);
}

#[test]
fn drawn_pumps_are_connecting() {
    let pumps: Vec<Pump> = (0..8).map(|_| Pump::drawn()).collect();
    assert!(pumps.iter().all(|pump| pump.phase() == Phase::Connecting));
    assert!(pumps.iter().any(|pump| pump.handle() != pumps[0].handle()));
}
