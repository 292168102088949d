//! Tests of the command router and the event dispatcher.

use coin_pusher::dispatch::route_event;
use coin_pusher::error::Error;
use coin_pusher::event::Event;
use coin_pusher::handlers::{
    on_button_press, on_coin_insert, on_fault_detected, on_heartbeat, on_motor_state_changed,
    on_network_message,
};
use coin_pusher::router::{example_handler, EchoHandler, Router};

#[test]
fn dispatch_unregistered_code_is_not_found() {
    let router: Router<EchoHandler> = Router::new();
    assert_eq!(router.handle_message(0x2001, &[1, 2]), Err(Error::NotFound));
}

#[test]
fn dispatch_misses_other_codes() {
    let mut router: Router<EchoHandler> = Router::new();
    router.add_route(0x2001, EchoHandler);
    assert_eq!(router.handle_message(0x2002, &[1, 2]), Err(Error::NotFound));
}

#[test]
fn dispatch_registered_code_reaches_handler() {
    let mut router: Router<EchoHandler> = Router::new();
    router.add_route(0x2001, EchoHandler);
    assert_eq!(router.handle_message(0x2001, &[1, 2, 3]), Ok(vec![1, 2, 3]));
}

#[test]
fn example_handler_echoes() {
    assert_eq!(example_handler(&[5, 6, 7]), Ok(vec![5, 6, 7]));
    assert_eq!(example_handler(&[]), Ok(vec![]));
}

#[test]
fn router_holds_many_routes() {
    let mut router: Router<EchoHandler> = Router::new();
    for cmd in 0..32u16 {
        router.add_route(cmd, EchoHandler);
    }
    assert_eq!(router.handle_message(31, &[9]), Ok(vec![9]));
    assert_eq!(router.handle_message(32, &[9]), Err(Error::NotFound));
}

#[test]
fn default_router_is_empty() {
    let router: Router<EchoHandler> = Router::default();
    assert_eq!(router.handle_message(0, &[]), Err(Error::NotFound));
}

#[test]
fn handlers_accept_their_events() {
    assert_eq!(on_button_press(1, Some(100)), Ok(()));
    assert_eq!(on_button_press(2, None), Ok(()));
    assert_eq!(on_coin_insert(0, 50), Ok(()));
    assert_eq!(on_heartbeat(), Ok(()));
    assert_eq!(on_motor_state_changed(1, true), Ok(()));
    assert_eq!(on_fault_detected(2, 3), Ok(()));
}

#[test]
fn network_handler_knows_its_commands() {
    for cmd in [0x2001u16, 0x2002, 0x2003, 0x2004, 0x2005] {
        assert_eq!(on_network_message(cmd, &[]), Ok(()));
    }
    assert_eq!(on_network_message(0x2006, &[]), Err(Error::NotFound));
    assert_eq!(on_network_message(0x0000, &[1, 2]), Err(Error::NotFound));
}

#[test]
fn route_event_reaches_every_handler() {
    assert_eq!(
        route_event(Event::ButtonPress { button_id: 1, duration_ms: Some(100) }),
        Ok(())
    );
    assert_eq!(route_event(Event::CoinInsert { channel_id: 0, value: 100 }), Ok(()));
    assert_eq!(route_event(Event::HeartbeatTick), Ok(()));
    assert_eq!(
        route_event(Event::MotorStateChanged { motor_id: 2, running: false }),
        Ok(())
    );
    assert_eq!(
        route_event(Event::FaultDetected { hardware_type: 1, severity: 2 }),
        Ok(())
    );
}

#[test]
fn route_event_network_dispatches_by_command_code() {
    assert_eq!(
        route_event(Event::NetworkIncoming { cmd: 0x2001, payload: vec![] }),
        Ok(())
    );
    assert_eq!(
        route_event(Event::NetworkIncoming { cmd: 0x1234, payload: vec![1] }),
        Err(Error::NotFound)
    );
}
