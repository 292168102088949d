//! Event routing: the single dispatcher's pure match over the domain-event
//! variants, each arm delegating to the one handler owning that event kind.
//!
//! The dispatcher task around this is a loop — receive one event, route it
//! to completion, receive the next — which serializes handler execution; a
//! handler failure is reported to that loop and never terminates it.

use vstd::prelude::*;

use crate::error::Error;
use crate::event::Event;
use crate::handlers;

verus! {

/// What routing an event yields: every handler except the network one
/// accepts its event; the network handler rejects unknown command codes with
/// `NotFound`.
pub open spec fn spec_route_event(e: Event) -> Result<(), Error> {
    match e {
        Event::NetworkIncoming { cmd, .. } => if handlers::spec_known_network_cmd(cmd) {
            Ok(())
        } else {
            Err(Error::NotFound)
        },
        _ => Ok(()),
    }
}

/// Routes one event to the handler owning its kind.
pub fn route_event(event: Event) -> (r: Result<(), Error>)
    ensures
        r == spec_route_event(event),
{
    match event {
        Event::ButtonPress { button_id, duration_ms } => handlers::on_button_press(
            button_id,
            duration_ms,
        ),
        Event::CoinInsert { channel_id, value } => handlers::on_coin_insert(channel_id, value),
        Event::HeartbeatTick => handlers::on_heartbeat(),
        Event::NetworkIncoming { cmd, payload } => handlers::on_network_message(
            cmd,
            payload.as_slice(),
        ),
        Event::MotorStateChanged { motor_id, running } => handlers::on_motor_state_changed(
            motor_id,
            running,
        ),
        Event::FaultDetected { hardware_type, severity } => handlers::on_fault_detected(
            hardware_type,
            severity,
        ),
    }
}

} // verus!
