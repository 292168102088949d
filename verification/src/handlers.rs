//! Stateless event handlers, one per domain-event kind.
//!
//! These are the placeholder collaborators behind the dispatcher: each
//! receives the fully-typed event fields, reports success or a domain error,
//! and never propagates a failure as a process-level fault. The network
//! handler is the one with real logic: it re-dispatches by command code.

use vstd::prelude::*;

use crate::error::Error;
use crate::event::{ButtonAction, ButtonEventMsg, CoinEventMsg};

verus! {

/// Handles a button press: assembles the outbound button report.
pub fn on_button_press(button_id: u32, duration_ms: Option<u32>) -> (r: Result<(), Error>)
    ensures
        r == Ok::<(), Error>(()),
{
    // Assemble the report this event contributes to the payload schema;
    // serializing and sending it is the network collaborator's concern.
    let _report = ButtonEventMsg { button_id, action: ButtonAction::Pressed, duration_ms };
    Ok(())
}

/// Handles a coin insertion: assembles the outbound coin report.
pub fn on_coin_insert(channel_id: u32, value: u32) -> (r: Result<(), Error>)
    ensures
        r == Ok::<(), Error>(()),
{
    let _report = CoinEventMsg { channel_id, coin_value: Some(value), quantity: 1, total: None };
    Ok(())
}

/// Handles a heartbeat tick.
pub fn on_heartbeat() -> (r: Result<(), Error>)
    ensures
        r == Ok::<(), Error>(()),
{
    Ok(())
}

/// Handles a motor state change.
pub fn on_motor_state_changed(motor_id: u32, running: bool) -> (r: Result<(), Error>)
    ensures
        r == Ok::<(), Error>(()),
{
    let _ = motor_id;
    let _ = running;
    Ok(())
}

/// Handles a detected fault.
pub fn on_fault_detected(hardware_type: i32, severity: i32) -> (r: Result<(), Error>)
    ensures
        r == Ok::<(), Error>(()),
{
    let _ = hardware_type;
    let _ = severity;
    Ok(())
}

/// The network command codes with a dedicated handler.
pub open spec fn spec_known_network_cmd(cmd: u16) -> bool {
    cmd == 0x2001 || cmd == 0x2002 || cmd == 0x2003 || cmd == 0x2004 || cmd == 0x2005
}

/// Handles an incoming network command: re-dispatches by command code to the
/// dedicated sub-handler, and reports `NotFound` for an unknown code.
pub fn on_network_message(cmd: u16, payload: &[u8]) -> (r: Result<(), Error>)
    ensures
        spec_known_network_cmd(cmd) ==> r == Ok::<(), Error>(()),
        !spec_known_network_cmd(cmd) ==> r == Err::<(), Error>(Error::NotFound),
{
    match cmd {
        0x2001 => handle_request_status(payload),
        0x2002 => handle_light_command(payload),
        0x2003 => handle_motor_command(payload),
        0x2004 => handle_clear_fault(payload),
        0x2005 => handle_simulate_fault(payload),
        _ => Err(Error::NotFound),
    }
}

/// Answers a status request.
fn handle_request_status(_payload: &[u8]) -> (r: Result<(), Error>)
    ensures
        r == Ok::<(), Error>(()),
{
    Ok(())
}

/// Applies a light command.
fn handle_light_command(_payload: &[u8]) -> (r: Result<(), Error>)
    ensures
        r == Ok::<(), Error>(()),
{
    Ok(())
}

/// Applies a motor command.
fn handle_motor_command(_payload: &[u8]) -> (r: Result<(), Error>)
    ensures
        r == Ok::<(), Error>(()),
{
    Ok(())
}

/// Clears a recorded fault.
fn handle_clear_fault(_payload: &[u8]) -> (r: Result<(), Error>)
    ensures
        r == Ok::<(), Error>(()),
{
    Ok(())
}

/// Injects a fault for testing.
fn handle_simulate_fault(_payload: &[u8]) -> (r: Result<(), Error>)
    ensures
        r == Ok::<(), Error>(()),
{
    Ok(())
}

} // verus!
