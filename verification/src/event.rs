//! Domain events: typed occurrences in the control system, fanned out
//! through the event bus to the single dispatcher.
//!
//! The report-message structs model, as plain values, what the payload
//! schema carries for button and coin events; assembling and sending the
//! serialized reports is the collaborators' concern.

use vstd::prelude::*;

verus! {

/// A typed occurrence in the control system. Events are plain values:
/// ownership transfers fully from producer to bus to dispatcher.
#[derive(Debug, Clone, PartialEq, Eq)]
pub enum Event {
    /// A button was pressed.
    ButtonPress {
        /// Which button.
        button_id: u32,
        /// How long it was held, when known.
        duration_ms: Option<u32>,
    },
    /// A coin was inserted.
    CoinInsert {
        /// Which coin channel reported it.
        channel_id: u32,
        /// The coin's value.
        value: u32,
    },
    /// A command arrived over a transport.
    NetworkIncoming {
        /// The 16-bit command code.
        cmd: u16,
        /// The command-specific data after the code.
        payload: Vec<u8>,
    },
    /// The heartbeat timer fired.
    HeartbeatTick,
    /// A motor started or stopped.
    MotorStateChanged {
        /// Which motor.
        motor_id: u32,
        /// Whether it is now running.
        running: bool,
    },
    /// A hardware fault was detected.
    FaultDetected {
        /// Which kind of hardware faulted.
        hardware_type: i32,
        /// How severe the fault is.
        severity: i32,
    },
}

/// The action a button event report carries.
#[derive(Debug, Clone, Copy, PartialEq, Eq, Structural)]
pub enum ButtonAction {
    /// The button went down.
    Pressed,
    /// The button went up.
    Released,
}

/// Button event report: the fields a button press contributes to the
/// outbound payload schema.
#[derive(Debug, Clone, Copy, PartialEq, Eq, Structural)]
pub struct ButtonEventMsg {
    /// Which button.
    pub button_id: u32,
    /// What the button did.
    pub action: ButtonAction,
    /// How long it was held, when known.
    pub duration_ms: Option<u32>,
}

/// Coin event report: the fields a coin insertion contributes to the
/// outbound payload schema.
#[derive(Debug, Clone, Copy, PartialEq, Eq, Structural)]
pub struct CoinEventMsg {
    /// Which coin channel reported it.
    pub channel_id: u32,
    /// The single coin's value, when known.
    pub coin_value: Option<u32>,
    /// How many coins this report covers.
    pub quantity: u32,
    /// Running total, when tracked.
    pub total: Option<u32>,
}

/// The button report a given event yields, if any.
pub open spec fn spec_button_event_msg(e: Event) -> Option<ButtonEventMsg> {
    match e {
        Event::ButtonPress { button_id, duration_ms } => Some(
            ButtonEventMsg { button_id, action: ButtonAction::Pressed, duration_ms },
        ),
        _ => None,
    }
}

/// The coin report a given event yields, if any.
pub open spec fn spec_coin_event_msg(e: Event) -> Option<CoinEventMsg> {
    match e {
        Event::CoinInsert { channel_id, value } => Some(
            CoinEventMsg { channel_id, coin_value: Some(value), quantity: 1u32, total: None },
        ),
        _ => None,
    }
}

impl Event {
    /// Converts a button press into its report message; any other event
    /// yields none.
    pub fn to_button_event_proto(&self) -> (r: Option<ButtonEventMsg>)
        ensures
            r == spec_button_event_msg(*self),
    {
        match self {
            Event::ButtonPress { button_id, duration_ms } => Some(
                ButtonEventMsg {
                    button_id: *button_id,
                    action: ButtonAction::Pressed,
                    duration_ms: *duration_ms,
                },
            ),
            _ => None,
        }
    }

    /// Converts a coin insertion into its report message; any other event
    /// yields none.
    pub fn to_coin_event_proto(&self) -> (r: Option<CoinEventMsg>)
        ensures
            r == spec_coin_event_msg(*self),
    {
        match self {
            Event::CoinInsert { channel_id, value } => Some(
                CoinEventMsg {
                    channel_id: *channel_id,
                    coin_value: Some(*value),
                    quantity: 1,
                    total: None,
                },
            ),
            _ => None,
        }
    }
}

} // verus!
