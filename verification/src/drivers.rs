//! Mock hardware drivers: stand-ins for the button, motor and light
//! peripherals, used while no real hardware is attached.

use vstd::prelude::*;

verus! {

/// A bank of simulated buttons.
#[derive(Debug, Clone, Copy, PartialEq, Eq, Structural)]
pub struct MockButtonDriver {
    /// How many buttons the bank simulates.
    pub button_count: u32,
}

impl MockButtonDriver {
    /// Creates a bank of the given size.
    pub fn new(button_count: u32) -> (d: Self)
        ensures
            d.button_count == button_count,
    {
        Self { button_count }
    }

    /// Whether the button reads as pressed: every simulated button does.
    pub fn is_pressed(&self, button_id: u32) -> (r: bool)
        ensures
            r == (button_id < self.button_count),
    {
        button_id < self.button_count
    }
}

/// A simulated motor.
#[derive(Debug, Clone, Copy, PartialEq, Eq, Structural)]
pub struct MockMotorDriver {
    /// Which motor this drives.
    pub motor_id: u32,
    /// Whether the motor is running.
    pub running: bool,
}

impl MockMotorDriver {
    /// Creates a stopped motor.
    pub fn new(motor_id: u32) -> (d: Self)
        ensures
            d.motor_id == motor_id,
            !d.running,
    {
        Self { motor_id, running: false }
    }

    /// Starts the motor.
    pub fn start(&mut self)
        ensures
            final(self).motor_id == old(self).motor_id,
            final(self).running,
    {
        self.running = true;
    }

    /// Stops the motor.
    pub fn stop(&mut self)
        ensures
            final(self).motor_id == old(self).motor_id,
            !final(self).running,
    {
        self.running = false;
    }
}

/// A simulated light.
#[derive(Debug, Clone, Copy, PartialEq, Eq, Structural)]
pub struct MockLightDriver {
    /// Which light this drives.
    pub light_id: u32,
    /// Whether the light is on.
    pub is_on: bool,
}

impl MockLightDriver {
    /// Creates a light that is off.
    pub fn new(light_id: u32) -> (d: Self)
        ensures
            d.light_id == light_id,
            !d.is_on,
    {
        Self { light_id, is_on: false }
    }

    /// Turns the light on.
    pub fn turn_on(&mut self)
        ensures
            final(self).light_id == old(self).light_id,
            final(self).is_on,
    {
        self.is_on = true;
    }

    /// Turns the light off.
    pub fn turn_off(&mut self)
        ensures
            final(self).light_id == old(self).light_id,
            !final(self).is_on,
    {
        self.is_on = false;
    }

    /// Drives the light to the given state.
    pub fn set(&mut self, on: bool)
        ensures
            final(self).light_id == old(self).light_id,
            final(self).is_on == on,
    {
        if on {
            self.turn_on();
        } else {
            self.turn_off();
        }
    }
}

} // verus!
