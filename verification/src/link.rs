//! The boundary between the decisions made here and the hardware.
//!
//! The state machines of this crate never touch a pin, a bus or a timer. Each
//! step hands out one [`Action`]; the caller performs it and hands back the
//! [`Event`] that tells how it went.

use vstd::prelude::*;

verus! {

/// Setup time between asserting chip select and the first clock edge, and the
/// gap after each status read, in microseconds.
pub const SELECT_SETUP_MICROS: u32 = 10;

/// Settle time after every change of a pin or of a register, in microseconds.
pub const SETTLE_MICROS: u32 = 100;

/// Time between two polls of the fault status registers, in microseconds.
pub const POLL_PERIOD_MICROS: u32 = 1_000_000;

/// One thing for the caller to do.
#[derive(Clone, Copy, Debug, PartialEq, Eq, Structural)]
pub enum Action {
    /// Assert chip select (drive the line low).
    Select,
    /// Deassert chip select (drive the line high).
    Release,
    /// Clock this frame out, most significant bit first, and report what was
    /// clocked in meanwhile.
    Transfer(u16),
    /// Suspend for at least this many microseconds.
    Wait(u32),
    /// Drive the enable line and the calibrate line; `true` is high.
    SetPins { enable: bool, calibrate: bool },
    /// Set the duty of all three PWM channels to zero.
    ZeroDuty,
    /// Enable all three PWM channels.
    EnablePwm,
    /// Set the duty of all three PWM channels to half of the maximum.
    HalfDuty,
    /// Nothing is left to do.
    Halt,
}

/// How the action handed out last went.
#[derive(Clone, Copy, Debug, PartialEq, Eq, Structural)]
pub enum Event {
    /// The action was carried out.
    Done,
    /// The transfer went through and this frame was clocked in.
    Received(u16),
    /// The transfer failed.
    Failed,
}

/// The frame that stands for the outcome of a transfer: what was clocked in,
/// or zero where the transfer failed or the event tells of no transfer.
pub open spec fn spec_response(event: Event) -> u16 {
    match event {
        Event::Received(frame) => frame,
        _ => 0,
    }
}

/// The frame that stands for the outcome of a transfer.
pub fn response(event: Event) -> (frame: u16)
    ensures
        frame == spec_response(event),
{
    match event {
        Event::Received(frame) => frame,
        _ => 0,
    }
}

/// The duty that an action asks for on all three PWM channels, out of a
/// largest duty of `max`: zero, or half of `max` rounded down. `None` for an
/// action that sets no duty.
pub open spec fn spec_duty_for(action: Action, max: u32) -> Option<u32> {
    match action {
        Action::ZeroDuty => Some(0u32),
        Action::HalfDuty => Some((max / 2) as u32),
        _ => None,
    }
}

/// The duty that an action asks for on all three PWM channels. It never
/// exceeds `max`.
pub fn duty_for(action: Action, max: u32) -> (duty: Option<u32>)
    ensures
        duty == spec_duty_for(action, max),
        duty matches Some(value) ==> value <= max,
{
    match action {
        Action::ZeroDuty => Some(0),
        Action::HalfDuty => Some(max / 2),
        _ => None,
    }
}

/// One chip-select-scoped transaction: select, let the line settle, clock the
/// frame, release.
pub open spec fn transaction(frame: u16) -> Seq<Action> {
    seq![
        Action::Select,
        Action::Wait(SELECT_SETUP_MICROS),
        Action::Transfer(frame),
        Action::Release,
    ]
}

} // verus!
