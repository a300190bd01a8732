//! Drivers for the relay, the button and the status LED, over abstract pins.

use vstd::prelude::*;

pub mod button;
pub mod led;
pub mod relay;

verus! {

/// A pin operation that the hardware refused, with the platform's error code.
#[derive(Debug, Clone, Copy, PartialEq)]
pub struct PinError {
    pub code: i32,
}

/// A digital output pin. An implementation promises that a write that
/// succeeds leaves the pin at the level written, and that a write that fails
/// leaves it where it was.
pub trait OutputPin {
    /// The level the pin is driven at: `true` for high.
    spec fn level(&self) -> bool;

    /// Drives the pin high (`true`) or low (`false`).
    fn set_level(&mut self, high: bool) -> (res: Result<(), PinError>)
        ensures
            res is Ok ==> final(self).level() == high,
            res is Err ==> final(self).level() == old(self).level(),
    ;
}

/// A digital input pin.
pub trait InputPin {
    /// Whether the pin reads low.
    fn is_low(&self) -> bool;
}

/// `now - since`, or zero when `now` is earlier.
pub open spec fn elapsed_ms(since: u64, now: u64) -> u64 {
    if now >= since {
        (now - since) as u64
    } else {
        0
    }
}

} // verus!
