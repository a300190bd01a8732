//! The relay: on/off with a minimum time between two switchings, to spare the
//! contacts.

use vstd::prelude::*;
use super::{OutputPin, PinError, elapsed_ms};

verus! {

/// Least time between two switchings of a relay (ms).
pub const RELAY_MIN_SWITCH_INTERVAL_MS: u64 = 200;

/// A relay driven by an output pin, active high.
pub struct RelayDriver<P: OutputPin> {
    pin: P,
    state: bool,
    index: usize,
    last_switch_ms: u64,
}

/// Whether a switching requested at `now` is far enough from the last one.
pub open spec fn switch_allowed(last_switch_ms: u64, now_ms: u64) -> bool {
    elapsed_ms(last_switch_ms, now_ms) >= RELAY_MIN_SWITCH_INTERVAL_MS
}

/// Two switchings must lie at least 200 ms apart; a clock that went back
/// counts as no time at all.
pub proof fn lemma_switch_interval(last_switch_ms: u64, now_ms: u64)
    ensures
        switch_allowed(last_switch_ms, now_ms) <==> (now_ms >= last_switch_ms && now_ms - last_switch_ms >= 200),
{
}

impl<P: OutputPin> RelayDriver<P> {
    /// Whether the relay is on.
    pub closed spec fn on(&self) -> bool {
        self.state
    }

    /// The level its pin is driven at: high for on.
    pub closed spec fn pin_level(&self) -> bool {
        self.pin.level()
    }

    /// When the relay last switched (ms).
    pub closed spec fn last_switch(&self) -> u64 {
        self.last_switch_ms
    }

    /// Which relay of the device this is.
    pub closed spec fn relay_index(&self) -> usize {
        self.index
    }

    /// Takes the pin and drives it low: a relay starts off.
    pub fn new(pin: P, index: usize) -> (res: Result<Self, PinError>)
        ensures
            res matches Ok(r) ==> !r.on() && !r.pin_level() && r.last_switch() == 0 && r.relay_index()
                == index,
    {
        let mut pin = pin;
        pin.set_level(false)?;
        Ok(RelayDriver { pin, state: false, index, last_switch_ms: 0 })
    }

    /// Switches the relay to `on` at time `now_ms`. Nothing happens when it
    /// already is so, or when it switched less than
    /// [`RELAY_MIN_SWITCH_INTERVAL_MS`] before; otherwise the pin is driven
    /// and, if that succeeds, the relay records the switching.
    pub fn set(&mut self, on: bool, now_ms: u64) -> (res: Result<(), PinError>)
        ensures
            final(self).relay_index() == old(self).relay_index(),
            old(self).on() == on || !switch_allowed(old(self).last_switch(), now_ms) ==> {
                &&& res is Ok
                &&& final(self).on() == old(self).on()
                &&& final(self).pin_level() == old(self).pin_level()
                &&& final(self).last_switch() == old(self).last_switch()
            },
            old(self).on() != on && switch_allowed(old(self).last_switch(), now_ms) ==> match res {
                Ok(()) => final(self).on() == on && final(self).pin_level() == on
                    && final(self).last_switch() == now_ms,
                Err(_) => final(self).on() == old(self).on() && final(self).pin_level()
                    == old(self).pin_level() && final(self).last_switch() == old(self).last_switch(),
            },
    {
        if self.state == on {
            return Ok(());
        }
        let elapsed = now_ms.saturating_sub(self.last_switch_ms);
        if elapsed < RELAY_MIN_SWITCH_INTERVAL_MS {
            return Ok(());
        }
        self.pin.set_level(on)?;
        self.state = on;
        self.last_switch_ms = now_ms;
        Ok(())
    }

    /// Switches the relay to the other state, under the same rule as
    /// [`RelayDriver::set`], and returns the state it is in afterwards.
    pub fn toggle(&mut self, now_ms: u64) -> (res: Result<bool, PinError>)
        ensures
            final(self).relay_index() == old(self).relay_index(),
            res matches Ok(b) ==> b == final(self).on(),
            !switch_allowed(old(self).last_switch(), now_ms) ==> {
                &&& res == Ok::<bool, PinError>(old(self).on())
                &&& final(self).on() == old(self).on()
                &&& final(self).pin_level() == old(self).pin_level()
                &&& final(self).last_switch() == old(self).last_switch()
            },
            switch_allowed(old(self).last_switch(), now_ms) ==> match res {
                Ok(_) => final(self).on() == !old(self).on() && final(self).pin_level() == !old(self).on()
                    && final(self).last_switch() == now_ms,
                Err(_) => final(self).on() == old(self).on() && final(self).pin_level()
                    == old(self).pin_level() && final(self).last_switch() == old(self).last_switch(),
            },
    {
        let new_state = !self.state;
        self.set(new_state, now_ms)?;
        Ok(self.state)
    }

    /// Whether the relay is on.
    pub fn is_on(&self) -> (res: bool)
        ensures
            res == self.on(),
    {
        self.state
    }

    /// Drives the relay to a state read back from storage, without the
    /// minimum interval and without recording a switching.
    pub fn restore_state(&mut self, on: bool) -> (res: Result<(), PinError>)
        ensures
            final(self).relay_index() == old(self).relay_index(),
            final(self).last_switch() == old(self).last_switch(),
            final(self).on() == (if res is Ok { on } else { old(self).on() }),
            final(self).pin_level() == (if res is Ok { on } else { old(self).pin_level() }),
    {
        self.pin.set_level(on)?;
        self.state = on;
        Ok(())
    }
}

} // verus!
