//! The status LED and its blink patterns, one step per tick of 100 ms.

use vstd::prelude::*;
use super::{OutputPin, PinError};

verus! {

/// What the LED shows.
#[derive(Debug, Clone, Copy, PartialEq, Eq, Structural)]
pub enum LedPattern {
    /// Off: relay off, normal operation.
    Off,
    /// Steadily on: relay on.
    SolidOn,
    /// 1 Hz blink: connecting to WiFi.
    SlowBlink,
    /// 5 Hz blink: waiting for WiFi provisioning.
    FastBlink,
    /// Three flashes, then off: an action succeeded.
    TripleBlink,
    /// Two short flashes, repeated: error or connection lost.
    DoublePulse,
}

/// The tick counter after `t`, wrapping to zero after `u32::MAX`.
pub open spec fn next_tick(t: u32) -> u32 {
    if t == u32::MAX {
        0
    } else {
        (t + 1) as u32
    }
}

/// At tick `t` of `pattern`: whether the LED is lit, and the pattern that
/// follows.
pub open spec fn pattern_output(pattern: LedPattern, t: u32) -> (bool, LedPattern) {
    match pattern {
        LedPattern::Off => (false, LedPattern::Off),
        LedPattern::SolidOn => (true, LedPattern::SolidOn),
        LedPattern::SlowBlink => (t % 10 < 5, LedPattern::SlowBlink),
        LedPattern::FastBlink => (t % 2 == 0, LedPattern::FastBlink),
        LedPattern::TripleBlink => if 1 <= t <= 6 {
            (t % 2 == 1, LedPattern::TripleBlink)
        } else {
            (false, LedPattern::Off)
        },
        LedPattern::DoublePulse => (t % 10 == 0 || t % 10 == 2, LedPattern::DoublePulse),
    }
}

/// The pin level that lights (`on`) or darkens the LED.
pub open spec fn pin_level(active_low: bool, on: bool) -> bool {
    if active_low {
        !on
    } else {
        on
    }
}

/// A status LED on an output pin.
pub struct LedDriver<P: OutputPin> {
    pin: P,
    pattern: LedPattern,
    tick: u32,
    active_low: bool,
}

impl<P: OutputPin> LedDriver<P> {
    /// The pattern shown.
    pub closed spec fn pattern(&self) -> LedPattern {
        self.pattern
    }

    /// Ticks since the pattern was set.
    pub closed spec fn tick_count(&self) -> u32 {
        self.tick
    }

    /// Whether the LED lights when its pin is low.
    pub closed spec fn is_active_low(&self) -> bool {
        self.active_low
    }

    /// The level the LED's pin is driven at: `true` for high.
    pub closed spec fn driven_level(&self) -> bool {
        self.pin.level()
    }

    /// Takes the pin and darkens the LED.
    pub fn new(pin: P, active_low: bool) -> (res: Result<Self, PinError>)
        ensures
            res matches Ok(led) ==> {
                &&& led.pattern() == LedPattern::Off
                &&& led.tick_count() == 0
                &&& led.is_active_low() == active_low
                &&& led.driven_level() == pin_level(active_low, false)
            },
    {
        let mut pin = pin;
        pin.set_level(active_low)?;
        Ok(LedDriver { pin, pattern: LedPattern::Off, tick: 0, active_low })
    }

    fn write(&mut self, on: bool) -> (res: Result<(), PinError>)
        ensures
            final(self).pattern() == old(self).pattern(),
            final(self).tick_count() == old(self).tick_count(),
            final(self).is_active_low() == old(self).is_active_low(),
            final(self).driven_level() == (if res is Ok {
                pin_level(old(self).is_active_low(), on)
            } else {
                old(self).driven_level()
            }),
    {
        let pin_high = if self.active_low { !on } else { on };
        self.pin.set_level(pin_high)?;
        Ok(())
    }

    /// Shows `pattern`, from its start; showing the pattern already shown
    /// changes nothing.
    pub fn set_pattern(&mut self, pattern: LedPattern)
        ensures
            final(self).pattern() == pattern,
            final(self).tick_count() == (if old(self).pattern() == pattern {
                old(self).tick_count()
            } else {
                0
            }),
            final(self).is_active_low() == old(self).is_active_low(),
            final(self).driven_level() == old(self).driven_level(),
    {
        if self.pattern != pattern {
            self.pattern = pattern;
            self.tick = 0;
        }
    }

    /// Advances the pattern by one tick and drives the pin accordingly.
    pub fn tick(&mut self) -> (res: Result<(), PinError>)
        ensures
            final(self).tick_count() == next_tick(old(self).tick_count()),
            final(self).is_active_low() == old(self).is_active_low(),
            ({
                let (on, next) = pattern_output(old(self).pattern(), next_tick(old(self).tick_count()));
                match res {
                    Ok(()) => final(self).pattern() == next && final(self).driven_level() == pin_level(
                        old(self).is_active_low(),
                        on,
                    ),
                    Err(_) => final(self).pattern() == old(self).pattern() && final(self).driven_level()
                        == old(self).driven_level(),
                }
            }),
    {
        self.tick = self.tick.wrapping_add(1);
        match self.pattern {
            LedPattern::Off => {
                self.write(false)?;
            },
            LedPattern::SolidOn => {
                self.write(true)?;
            },
            LedPattern::SlowBlink => {
                let on = self.tick % 10 < 5;
                self.write(on)?;
            },
            LedPattern::FastBlink => {
                let on = self.tick % 2 == 0;
                self.write(on)?;
            },
            LedPattern::TripleBlink => {
                match self.tick {
                    1 | 3 | 5 => self.write(true)?,
                    2 | 4 | 6 => self.write(false)?,
                    _ => {
                        self.write(false)?;
                        self.pattern = LedPattern::Off;
                    },
                }
            },
            LedPattern::DoublePulse => {
                match self.tick % 10 {
                    0 | 2 => self.write(true)?,
                    _ => self.write(false)?,
                }
            },
        }
        Ok(())
    }

    /// The pattern shown.
    pub fn current_pattern(&self) -> (res: LedPattern)
        ensures
            res == self.pattern(),
    {
        self.pattern
    }
}

/// The repeating patterns never end by themselves: at every tick, off stays
/// off and dark, solid on stays on and lit, slow blink (1 Hz) is lit for the
/// first half of each second, fast blink (5 Hz) is lit on even ticks, and the
/// double pulse flashes on the first and third tick of each second. A driver
/// showing one of them shows it after any number of ticks.
pub proof fn lemma_repeating_patterns_persist(t: u32)
    ensures
        pattern_output(LedPattern::Off, t) == (false, LedPattern::Off),
        pattern_output(LedPattern::SolidOn, t) == (true, LedPattern::SolidOn),
        pattern_output(LedPattern::SlowBlink, t) == (t % 10 < 5, LedPattern::SlowBlink),
        pattern_output(LedPattern::FastBlink, t) == (t % 2 == 0, LedPattern::FastBlink),
        pattern_output(LedPattern::DoublePulse, t) == (t % 10 == 0 || t % 10 == 2, LedPattern::DoublePulse),
{
}

/// Triple blink lights the LED on the first, third and fifth tick, darkens
/// it on the second, fourth and sixth, and gives way to `Off` on the seventh.
pub proof fn lemma_triple_blink_three_flashes()
    ensures
        forall|t: u32|
            1 <= t <= 6 ==> #[trigger] pattern_output(LedPattern::TripleBlink, t) == (
                t % 2 == 1,
                LedPattern::TripleBlink,
            ),
        pattern_output(LedPattern::TripleBlink, 7) == (false, LedPattern::Off),
{
}

/// Slow blink repeats every ten ticks and is lit for the first five of them;
/// fast blink alternates every tick.
pub proof fn lemma_blink_periods(t: u32)
    requires
        t <= u32::MAX - 10,
    ensures
        pattern_output(LedPattern::SlowBlink, t) == pattern_output(LedPattern::SlowBlink, (t + 10) as u32),
        pattern_output(LedPattern::SlowBlink, t).0 == (t % 10 < 5),
        pattern_output(LedPattern::FastBlink, t).0 != pattern_output(LedPattern::FastBlink, (t + 1) as u32).0,
{
}

} // verus!
