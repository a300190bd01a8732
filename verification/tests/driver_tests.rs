use std::cell::{Cell, RefCell};
use std::rc::Rc;

use smart_home_firmware::drivers::button::{ButtonDriver, ButtonEvent};
use smart_home_firmware::drivers::led::{LedDriver, LedPattern};
use smart_home_firmware::drivers::relay::RelayDriver;
use smart_home_firmware::drivers::{InputPin, OutputPin, PinError};

#[derive(Clone)]
struct FakeOutput {
    writes: Rc<RefCell<Vec<bool>>>,
    fail: Rc<Cell<bool>>,
}

impl FakeOutput {
    fn new() -> Self {
        FakeOutput { writes: Rc::new(RefCell::new(Vec::new())), fail: Rc::new(Cell::new(false)) }
    }
}

impl OutputPin for FakeOutput {
    fn level(&self) -> bool {
        self.writes.borrow().last().copied().unwrap_or(false)
    }

    fn set_level(&mut self, high: bool) -> Result<(), PinError> {
        if self.fail.get() {
            return Err(PinError { code: -1 });
        }
        self.writes.borrow_mut().push(high);
        Ok(())
    }
}

#[derive(Clone)]
struct FakeInput {
    low: Rc<Cell<bool>>,
}

impl InputPin for FakeInput {
    fn is_low(&self) -> bool {
        self.low.get()
    }
}

#[test]
fn relay_starts_off_and_switches() {
    let pin = FakeOutput::new();
    let mut relay = RelayDriver::new(pin.clone(), 0).unwrap();
    assert!(!relay.is_on());
    assert_eq!(*pin.writes.borrow(), vec![false]);
    relay.set(true, 1_000).unwrap();
    assert!(relay.is_on());
    assert_eq!(*pin.writes.borrow(), vec![false, true]);
}

#[test]
fn relay_ignores_switching_too_fast() {
    let pin = FakeOutput::new();
    let mut relay = RelayDriver::new(pin.clone(), 0).unwrap();
    relay.set(true, 1_000).unwrap();
    relay.set(false, 1_199).unwrap();
    assert!(relay.is_on());
    relay.set(false, 1_200).unwrap();
    assert!(!relay.is_on());
    // A clock that went backwards counts as no time at all.
    relay.set(true, 500).unwrap();
    assert!(!relay.is_on());
    assert_eq!(*pin.writes.borrow(), vec![false, true, false]);
}

#[test]
fn relay_same_state_does_nothing() {
    let pin = FakeOutput::new();
    let mut relay = RelayDriver::new(pin.clone(), 0).unwrap();
    relay.set(false, 10_000).unwrap();
    assert_eq!(*pin.writes.borrow(), vec![false]);
}

#[test]
fn relay_toggle_returns_new_state() {
    let pin = FakeOutput::new();
    let mut relay = RelayDriver::new(pin.clone(), 2).unwrap();
    assert_eq!(relay.toggle(1_000).unwrap(), true);
    assert_eq!(relay.toggle(1_100).unwrap(), true);
    assert_eq!(relay.toggle(1_300).unwrap(), false);
}

#[test]
fn relay_failed_write_keeps_state() {
    let pin = FakeOutput::new();
    let mut relay = RelayDriver::new(pin.clone(), 0).unwrap();
    pin.fail.set(true);
    assert_eq!(relay.set(true, 1_000), Err(PinError { code: -1 }));
    assert!(!relay.is_on());
    pin.fail.set(false);
    relay.set(true, 1_001).unwrap();
    assert!(relay.is_on());
}

#[test]
fn relay_restore_skips_rate_limit() {
    let pin = FakeOutput::new();
    let mut relay = RelayDriver::new(pin.clone(), 0).unwrap();
    relay.set(true, 1_000).unwrap();
    relay.restore_state(false).unwrap();
    assert!(!relay.is_on());
    // The restore is not a switching: the next one is still timed from 1000.
    relay.set(true, 1_150).unwrap();
    assert!(!relay.is_on());
}

fn led_run(pattern: LedPattern, ticks: usize, active_low: bool) -> Vec<bool> {
    let pin = FakeOutput::new();
    let mut led = LedDriver::new(pin.clone(), active_low).unwrap();
    led.set_pattern(pattern);
    for _ in 0..ticks {
        led.tick().unwrap();
    }
    let writes = pin.writes.borrow().clone();
    writes[1..].to_vec()
}

#[test]
fn led_triple_blink_then_off() {
    let pin = FakeOutput::new();
    let mut led = LedDriver::new(pin.clone(), false).unwrap();
    led.set_pattern(LedPattern::TripleBlink);
    for _ in 0..7 {
        led.tick().unwrap();
    }
    assert_eq!(led.current_pattern(), LedPattern::Off);
    assert_eq!(*pin.writes.borrow(), vec![false, true, false, true, false, true, false, false]);
}

#[test]
fn led_slow_and_fast_blink() {
    assert_eq!(
        led_run(LedPattern::SlowBlink, 10, false),
        vec![true, true, true, true, false, false, false, false, false, true]
    );
    assert_eq!(led_run(LedPattern::FastBlink, 4, false), vec![false, true, false, true]);
    assert_eq!(
        led_run(LedPattern::DoublePulse, 10, false),
        vec![false, true, false, false, false, false, false, false, false, true]
    );
    assert_eq!(led_run(LedPattern::SolidOn, 3, false), vec![true, true, true]);
    assert_eq!(led_run(LedPattern::Off, 2, false), vec![false, false]);
}

#[test]
fn led_active_low_inverts() {
    let pin = FakeOutput::new();
    let _led = LedDriver::new(pin.clone(), true).unwrap();
    assert_eq!(*pin.writes.borrow(), vec![true]);
    assert_eq!(led_run(LedPattern::SolidOn, 2, true), vec![false, false]);
}

#[test]
fn led_same_pattern_keeps_phase() {
    let pin = FakeOutput::new();
    let mut led = LedDriver::new(pin.clone(), false).unwrap();
    led.set_pattern(LedPattern::FastBlink);
    led.tick().unwrap();
    led.set_pattern(LedPattern::FastBlink);
    led.tick().unwrap();
    assert_eq!(*pin.writes.borrow(), vec![false, false, true]);
}

fn button() -> (ButtonDriver<FakeInput>, Rc<Cell<bool>>) {
    let low = Rc::new(Cell::new(false));
    (ButtonDriver::new(FakeInput { low: low.clone() }, 0), low)
}

#[test]
fn button_short_press() {
    let (mut b, low) = button();
    assert_eq!(b.poll(0), None);
    low.set(true);
    assert_eq!(b.poll(100), None);
    assert!(b.is_held());
    assert_eq!(b.held_duration_ms(180), 80);
    low.set(false);
    assert_eq!(b.poll(200), Some(ButtonEvent::ShortPress));
    assert!(!b.is_held());
    assert_eq!(b.held_duration_ms(300), 0);
}

#[test]
fn button_bounce_is_ignored() {
    let (mut b, low) = button();
    low.set(true);
    assert_eq!(b.poll(1_000), None);
    low.set(false);
    assert_eq!(b.poll(1_049), None);
}

#[test]
fn button_long_press_reported_once() {
    let (mut b, low) = button();
    low.set(true);
    assert_eq!(b.poll(0), None);
    assert_eq!(b.poll(2_999), None);
    assert_eq!(b.poll(3_000), Some(ButtonEvent::LongPress));
    assert_eq!(b.poll(5_000), None);
    low.set(false);
    assert_eq!(b.poll(6_000), None);
    low.set(true);
    assert_eq!(b.poll(7_000), None);
    low.set(false);
    assert_eq!(b.poll(7_100), Some(ButtonEvent::ShortPress));
}

#[test]
fn button_update_takes_readings() {
    let (mut b, _low) = button();
    assert_eq!(b.update(true, 10), None);
    assert_eq!(b.update(false, 70), Some(ButtonEvent::ShortPress));
}

#[test]
fn button_long_press_comes_at_three_seconds_of_a_held_press() {
    let (mut b, low) = button();
    low.set(true);
    let times = [500u64, 1_000, 2_000, 3_499, 3_500, 3_600, 10_000];
    let events: Vec<Option<ButtonEvent>> = times.iter().map(|t| b.poll(*t)).collect();
    assert_eq!(events, vec![None, None, None, None, Some(ButtonEvent::LongPress), None, None]);
    low.set(false);
    assert_eq!(b.poll(10_010), None);
    assert!(!b.is_held());
}

#[test]
fn button_short_press_needs_fifty_milliseconds() {
    let (mut b, low) = button();
    low.set(true);
    assert_eq!(b.poll(1_000), None);
    assert_eq!(b.poll(1_020), None);
    low.set(false);
    assert_eq!(b.poll(1_050), Some(ButtonEvent::ShortPress));
    low.set(true);
    assert_eq!(b.poll(2_000), None);
    assert_eq!(b.poll(2_030), None);
    low.set(false);
    assert_eq!(b.poll(2_049), None);
}
