use std::cell::RefCell;
use std::rc::Rc;

use smart_home_firmware::config::switch_1g;
use smart_home_firmware::dp::manager::DpManager;
use smart_home_firmware::dp::types::DpValue;
use smart_home_firmware::drivers::led::{LedDriver, LedPattern};
use smart_home_firmware::drivers::relay::RelayDriver;
use smart_home_firmware::drivers::{OutputPin, PinError};
use smart_home_firmware::firmware::{handle_long_press, handle_short_press, pattern_for_relay, restorable_dps, tasks_due};

#[derive(Clone)]
struct Out(Rc<RefCell<Vec<bool>>>);

impl OutputPin for Out {
    fn level(&self) -> bool {
        self.0.borrow().last().copied().unwrap_or(false)
    }

    fn set_level(&mut self, high: bool) -> Result<(), PinError> {
        self.0.borrow_mut().push(high);
        Ok(())
    }
}

#[test]
fn short_press_keeps_relay_dp_and_led_together() {
    let product = switch_1g();
    let mut manager = DpManager::new(&product.data_points);
    let mut relay = RelayDriver::new(Out(Rc::new(RefCell::new(Vec::new()))), 0).unwrap();
    let mut led = LedDriver::new(Out(Rc::new(RefCell::new(Vec::new()))), false).unwrap();
    assert_eq!(handle_short_press(&mut relay, &mut led, &mut manager, 10_000), Ok(true));
    assert!(relay.is_on());
    assert_eq!(manager.get(1), Some(DpValue::Bool(true)));
    assert_eq!(led.current_pattern(), LedPattern::SolidOn);
    // Too soon after: the relay stays on, and so do the data point and LED.
    assert_eq!(handle_short_press(&mut relay, &mut led, &mut manager, 10_050), Ok(true));
    assert_eq!(handle_short_press(&mut relay, &mut led, &mut manager, 10_300), Ok(false));
    assert_eq!(manager.get(1), Some(DpValue::Bool(false)));
    assert_eq!(led.current_pattern(), LedPattern::Off);
}

#[test]
fn schedule_and_patterns() {
    assert_eq!(tasks_due(0), (true, true));
    assert_eq!(tasks_due(10), (true, false));
    assert_eq!(tasks_due(15), (false, false));
    assert_eq!(tasks_due(3000), (true, true));
    assert_eq!(pattern_for_relay(true), LedPattern::SolidOn);
    assert_eq!(pattern_for_relay(false), LedPattern::Off);
}

#[test]
fn boolean_dps_are_restored() {
    let product = switch_1g();
    assert_eq!(restorable_dps(&product.data_points), vec![1]);
    let p3 = smart_home_firmware::config::switch_3g();
    assert_eq!(restorable_dps(&p3.data_points), vec![1, 2, 3]);
}

#[test]
fn long_press_blinks_fast() {
    let mut led = LedDriver::new(Out(Rc::new(RefCell::new(Vec::new()))), false).unwrap();
    led.set_pattern(LedPattern::SolidOn);
    handle_long_press(&mut led);
    assert_eq!(led.current_pattern(), LedPattern::FastBlink);
}
