//! The decisions of the firmware's main loop: what a button press does to
//! the relay, the data points and the LED, and when each periodic task runs.

use vstd::prelude::*;
use crate::dp::manager::{DpManager, find_definition, set_outcome};
use crate::dp::types::{DpDefinition, DpType, DpValue, DpValueView};
use crate::drivers::{OutputPin, PinError};
use crate::drivers::led::{LedDriver, LedPattern};
use crate::drivers::relay::{RelayDriver, switch_allowed};

verus! {

/// Period of the main loop (ms).
pub const LOOP_PERIOD_MS: u64 = 10;

/// Loop turns between two LED ticks: 100 ms.
pub const LED_TICK_EVERY: u32 = 10;

/// Loop turns between two WiFi checks: 30 s.
pub const WIFI_CHECK_EVERY: u32 = 3000;

/// The data point that mirrors the first relay.
pub const RELAY_DP_ID: u8 = 1;

/// The LED pattern that shows a relay state: lit when on.
pub open spec fn relay_pattern(on: bool) -> LedPattern {
    if on {
        LedPattern::SolidOn
    } else {
        LedPattern::Off
    }
}

/// The LED pattern that shows relay state `on`.
pub fn pattern_for_relay(on: bool) -> (res: LedPattern)
    ensures
        res == relay_pattern(on),
{
    if on {
        LedPattern::SolidOn
    } else {
        LedPattern::Off
    }
}

/// Which periodic tasks are due at turn `tick` of the main loop: the LED
/// tick, and the WiFi check.
pub fn tasks_due(tick: u32) -> (res: (bool, bool))
    ensures
        res == (tick % LED_TICK_EVERY == 0, tick % WIFI_CHECK_EVERY == 0),
{
    (tick % LED_TICK_EVERY == 0, tick % WIFI_CHECK_EVERY == 0)
}

/// The boolean data points, whose states are kept in flash and restored at
/// start-up, in order.
pub fn restorable_dps(defs: &[DpDefinition]) -> (res: Vec<u8>)
    ensures
        res@ == defs@.filter(|d: DpDefinition| d.dp_type is Bool).map_values(|d: DpDefinition| d.id),
{
    let mut res: Vec<u8> = Vec::new();
    let n = defs.len();
    let mut i: usize = 0;
    while i < n
        invariant
            n == defs@.len(),
            0 <= i <= n,
            res@ == defs@.take(i as int).filter(|d: DpDefinition| d.dp_type is Bool).map_values(
                |d: DpDefinition| d.id,
            ),
        decreases n - i,
    {
        proof {
            reveal_with_fuel(Seq::filter, 1);
            assert(defs@.take(i + 1).drop_last() =~= defs@.take(i as int));
        }
        if let DpType::Bool = defs[i].dp_type {
            res.push(defs[i].id);
        }
        proof {
            assert(res@ =~= defs@.take(i + 1).filter(|d: DpDefinition| d.dp_type is Bool).map_values(
                |d: DpDefinition| d.id,
            ));
        }
        i = i + 1;
    }
    assert(defs@.take(n as int) =~= defs@);
    res
}

/// A short press: toggles the relay, writes its new state to data point
/// [`RELAY_DP_ID`] (a refused write is ignored), and shows it on the LED.
/// Returns the relay state, to be kept in flash.
pub fn handle_short_press<P: OutputPin, Q: OutputPin>(
    relay: &mut RelayDriver<P>,
    led: &mut LedDriver<Q>,
    manager: &mut DpManager,
    now_ms: u64,
) -> (res: Result<bool, PinError>)
    ensures
        final(manager).defs() == old(manager).defs(),
        old(manager).wf() ==> final(manager).wf(),
        final(led).is_active_low() == old(led).is_active_low(),
        final(led).driven_level() == old(led).driven_level(),
        switch_allowed(old(relay).last_switch(), now_ms) ==> match res {
            Ok(on) => on == !old(relay).on() && final(relay).on() == on && final(relay).pin_level() == on,
            Err(_) => final(relay).on() == old(relay).on() && final(relay).pin_level() == old(
                relay,
            ).pin_level(),
        },
        !switch_allowed(old(relay).last_switch(), now_ms) ==> res == Ok::<bool, PinError>(old(relay).on())
            && final(relay).on() == old(relay).on() && final(relay).pin_level() == old(relay).pin_level(),
        match res {
            Ok(on) => {
                &&& on == final(relay).on()
                &&& final(led).pattern() == relay_pattern(on)
                &&& final(manager)@ == match set_outcome(
                    old(manager).defs(),
                    old(manager)@,
                    RELAY_DP_ID,
                    DpValueView::Bool(on),
                ) {
                    Ok(after) => after,
                    Err(_) => old(manager)@,
                }
            },
            Err(_) => final(manager)@ == old(manager)@ && final(led).pattern() == old(led).pattern(),
        },
{
    let on = relay.toggle(now_ms)?;
    let _ = manager.set(RELAY_DP_ID, DpValue::Bool(on));
    led.set_pattern(pattern_for_relay(on));
    Ok(on)
}

/// A long press: the LED blinks fast while the WiFi credentials are cleared
/// and the device restarts into provisioning.
pub fn handle_long_press<Q: OutputPin>(led: &mut LedDriver<Q>)
    ensures
        final(led).pattern() == LedPattern::FastBlink,
        final(led).is_active_low() == old(led).is_active_low(),
        final(led).driven_level() == old(led).driven_level(),
{
    led.set_pattern(LedPattern::FastBlink);
}

/// When the product defines [`RELAY_DP_ID`] as a writable boolean, the
/// write that follows a short press is accepted, and the data point then
/// holds the relay state.
pub proof fn lemma_relay_dp_follows_relay(
    defs: Seq<DpDefinition>,
    state: Map<u8, DpValueView>,
    on: bool,
)
    requires
        find_definition(defs, RELAY_DP_ID) matches Some(d) && d.writable && d.dp_type is Bool,
    ensures
        set_outcome(defs, state, RELAY_DP_ID, DpValueView::Bool(on)) matches Ok(after)
            && after[RELAY_DP_ID] == DpValueView::Bool(on),
{
}

/// Countdown timers: not run yet; the data points are left as they are.
pub fn check_countdowns(manager: &DpManager) {
}

} // verus!
