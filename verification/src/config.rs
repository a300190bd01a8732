//! The products: their pins and their data points.

use vstd::prelude::*;
use crate::dp::manager::definitions_wf;
use crate::dp::types::{DpDefinition, DpType};

verus! {

/// Firmware version reported by every product.
pub const FIRMWARE_VERSION: &'static str = "1.0.0";

/// The hardware and the data points of one product.
pub struct ProductConfig {
    pub product_id: &'static str,
    pub product_name: &'static str,
    pub firmware_version: &'static str,
    /// GPIO of each relay.
    pub relay_pins: Vec<u8>,
    /// GPIO of each button.
    pub button_pins: Vec<u8>,
    /// GPIO of the status LED.
    pub led_pin: u8,
    /// Whether the product measures power (smart plug only).
    pub has_power_meter: bool,
    pub power_cf_pin: Option<u8>,
    pub power_cf1_pin: Option<u8>,
    /// The data points, Tuya style.
    pub data_points: Vec<DpDefinition>,
}

/// The identifier, name, type and writability of each data point.
pub open spec fn dp_outline(defs: Seq<DpDefinition>) -> Seq<(u8, Seq<char>, DpType, bool)> {
    defs.map_values(|d: DpDefinition| (d.id, d.name@, d.dp_type, d.writable))
}

/// A countdown timer in seconds, up to one day.
pub open spec fn countdown_type() -> DpType {
    DpType::Int { min: 0, max: 86400 }
}

/// A product whose data points a device can be made with, with as many
/// buttons as relays.
pub open spec fn product_wf(c: ProductConfig) -> bool {
    &&& definitions_wf(c.data_points@)
    &&& c.relay_pins@.len() == c.button_pins@.len()
    &&& c.has_power_meter <==> c.power_cf_pin is Some
    &&& c.has_power_meter <==> c.power_cf1_pin is Some
}

fn dp(id: u8, name: &'static str, dp_type: DpType, writable: bool) -> (res: DpDefinition)
    ensures
        res == (DpDefinition { id, name, dp_type, writable }),
{
    DpDefinition { id, name, dp_type, writable }
}

fn countdown() -> (res: DpType)
    ensures
        res == countdown_type(),
{
    DpType::Int { min: 0, max: 86400 }
}

/// Smart switch, one gang: relay on GPIO4, button on GPIO5, LED on GPIO8.
pub fn switch_1g() -> (res: ProductConfig)
    ensures
        res.product_id@ == "switch_1g"@,
        res.product_name@ == "Smart Switch 1 Gang"@,
        res.firmware_version@ == FIRMWARE_VERSION@,
        res.relay_pins@ == seq![4u8],
        res.button_pins@ == seq![5u8],
        res.led_pin == 8,
        !res.has_power_meter,
        dp_outline(res.data_points@) == seq![
            (1u8, "switch_1"@, DpType::Bool, true),
            (2u8, "countdown_1"@, countdown_type(), true),
        ],
        product_wf(res),
{
    let data_points = vec![
        dp(1, "switch_1", DpType::Bool, true),
        dp(2, "countdown_1", countdown(), true),
    ];
    let res = ProductConfig {
        product_id: "switch_1g",
        product_name: "Smart Switch 1 Gang",
        firmware_version: FIRMWARE_VERSION,
        relay_pins: vec![4],
        button_pins: vec![5],
        led_pin: 8,
        has_power_meter: false,
        power_cf_pin: None,
        power_cf1_pin: None,
        data_points,
    };
    assert(dp_outline(res.data_points@) =~= seq![
        (1u8, "switch_1"@, DpType::Bool, true),
        (2u8, "countdown_1"@, countdown_type(), true),
    ]);
    res
}


/// Smart switch, two gangs: relays on GPIO4 and GPIO5, buttons on GPIO6 and GPIO7.
pub fn switch_2g() -> (res: ProductConfig)
    ensures
        res.product_id@ == "switch_2g"@,
        res.product_name@ == "Smart Switch 2 Gang"@,
        res.firmware_version@ == FIRMWARE_VERSION@,
        res.relay_pins@ == seq![4u8, 5u8],
        res.button_pins@ == seq![6u8, 7u8],
        res.led_pin == 8,
        !res.has_power_meter,
        dp_outline(res.data_points@) == seq![
            (1u8, "switch_1"@, DpType::Bool, true),
            (2u8, "switch_2"@, DpType::Bool, true),
            (3u8, "countdown_1"@, countdown_type(), true),
            (4u8, "countdown_2"@, countdown_type(), true),
        ],
        product_wf(res),
{
    let data_points = vec![
        dp(1, "switch_1", DpType::Bool, true),
        dp(2, "switch_2", DpType::Bool, true),
        dp(3, "countdown_1", countdown(), true),
        dp(4, "countdown_2", countdown(), true),
    ];
    let res = ProductConfig {
        product_id: "switch_2g",
        product_name: "Smart Switch 2 Gang",
        firmware_version: FIRMWARE_VERSION,
        relay_pins: vec![4, 5],
        button_pins: vec![6, 7],
        led_pin: 8,
        has_power_meter: false,
        power_cf_pin: None,
        power_cf1_pin: None,
        data_points,
    };
    assert(dp_outline(res.data_points@) =~= seq![
        (1u8, "switch_1"@, DpType::Bool, true),
            (2u8, "switch_2"@, DpType::Bool, true),
            (3u8, "countdown_1"@, countdown_type(), true),
            (4u8, "countdown_2"@, countdown_type(), true),
    ]);
    res
}

/// Smart switch, three gangs: relays on GPIO4, GPIO5 and GPIO6, buttons on GPIO7, GPIO9 and GPIO10.
pub fn switch_3g() -> (res: ProductConfig)
    ensures
        res.product_id@ == "switch_3g"@,
        res.product_name@ == "Smart Switch 3 Gang"@,
        res.firmware_version@ == FIRMWARE_VERSION@,
        res.relay_pins@ == seq![4u8, 5u8, 6u8],
        res.button_pins@ == seq![7u8, 9u8, 10u8],
        res.led_pin == 8,
        !res.has_power_meter,
        dp_outline(res.data_points@) == seq![
            (1u8, "switch_1"@, DpType::Bool, true),
            (2u8, "switch_2"@, DpType::Bool, true),
            (3u8, "switch_3"@, DpType::Bool, true),
            (4u8, "countdown_1"@, countdown_type(), true),
            (5u8, "countdown_2"@, countdown_type(), true),
            (6u8, "countdown_3"@, countdown_type(), true),
        ],
        product_wf(res),
{
    let data_points = vec![
        dp(1, "switch_1", DpType::Bool, true),
        dp(2, "switch_2", DpType::Bool, true),
        dp(3, "switch_3", DpType::Bool, true),
        dp(4, "countdown_1", countdown(), true),
        dp(5, "countdown_2", countdown(), true),
        dp(6, "countdown_3", countdown(), true),
    ];
    let res = ProductConfig {
        product_id: "switch_3g",
        product_name: "Smart Switch 3 Gang",
        firmware_version: FIRMWARE_VERSION,
        relay_pins: vec![4, 5, 6],
        button_pins: vec![7, 9, 10],
        led_pin: 8,
        has_power_meter: false,
        power_cf_pin: None,
        power_cf1_pin: None,
        data_points,
    };
    assert(dp_outline(res.data_points@) =~= seq![
        (1u8, "switch_1"@, DpType::Bool, true),
            (2u8, "switch_2"@, DpType::Bool, true),
            (3u8, "switch_3"@, DpType::Bool, true),
            (4u8, "countdown_1"@, countdown_type(), true),
            (5u8, "countdown_2"@, countdown_type(), true),
            (6u8, "countdown_3"@, countdown_type(), true),
    ]);
    res
}

/// Smart plug with a power meter (CF on GPIO6, CF1 on GPIO7); power in tenths of W, voltage in tenths of V, current in mA, energy in Wh.
pub fn smart_plug() -> (res: ProductConfig)
    ensures
        res.product_id@ == "smart_plug"@,
        res.product_name@ == "Smart Plug"@,
        res.firmware_version@ == FIRMWARE_VERSION@,
        res.relay_pins@ == seq![4u8],
        res.button_pins@ == seq![5u8],
        res.led_pin == 8,
        res.has_power_meter,
        res.power_cf_pin == Some(6u8),
        res.power_cf1_pin == Some(7u8),
        dp_outline(res.data_points@) == seq![
            (1u8, "switch"@, DpType::Bool, true),
            (2u8, "countdown"@, countdown_type(), true),
            (3u8, "power"@, DpType::Int { min: 0, max: 50000 }, false),
            (4u8, "voltage"@, DpType::Int { min: 0, max: 2600 }, false),
            (5u8, "current"@, DpType::Int { min: 0, max: 30000 }, false),
            (6u8, "energy"@, DpType::Int { min: 0, max: i32::MAX }, false),
        ],
        product_wf(res),
{
    let data_points = vec![
        dp(1, "switch", DpType::Bool, true),
        dp(2, "countdown", countdown(), true),
        dp(3, "power", DpType::Int { min: 0, max: 50000 }, false),
        dp(4, "voltage", DpType::Int { min: 0, max: 2600 }, false),
        dp(5, "current", DpType::Int { min: 0, max: 30000 }, false),
        dp(6, "energy", DpType::Int { min: 0, max: i32::MAX }, false),
    ];
    let res = ProductConfig {
        product_id: "smart_plug",
        product_name: "Smart Plug",
        firmware_version: FIRMWARE_VERSION,
        relay_pins: vec![4],
        button_pins: vec![5],
        led_pin: 8,
        has_power_meter: true,
        power_cf_pin: Some(6),
        power_cf1_pin: Some(7),
        data_points,
    };
    assert(dp_outline(res.data_points@) =~= seq![
        (1u8, "switch"@, DpType::Bool, true),
            (2u8, "countdown"@, countdown_type(), true),
            (3u8, "power"@, DpType::Int { min: 0, max: 50000 }, false),
            (4u8, "voltage"@, DpType::Int { min: 0, max: 2600 }, false),
            (5u8, "current"@, DpType::Int { min: 0, max: 30000 }, false),
            (6u8, "energy"@, DpType::Int { min: 0, max: i32::MAX }, false),
    ]);
    res
}

} // verus!
