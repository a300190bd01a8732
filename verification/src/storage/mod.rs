//! How the firmware lays out what it keeps in flash (NVS): WiFi credentials
//! and data-point states, under keys of one namespace.

use vstd::prelude::*;
use crate::text::{decimal, lemma_decimal_injective, u8_to_decimal};

verus! {

/// The NVS namespace of the firmware.
pub const NVS_NAMESPACE: &'static str = "smarthome";

/// Key of the WiFi SSID.
pub const KEY_WIFI_SSID: &'static str = "wifi_ssid";

/// Key of the WiFi password.
pub const KEY_WIFI_PASS: &'static str = "wifi_pass";

/// Prefix of the key of a data point's state.
pub const KEY_DP_PREFIX: &'static str = "dp_";

/// Bytes read back for an SSID: 32 and a terminating zero.
pub const SSID_BUFFER_LEN: usize = 33;

/// Bytes read back for a password: 64 and a terminating zero.
pub const PASSWORD_BUFFER_LEN: usize = 65;

/// Longest key that NVS takes, in bytes.
pub const NVS_KEY_MAX_LEN: usize = 15;

/// The key under which the state of data point `dp_id` is kept.
pub open spec fn dp_key_text(dp_id: u8) -> Seq<char> {
    KEY_DP_PREFIX@ + decimal(dp_id)
}

/// The key of data point `dp_id`: `dp_` and the identifier in decimal.
pub fn dp_key(dp_id: u8) -> (res: String)
    ensures
        res@ == dp_key_text(dp_id),
{
    let mut key = String::from_str(KEY_DP_PREFIX);
    key.append(u8_to_decimal(dp_id).as_str());
    key
}

/// Distinct data points are kept under distinct keys, each short enough for
/// NVS.
pub proof fn lemma_dp_keys_distinct(a: u8, b: u8)
    ensures
        dp_key_text(a) == dp_key_text(b) ==> a == b,
        dp_key_text(a).len() <= NVS_KEY_MAX_LEN,
{
    reveal_strlit("dp_");
    if dp_key_text(a) == dp_key_text(b) {
        assert(decimal(a) =~= dp_key_text(a).skip(3));
        assert(decimal(b) =~= dp_key_text(b).skip(3));
        lemma_decimal_injective(a, b);
    }
}

/// The byte that stores boolean state `value`: 1 for on, 0 for off.
pub open spec fn dp_bool_byte(value: bool) -> u8 {
    if value {
        1
    } else {
        0
    }
}

/// The boolean state that stored byte `raw` stands for: any byte but 0 is on.
pub open spec fn dp_bool_of_byte(raw: u8) -> bool {
    raw != 0
}

/// The byte that stores a boolean state.
pub fn encode_dp_bool(value: bool) -> (res: u8)
    ensures
        res == dp_bool_byte(value),
{
    if value {
        1
    } else {
        0
    }
}

/// The boolean state a stored byte stands for.
pub fn decode_dp_bool(raw: u8) -> (res: bool)
    ensures
        res == dp_bool_of_byte(raw),
{
    raw != 0
}

/// A boolean state reads back as it was stored.
pub proof fn lemma_dp_bool_round_trip(value: bool)
    ensures
        dp_bool_of_byte(dp_bool_byte(value)) == value,
{
}

/// The SSID kept, as the firmware takes it: an empty one counts as none.
pub fn stored_ssid(raw: Option<&str>) -> (res: Option<String>)
    ensures
        match raw {
            Some(s) => if s@.len() > 0 {
                res matches Some(t) && t@ == s@
            } else {
                res is None
            },
            None => res is None,
        },
{
    match raw {
        Some(s) => {
            if !s.is_empty() {
                Some(String::from_str(s))
            } else {
                None
            }
        },
        None => None,
    }
}

} // verus!
