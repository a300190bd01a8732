//! Names and addresses on the network, and the WiFi and HTTP decision logic.

use vstd::prelude::*;
use crate::text::{byte_to_hex, decimal, hex_byte, replace_char, u8_to_decimal, underscores_to_hyphens};

pub mod http_server;
pub mod mdns;
pub mod wifi;

verus! {

/// The last three bytes of a MAC address in lower-case hexadecimal.
pub open spec fn mac_suffix(mac: Seq<u8>) -> Seq<char> {
    hex_byte(mac[3]) + hex_byte(mac[4]) + hex_byte(mac[5])
}

/// The host name of a product on the local network: its identifier with
/// `-` for `_`, a `-`, and the MAC suffix.
pub open spec fn hostname(product_id: Seq<char>, mac: Seq<u8>) -> Seq<char> {
    replace_char(product_id, '_', '-') + seq!['-'] + mac_suffix(mac)
}

/// An IPv4 address in dotted decimal.
pub open spec fn dotted(ip: Seq<u8>) -> Seq<char> {
    decimal(ip[0]) + seq!['.'] + decimal(ip[1]) + seq!['.'] + decimal(ip[2]) + seq!['.'] + decimal(
        ip[3],
    )
}

/// The last three bytes of the station MAC address `mac`, as six lower-case
/// hexadecimal digits: what makes names of this device unique.
pub fn get_mac_suffix(mac: [u8; 6]) -> (res: String)
    ensures
        res@ == mac_suffix(mac@),
{
    let mut res = byte_to_hex(mac[3]);
    res.append(byte_to_hex(mac[4]).as_str());
    res.append(byte_to_hex(mac[5]).as_str());
    res
}

/// A unique host name, such as `switch-1g-a1b2c3`.
pub fn make_hostname(product_id: &str, mac: [u8; 6]) -> (res: String)
    ensures
        res@ == hostname(product_id@, mac@),
{
    let mut res = underscores_to_hyphens(product_id);
    let dash = "-";
    proof {
        reveal_strlit("-");
    }
    assert(dash@ =~= seq!['-']);
    res.append(dash);
    res.append(get_mac_suffix(mac).as_str());
    res
}

/// `ip` in dotted decimal, such as `192.168.1.100`.
pub fn ip_to_string(ip: [u8; 4]) -> (res: String)
    ensures
        res@ == dotted(ip@),
{
    let dot = ".";
    proof {
        reveal_strlit(".");
    }
    assert(dot@ =~= seq!['.']);
    let mut res = u8_to_decimal(ip[0]);
    res.append(dot);
    res.append(u8_to_decimal(ip[1]).as_str());
    res.append(dot);
    res.append(u8_to_decimal(ip[2]).as_str());
    res.append(dot);
    res.append(u8_to_decimal(ip[3]).as_str());
    res
}

} // verus!
