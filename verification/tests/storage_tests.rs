use smart_home_firmware::ota::{check_update, perform_update, OtaError};
use smart_home_firmware::storage::{decode_dp_bool, dp_key, encode_dp_bool, stored_ssid};
use smart_home_firmware::text::{str_equals, u8_to_decimal, byte_to_hex, underscores_to_hyphens};

#[test]
fn dp_keys() {
    assert_eq!(dp_key(1), "dp_1");
    assert_eq!(dp_key(42), "dp_42");
    assert_eq!(dp_key(255), "dp_255");
}

#[test]
fn dp_bool_encoding() {
    assert_eq!(encode_dp_bool(true), 1);
    assert_eq!(encode_dp_bool(false), 0);
    assert!(decode_dp_bool(1));
    assert!(decode_dp_bool(7));
    assert!(!decode_dp_bool(0));
    for v in [true, false] {
        assert_eq!(decode_dp_bool(encode_dp_bool(v)), v);
    }
}

#[test]
fn empty_ssid_counts_as_none() {
    assert_eq!(stored_ssid(Some("home")), Some("home".to_string()));
    assert_eq!(stored_ssid(Some("")), None);
    assert_eq!(stored_ssid(None), None);
}

#[test]
fn ota_is_not_available_yet() {
    assert_eq!(check_update("http://example.invalid"), Ok(None));
    assert_eq!(perform_update("http://example.invalid/fw.bin"), Err(OtaError::NotImplemented));
}

#[test]
fn text_helpers() {
    for n in [0u8, 9, 10, 99, 100, 255] {
        assert_eq!(u8_to_decimal(n), n.to_string());
        assert_eq!(byte_to_hex(n), format!("{:02x}", n));
    }
    assert!(str_equals("bool", "bool"));
    assert!(!str_equals("bool", "boo"));
    assert!(!str_equals("int", "inT"));
    assert_eq!(underscores_to_hyphens("a_b__c"), "a-b--c");
    assert_eq!(underscores_to_hyphens("đèn_1"), "đèn-1");
}
