use smart_home_firmware::config::switch_1g;
use smart_home_firmware::dp::manager::DpManager;
use smart_home_firmware::dp::codec::CodecError;
use smart_home_firmware::dp::types::{DpError, DpValue};
use smart_home_firmware::json::{JsonNumber, JsonValue};
use smart_home_firmware::network::http_server::{handle_dp_write, info_body, ok_reply, parse_id, ApiError};
use smart_home_firmware::network::wifi::{
    after_attempt, client_config, AuthMethod, ConnectStep, WifiError, WifiManager, MAX_RETRY,
};
use smart_home_firmware::network::{get_mac_suffix, ip_to_string, make_hostname, mdns};
use smart_home_firmware::provisioning::softap_prov::{
    ap_config, softap_ssid, ProvisionError, ProvisionRequest, SoftApProvisioning,
};

const MAC: [u8; 6] = [0x24, 0x0a, 0xc4, 0xa1, 0xb2, 0x0c];

#[test]
fn mac_suffix_and_hostname() {
    assert_eq!(get_mac_suffix(MAC), "a1b20c");
    assert_eq!(make_hostname("switch_1g", MAC), "switch-1g-a1b20c");
    assert_eq!(mdns::make_hostname("smart_plug", MAC), "smart-plug-a1b20c");
    assert_eq!(softap_ssid(MAC), "SmartHome-a1b20c");
}

#[test]
fn ip_in_dotted_decimal() {
    assert_eq!(ip_to_string([192, 168, 1, 100]), "192.168.1.100");
    assert_eq!(ip_to_string([0, 9, 10, 255]), "0.9.10.255");
}

#[test]
fn wifi_config_checks_lengths() {
    let c = client_config("home", "secret").unwrap();
    assert_eq!(c.ssid, "home");
    assert_eq!(c.password, "secret");
    assert_eq!(c.auth_method, AuthMethod::WPA2Personal);
    assert_eq!(client_config("cafe", "").unwrap().auth_method, AuthMethod::Open);
    let long_ssid = "x".repeat(33);
    assert_eq!(client_config(&long_ssid, "p").unwrap_err(), WifiError::SsidTooLong);
    assert!(client_config(&"x".repeat(32), "p").is_ok());
    let long_pass = "p".repeat(65);
    assert_eq!(client_config("home", &long_pass).unwrap_err(), WifiError::PasswordTooLong);
    // Lengths are in bytes: eleven three-byte characters make 33 bytes.
    assert_eq!(client_config(&"ệ".repeat(11), "").unwrap_err(), WifiError::SsidTooLong);
}

#[test]
fn wifi_retries_then_gives_up() {
    assert_eq!(after_attempt(1, true), ConnectStep::Done);
    assert_eq!(after_attempt(1, false), ConnectStep::RetryAfter(2000));
    assert_eq!(after_attempt(MAX_RETRY - 1, false), ConnectStep::RetryAfter(2000));
    assert_eq!(after_attempt(MAX_RETRY, false), ConnectStep::GiveUp);
    assert_eq!(after_attempt(MAX_RETRY, true), ConnectStep::Done);
}

#[test]
fn wifi_manager_state() {
    let mut w = WifiManager::new();
    assert!(!w.is_connected());
    assert_eq!(w.ip_address(), None);
    let c = client_config("home", "pw").unwrap();
    w.record_connected(&c, [10, 0, 0, 7]);
    assert!(w.is_connected());
    assert_eq!(w.ssid(), "home");
    assert_eq!(w.ip_address(), Some([10, 0, 0, 7]));
    assert!(!w.ensure_connected(true));
    assert!(w.is_connected());
    assert!(w.ensure_connected(false));
    assert!(!w.is_connected());
    w.disconnect();
    assert_eq!(w.ip_address(), None);
}

#[test]
fn provisioning_replies() {
    let mut p = SoftApProvisioning::new(1_000);
    assert_eq!(p.get_credentials(), None);
    let r = p.handle_provision(Ok(ProvisionRequest { ssid: String::new(), password: "x".into() }));
    assert_eq!(r, "{\"ok\":false,\"error\":\"SSID empty\"}");
    assert_eq!(p.get_credentials(), None);
    let r = p.handle_provision(Err("EOF while parsing a value at line 1 column 0".into()));
    assert_eq!(r, "{\"ok\":false,\"error\":\"EOF while parsing a value at line 1 column 0\"}");
    let r = p.handle_provision(Ok(ProvisionRequest { ssid: "home".into(), password: "pw".into() }));
    assert_eq!(r, "{\"ok\":true}");
    assert_eq!(p.get_credentials(), Some(("home".to_string(), "pw".to_string())));
    let _ = p.handle_provision(Ok(ProvisionRequest { ssid: String::new(), password: String::new() }));
    assert_eq!(p.get_credentials(), Some(("home".to_string(), "pw".to_string())));
}

#[test]
fn provisioning_times_out_after_five_minutes() {
    let p = SoftApProvisioning::new(1_000);
    assert!(!p.is_timed_out(300_999));
    assert!(p.is_timed_out(301_000));
    assert!(!p.is_timed_out(0));
}

#[test]
fn access_point_config() {
    let c = ap_config("SmartHome-a1b20c").unwrap();
    assert_eq!(c.ssid, "SmartHome-a1b20c");
    assert_eq!(c.channel, 6);
    assert_eq!(c.max_connections, 4);
    assert_eq!(ap_config(&"s".repeat(33)).unwrap_err(), ProvisionError::ApSsidTooLong);
}

#[test]
fn info_body_members() {
    let body = info_body("Smart Switch 1 Gang", "1.0.0", [192, 168, 1, 100]);
    assert_eq!(
        body,
        JsonValue::Object(vec![
            ("ip".to_string(), JsonValue::String("192.168.1.100".to_string())),
            ("product_name".to_string(), JsonValue::String("Smart Switch 1 Gang".to_string())),
            ("version".to_string(), JsonValue::String("1.0.0".to_string())),
        ])
    );
    assert_eq!(ok_reply(), "{\"ok\":true}");
}

#[test]
fn parse_dp_ids() {
    assert_eq!(parse_id("1"), Some(1));
    assert_eq!(parse_id("255"), Some(255));
    assert_eq!(parse_id("007"), Some(7));
    assert_eq!(parse_id("256"), None);
    assert_eq!(parse_id("99999999999"), None);
    assert_eq!(parse_id(""), None);
    assert_eq!(parse_id("1a"), None);
    assert_eq!(parse_id("-1"), None);
}

fn body(value: JsonValue) -> JsonValue {
    JsonValue::Object(vec![("value".to_string(), value)])
}

#[test]
fn dp_write_endpoint() {
    let product = switch_1g();
    let mut m = DpManager::new(&product.data_points);
    assert_eq!(handle_dp_write(&mut m, "1", &body(JsonValue::Bool(true))), Ok(()));
    assert_eq!(m.get(1), Some(DpValue::Bool(true)));
    assert_eq!(handle_dp_write(&mut m, "2", &body(JsonValue::Number(JsonNumber::PosInt(300)))), Ok(()));
    assert_eq!(m.get(2), Some(DpValue::Int(300)));
    assert_eq!(handle_dp_write(&mut m, "x", &body(JsonValue::Bool(true))), Err(ApiError::BadId));
    assert_eq!(
        handle_dp_write(&mut m, "9", &body(JsonValue::Bool(true))),
        Err(ApiError::Rejected(DpError::NotFound { id: 9 }))
    );
    assert_eq!(handle_dp_write(&mut m, "1", &JsonValue::Bool(true)), Err(ApiError::MissingValue));
    assert_eq!(
        handle_dp_write(&mut m, "1", &body(JsonValue::Number(JsonNumber::PosInt(1)))),
        Err(ApiError::BadValue(CodecError::ExpectedBool))
    );
    assert_eq!(
        handle_dp_write(&mut m, "2", &body(JsonValue::Number(JsonNumber::PosInt(90000)))),
        Err(ApiError::Rejected(DpError::OutOfRange { id: 2, value: 90000, min: 0, max: 86400 }))
    );
    assert_eq!(m.get(1), Some(DpValue::Bool(true)));
    assert_eq!(m.get(2), Some(DpValue::Int(300)));
}

#[test]
fn latest_taken_post_gives_the_credentials() {
    let mut p = SoftApProvisioning::new(0);
    let _ = p.handle_provision(Ok(ProvisionRequest { ssid: "first".into(), password: "1".into() }));
    let _ = p.handle_provision(Ok(ProvisionRequest { ssid: "second".into(), password: "2".into() }));
    let _ = p.handle_provision(Err("expected value".into()));
    let _ = p.handle_provision(Ok(ProvisionRequest { ssid: String::new(), password: "3".into() }));
    assert_eq!(p.get_credentials(), Some(("second".to_string(), "2".to_string())));
    // Reading them does not clear them.
    assert_eq!(p.get_credentials(), Some(("second".to_string(), "2".to_string())));
}
