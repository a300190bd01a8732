use std::sync::{Arc, Mutex};

use smart_home_firmware::config::{smart_plug, switch_1g, switch_2g, switch_3g};
use smart_home_firmware::dp::manager::{DpChangeListener, DpManager};
use smart_home_firmware::dp::types::{DpDefinition, DpError, DpType, DpValue, validate_value};

struct Recorder {
    seen: Arc<Mutex<Vec<(u8, Option<DpValue>, DpValue)>>>,
}

impl DpChangeListener for Recorder {
    fn on_dp_change(&self, dp_id: u8, old_value: Option<&DpValue>, new_value: &DpValue) {
        self.seen.lock().unwrap().push((dp_id, old_value.cloned(), new_value.clone()));
    }
}

fn sample_defs() -> Vec<DpDefinition> {
    vec![
        DpDefinition { id: 1, name: "switch_1", dp_type: DpType::Bool, writable: true },
        DpDefinition { id: 2, name: "countdown_1", dp_type: DpType::Int { min: 0, max: 86400 }, writable: true },
        DpDefinition {
            id: 3,
            name: "mode",
            dp_type: DpType::Enum(vec!["eco".to_string(), "comfort".to_string()]),
            writable: true,
        },
        DpDefinition { id: 4, name: "label", dp_type: DpType::StringType { max_len: 4 }, writable: true },
        DpDefinition { id: 5, name: "power", dp_type: DpType::Int { min: 0, max: 50000 }, writable: false },
    ]
}

#[test]
fn new_manager_holds_defaults() {
    let defs = sample_defs();
    let m = DpManager::new(&defs);
    assert_eq!(m.get(1), Some(DpValue::Bool(false)));
    assert_eq!(m.get(2), Some(DpValue::Int(0)));
    assert_eq!(m.get(3), Some(DpValue::Enum(0)));
    assert_eq!(m.get(4), Some(DpValue::Str(String::new())));
    assert_eq!(m.get(5), Some(DpValue::Int(0)));
    assert_eq!(m.get(6), None);
    assert_eq!(m.definitions().len(), 5);
}

#[test]
fn later_definition_gives_the_default() {
    let defs = vec![
        DpDefinition { id: 9, name: "a", dp_type: DpType::Bool, writable: true },
        DpDefinition { id: 9, name: "b", dp_type: DpType::Int { min: 5, max: 10 }, writable: true },
    ];
    let m = DpManager::new(&defs);
    assert_eq!(m.get(9), Some(DpValue::Int(5)));
}

#[test]
fn write_then_read_back() {
    let defs = sample_defs();
    let mut m = DpManager::new(&defs);
    assert_eq!(m.set(1, DpValue::Bool(true)), Ok(()));
    assert_eq!(m.get(1), Some(DpValue::Bool(true)));
    assert_eq!(m.set(2, DpValue::Int(86400)), Ok(()));
    assert_eq!(m.get(2), Some(DpValue::Int(86400)));
    assert_eq!(m.set(3, DpValue::Enum(1)), Ok(()));
    assert_eq!(m.get(3), Some(DpValue::Enum(1)));
    assert_eq!(m.set(4, DpValue::Str("abcd".to_string())), Ok(()));
    assert_eq!(m.get(4), Some(DpValue::Str("abcd".to_string())));
}

#[test]
fn refused_writes_change_nothing() {
    let defs = sample_defs();
    let mut m = DpManager::new(&defs);
    let before = m.snapshot();
    assert_eq!(m.set(42, DpValue::Bool(true)), Err(DpError::NotFound { id: 42 }));
    assert_eq!(m.set(5, DpValue::Int(10)), Err(DpError::NotWritable { id: 5 }));
    assert_eq!(
        m.set(2, DpValue::Int(86401)),
        Err(DpError::OutOfRange { id: 2, value: 86401, min: 0, max: 86400 })
    );
    assert_eq!(
        m.set(2, DpValue::Int(-1)),
        Err(DpError::OutOfRange { id: 2, value: -1, min: 0, max: 86400 })
    );
    assert_eq!(
        m.set(3, DpValue::Enum(2)),
        Err(DpError::EnumIndexOutOfRange { id: 3, index: 2, variants: 2 })
    );
    // "chào" is four characters but five bytes.
    assert_eq!(
        m.set(4, DpValue::Str("chào".to_string())),
        Err(DpError::StringTooLong { id: 4, len: 5, max_len: 4 })
    );
    assert_eq!(m.set(1, DpValue::Int(1)), Err(DpError::TypeMismatch { id: 1 }));
    assert_eq!(m.snapshot(), before);
}

#[test]
fn listeners_hear_accepted_writes_in_order() {
    let defs = sample_defs();
    let mut m = DpManager::new(&defs);
    let seen_a = Arc::new(Mutex::new(Vec::new()));
    let seen_b = Arc::new(Mutex::new(Vec::new()));
    m.on_change(Box::new(Recorder { seen: seen_a.clone() }));
    m.on_change(Box::new(Recorder { seen: seen_b.clone() }));
    m.set(1, DpValue::Bool(true)).unwrap();
    let _ = m.set(1, DpValue::Int(3));
    m.set(1, DpValue::Bool(false)).unwrap();
    let expected = vec![
        (1, None, DpValue::Bool(true)),
        (1, Some(DpValue::Bool(true)), DpValue::Bool(false)),
    ];
    assert_eq!(*seen_a.lock().unwrap(), expected);
    assert_eq!(*seen_b.lock().unwrap(), expected);
}

#[test]
fn snapshot_is_sorted_by_id() {
    let defs = vec![
        DpDefinition { id: 200, name: "c", dp_type: DpType::Bool, writable: true },
        DpDefinition { id: 3, name: "a", dp_type: DpType::Int { min: -5, max: 5 }, writable: true },
        DpDefinition { id: 17, name: "b", dp_type: DpType::Bool, writable: true },
        DpDefinition { id: 0, name: "z", dp_type: DpType::Bool, writable: true },
        DpDefinition { id: 255, name: "y", dp_type: DpType::Bool, writable: true },
    ];
    let mut m = DpManager::new(&defs);
    m.set(17, DpValue::Bool(true)).unwrap();
    assert_eq!(
        m.snapshot(),
        vec![
            (0, DpValue::Bool(false)),
            (3, DpValue::Int(-5)),
            (17, DpValue::Bool(true)),
            (200, DpValue::Bool(false)),
            (255, DpValue::Bool(false)),
        ]
    );
}

#[test]
fn validate_value_reports_the_error() {
    let defs = sample_defs();
    assert_eq!(validate_value(&defs[0], &DpValue::Bool(true)), Ok(()));
    assert_eq!(validate_value(&defs[1], &DpValue::Bool(true)), Err(DpError::TypeMismatch { id: 2 }));
}

#[test]
fn as_bool_and_as_int() {
    assert_eq!(DpValue::Bool(true).as_bool(), Some(true));
    assert_eq!(DpValue::Int(5).as_bool(), None);
    assert_eq!(DpValue::Int(5).as_int(), Some(5));
    assert_eq!(DpValue::Enum(5).as_int(), None);
}

#[test]
fn products_start_with_defaults() {
    for product in [switch_1g(), switch_2g(), switch_3g(), smart_plug()] {
        let m = DpManager::new(&product.data_points);
        let snap = m.snapshot();
        assert_eq!(snap.len(), product.data_points.len());
        assert_eq!(product.relay_pins.len(), product.button_pins.len());
    }
    let plug = smart_plug();
    let mut m = DpManager::new(&plug.data_points);
    assert_eq!(m.set(3, DpValue::Int(100)), Err(DpError::NotWritable { id: 3 }));
    assert_eq!(m.set(1, DpValue::Bool(true)), Ok(()));
    assert_eq!(plug.product_id, "smart_plug");
    assert_eq!(plug.power_cf_pin, Some(6));
    assert_eq!(switch_1g().firmware_version, "1.0.0");
}

#[test]
fn display_strings() {
    assert_eq!(DpValue::Bool(true).to_display_string(), "true");
    assert_eq!(DpValue::Bool(false).to_display_string(), "false");
    assert_eq!(DpValue::Int(0).to_display_string(), "0");
    assert_eq!(DpValue::Int(-5).to_display_string(), "-5");
    assert_eq!(DpValue::Int(86400).to_display_string(), "86400");
    assert_eq!(DpValue::Int(i32::MIN).to_display_string(), i32::MIN.to_string());
    assert_eq!(DpValue::Int(i32::MAX).to_display_string(), i32::MAX.to_string());
    assert_eq!(DpValue::Enum(7).to_display_string(), "7");
    assert_eq!(DpValue::Str("đèn".to_string()).to_display_string(), "đèn");
}

#[test]
fn first_write_reports_no_earlier_value_per_data_point() {
    let defs = sample_defs();
    let mut m = DpManager::new(&defs);
    let seen = Arc::new(Mutex::new(Vec::new()));
    m.on_change(Box::new(Recorder { seen: seen.clone() }));
    m.set(2, DpValue::Int(60)).unwrap();
    m.set(1, DpValue::Bool(true)).unwrap();
    m.set(2, DpValue::Int(120)).unwrap();
    assert_eq!(
        *seen.lock().unwrap(),
        vec![
            (2, None, DpValue::Int(60)),
            (1, None, DpValue::Bool(true)),
            (2, Some(DpValue::Int(60)), DpValue::Int(120)),
        ]
    );
}

#[test]
fn writes_keep_the_set_of_data_points() {
    let defs = sample_defs();
    let mut m = DpManager::new(&defs);
    m.set(1, DpValue::Bool(true)).unwrap();
    let _ = m.set(9, DpValue::Bool(true));
    let _ = m.set(5, DpValue::Int(10));
    m.set(4, DpValue::Str("ab".into())).unwrap();
    for id in 0..=255u8 {
        assert_eq!(m.get(id).is_some(), (1..=5).contains(&id));
    }
    assert_eq!(m.snapshot().len(), 5);
}

#[test]
fn snapshot_counts_each_identifier_once() {
    let defs = vec![
        DpDefinition { id: 7, name: "a", dp_type: DpType::Bool, writable: true },
        DpDefinition { id: 7, name: "b", dp_type: DpType::Int { min: 1, max: 3 }, writable: true },
        DpDefinition { id: 2, name: "c", dp_type: DpType::Bool, writable: true },
    ];
    let m = DpManager::new(&defs);
    assert_eq!(m.snapshot(), vec![(2, DpValue::Bool(false)), (7, DpValue::Int(1))]);
}

#[test]
fn refused_writes_and_registration_tell_no_listener() {
    let defs = sample_defs();
    let mut m = DpManager::new(&defs);
    let seen = Arc::new(Mutex::new(Vec::new()));
    m.on_change(Box::new(Recorder { seen: seen.clone() }));
    assert!(seen.lock().unwrap().is_empty());
    assert!(m.set(9, DpValue::Bool(true)).is_err());
    assert!(m.set(5, DpValue::Int(100)).is_err());
    assert!(m.set(2, DpValue::Int(-1)).is_err());
    assert!(m.set(1, DpValue::Int(1)).is_err());
    assert!(seen.lock().unwrap().is_empty());
    assert_eq!(m.get(5), Some(DpValue::Int(0)));
}
