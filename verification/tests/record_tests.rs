use batterybar::record::{Field, ReadError, Record, TypedValue};
use batterybar::snapshot::{
    select_source, time_estimate, PowerSnapshot, PowerSourceState, AC_POWER_VALUE,
    BATTERY_POWER_VALUE, CURRENT_CAPACITY_KEY, MAX_CAPACITY_KEY, POWER_SOURCE_STATE_KEY,
    TIME_REMAINING_UNKNOWN, TIME_TO_EMPTY_KEY, TIME_TO_FULL_CHARGE_KEY,
};

fn record(state: &str, current: i64, max: i64, empty: i64, full: i64) -> Record {
    let mut r = Record::new();
    r.push("Power Source State", TypedValue::Text(String::from(state)));
    r.push("Current Capacity", TypedValue::Integer(current));
    r.push("Max Capacity", TypedValue::Integer(max));
    r.push("Time to Empty", TypedValue::Integer(empty));
    r.push("Time to Full Charge", TypedValue::Integer(full));
    r.push("Is Charging", TypedValue::Boolean(false));
    r
}

fn without(r: &Record, key: &str) -> Record {
    Record { fields: r.fields.iter().filter(|f| f.key != key).cloned().collect() }
}

fn with(r: &Record, key: &str, value: TypedValue) -> Record {
    let mut fields: Vec<Field> = Vec::new();
    for f in r.fields.iter() {
        if f.key == key {
            fields.push(Field { key: f.key.clone(), value: value.clone() });
        } else {
            fields.push(f.clone());
        }
    }
    Record { fields }
}

#[test]
fn keys_and_values_are_the_platform_ones() {
    assert_eq!(POWER_SOURCE_STATE_KEY, "Power Source State");
    assert_eq!(CURRENT_CAPACITY_KEY, "Current Capacity");
    assert_eq!(MAX_CAPACITY_KEY, "Max Capacity");
    assert_eq!(TIME_TO_EMPTY_KEY, "Time to Empty");
    assert_eq!(TIME_TO_FULL_CHARGE_KEY, "Time to Full Charge");
    assert_eq!(AC_POWER_VALUE, "AC Power");
    assert_eq!(BATTERY_POWER_VALUE, "Battery Power");
    assert_eq!(TIME_REMAINING_UNKNOWN, -1);
}

#[test]
fn new_record_holds_nothing() {
    let r = Record::new();
    assert!(r.fields.is_empty());
    assert_eq!(r.get("Max Capacity"), None);
    assert_eq!(r.get(""), None);
}

#[test]
fn push_adds_at_the_end() {
    let mut r = Record::new();
    r.push("a", TypedValue::Integer(1));
    r.push("b", TypedValue::Text(String::from("x")));
    assert_eq!(
        r.fields,
        vec![
            Field { key: String::from("a"), value: TypedValue::Integer(1) },
            Field { key: String::from("b"), value: TypedValue::Text(String::from("x")) },
        ]
    );
}

#[test]
fn get_finds_each_kind_of_value() {
    let r = record("Battery Power", 40, 100, 90, 0);
    assert_eq!(r.get("Power Source State"), Some(&TypedValue::Text(String::from("Battery Power"))));
    assert_eq!(r.get("Current Capacity"), Some(&TypedValue::Integer(40)));
    assert_eq!(r.get("Is Charging"), Some(&TypedValue::Boolean(false)));
    assert_eq!(r.get("Name"), None);
    assert_eq!(r.get("current capacity"), None);
    assert_eq!(r.get("Current Capacity "), None);
}

#[test]
fn get_takes_the_first_entry_of_a_key() {
    let mut r = Record::new();
    r.push("k", TypedValue::Integer(1));
    r.push("k", TypedValue::Integer(2));
    r.push("k", TypedValue::Text(String::from("three")));
    assert_eq!(r.get("k"), Some(&TypedValue::Integer(1)));
    assert_eq!(r.get_int("k"), Ok(1));
    assert_eq!(r.get_string("k"), Err(ReadError::TypeMismatch(String::from("k"))));
}

#[test]
fn get_string_checks_presence_and_type() {
    let r = record("AC Power", 40, 100, 0, 30);
    assert_eq!(r.get_string("Power Source State"), Ok(String::from("AC Power")));
    assert_eq!(r.get_string("Name"), Err(ReadError::FieldMissing(String::from("Name"))));
    assert_eq!(
        r.get_string("Max Capacity"),
        Err(ReadError::TypeMismatch(String::from("Max Capacity")))
    );
    assert_eq!(r.get_string("Is Charging"), Err(ReadError::TypeMismatch(String::from("Is Charging"))));
}

#[test]
fn get_int_checks_presence_and_type() {
    let r = record("AC Power", 40, 100, 0, 30);
    assert_eq!(r.get_int("Max Capacity"), Ok(100));
    assert_eq!(r.get_int("Time to Full Charge"), Ok(30));
    assert_eq!(r.get_int("Cycles"), Err(ReadError::FieldMissing(String::from("Cycles"))));
    assert_eq!(
        r.get_int("Power Source State"),
        Err(ReadError::TypeMismatch(String::from("Power Source State")))
    );
    assert_eq!(r.get_int("Is Charging"), Err(ReadError::TypeMismatch(String::from("Is Charging"))));
}

#[test]
fn state_from_text() {
    assert_eq!(PowerSourceState::from_text("Battery Power"), PowerSourceState::OnBattery);
    assert_eq!(PowerSourceState::from_text("AC Power"), PowerSourceState::OnACPower);
    assert_eq!(PowerSourceState::from_text("Off Line"), PowerSourceState::Unknown);
    assert_eq!(PowerSourceState::from_text(""), PowerSourceState::Unknown);
    assert_eq!(PowerSourceState::from_text("battery power"), PowerSourceState::Unknown);
    assert_eq!(PowerSourceState::from_text("AC Power "), PowerSourceState::Unknown);
}

#[test]
fn time_estimate_drops_zero_and_the_unknown_number() {
    assert_eq!(time_estimate(0), None);
    assert_eq!(time_estimate(-1), None);
    assert_eq!(time_estimate(1), Some(1));
    assert_eq!(time_estimate(125), Some(125));
    assert_eq!(time_estimate(-2), Some(-2));
    assert_eq!(time_estimate(i64::MAX), Some(i64::MAX));
}

#[test]
fn select_source_takes_the_first() {
    let none: Vec<Record> = Vec::new();
    assert_eq!(select_source(&none), None);
    let a = record("Battery Power", 1, 100, 5, 0);
    let b = record("AC Power", 99, 100, 0, 5);
    let both = vec![a.clone(), b.clone()];
    assert_eq!(select_source(&both), Some(&a));
    let other = vec![b.clone(), a];
    assert_eq!(select_source(&other), Some(&b));
}

#[test]
fn snapshot_new_refuses_zero_capacity() {
    assert_eq!(
        PowerSnapshot::new(PowerSourceState::OnBattery, 4, 0, Some(125)),
        Err(ReadError::DivisionByZero)
    );
    let s = PowerSnapshot::new(PowerSourceState::OnACPower, 4, 100, None).unwrap();
    assert_eq!(s.state, PowerSourceState::OnACPower);
    assert_eq!(s.charge.current_capacity(), 4);
    assert_eq!(s.charge.max_capacity(), 100);
    assert_eq!(s.time_remaining_minutes, None);
}

#[test]
fn read_on_battery_takes_time_to_empty() {
    let s = PowerSnapshot::read(&record("Battery Power", 4, 100, 125, 77)).unwrap();
    assert_eq!(s, PowerSnapshot::new(PowerSourceState::OnBattery, 4, 100, Some(125)).unwrap());
}

#[test]
fn read_on_ac_takes_time_to_full_charge() {
    let s = PowerSnapshot::read(&record("AC Power", 80, 100, 125, 77)).unwrap();
    assert_eq!(s, PowerSnapshot::new(PowerSourceState::OnACPower, 80, 100, Some(77)).unwrap());
}

#[test]
fn read_unknown_state_reads_no_time() {
    let r = record("Off Line", 80, 100, 125, 77);
    let expected = PowerSnapshot::new(PowerSourceState::Unknown, 80, 100, None).unwrap();
    assert_eq!(PowerSnapshot::read(&r), Ok(expected));
    let bare = without(&without(&r, "Time to Empty"), "Time to Full Charge");
    assert_eq!(PowerSnapshot::read(&bare), Ok(expected));
}

#[test]
fn read_without_estimate() {
    for raw in [0i64, -1] {
        let s = PowerSnapshot::read(&record("Battery Power", 50, 100, raw, 9)).unwrap();
        assert_eq!(s.time_remaining_minutes, None);
        let s = PowerSnapshot::read(&record("AC Power", 50, 100, 9, raw)).unwrap();
        assert_eq!(s.time_remaining_minutes, None);
    }
    let s = PowerSnapshot::read(&record("Battery Power", 50, 100, -2, 9)).unwrap();
    assert_eq!(s.time_remaining_minutes, Some(-2));
}

#[test]
fn read_reports_each_missing_field() {
    let r = record("Battery Power", 4, 100, 125, 77);
    for key in ["Power Source State", "Current Capacity", "Max Capacity", "Time to Empty"] {
        assert_eq!(
            PowerSnapshot::read(&without(&r, key)),
            Err(ReadError::FieldMissing(String::from(key)))
        );
    }
    assert!(PowerSnapshot::read(&without(&r, "Time to Full Charge")).is_ok());
    let ac = record("AC Power", 4, 100, 125, 77);
    assert_eq!(
        PowerSnapshot::read(&without(&ac, "Time to Full Charge")),
        Err(ReadError::FieldMissing(String::from("Time to Full Charge")))
    );
    assert!(PowerSnapshot::read(&without(&ac, "Time to Empty")).is_ok());
    assert_eq!(
        PowerSnapshot::read(&Record::new()),
        Err(ReadError::FieldMissing(String::from("Power Source State")))
    );
}

#[test]
fn read_reports_each_wrong_type() {
    let r = record("Battery Power", 4, 100, 125, 77);
    assert_eq!(
        PowerSnapshot::read(&with(&r, "Power Source State", TypedValue::Integer(1))),
        Err(ReadError::TypeMismatch(String::from("Power Source State")))
    );
    for key in ["Current Capacity", "Max Capacity", "Time to Empty"] {
        assert_eq!(
            PowerSnapshot::read(&with(&r, key, TypedValue::Text(String::from("4")))),
            Err(ReadError::TypeMismatch(String::from(key)))
        );
        assert_eq!(
            PowerSnapshot::read(&with(&r, key, TypedValue::Boolean(true))),
            Err(ReadError::TypeMismatch(String::from(key)))
        );
    }
}

#[test]
fn read_zero_max_capacity() {
    let r = record("Battery Power", 4, 0, 125, 77);
    assert_eq!(PowerSnapshot::read(&r), Err(ReadError::DivisionByZero));
    assert_eq!(PowerSnapshot::read(&without(&r, "Time to Empty")), Err(ReadError::DivisionByZero));
    assert_eq!(
        PowerSnapshot::read(&without(&r, "Current Capacity")),
        Err(ReadError::FieldMissing(String::from("Current Capacity")))
    );
}

#[test]
fn read_keeps_capacities_out_of_range() {
    let s = PowerSnapshot::read(&record("Battery Power", 150, 100, 10, 0)).unwrap();
    assert_eq!((s.charge.current_capacity(), s.charge.max_capacity()), (150, 100));
    assert!(!s.charge.is_at_most(100));
    let s = PowerSnapshot::read(&record("Battery Power", -5, -100, 10, 0)).unwrap();
    assert_eq!((s.charge.current_capacity(), s.charge.max_capacity()), (-5, -100));
    assert!(s.charge.is_at_most(5));
}
