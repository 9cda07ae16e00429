use signal_device::config::coupler_from_doc;
use signal_device::config::resolve_coupler;
use signal_device::config::resource_location_for;
use signal_device::config::signal_entries_from_doc;
use signal_device::config::signal_from_entry;
use signal_device::config::signals_from_entries;
use signal_device::config::SignalEntry;
use signal_device::device::find_signal;
use signal_device::device::SignalDevice;
use signal_device::errors::ConfigError;
use signal_device::errors::DeviceError;
use signal_device::signal::Signal;
use signal_device::transport::bits_value;

fn entry(name: Option<&str>, kind: Option<&str>, offset: Option<i64>) -> SignalEntry {
    SignalEntry {
        name: name.map(|s| s.to_string()),
        kind: kind.map(|s| s.to_string()),
        offset,
    }
}

#[test]
fn new_signal_starts_off() {
    let s = Signal::new("door_open".to_string(), "input".to_string(), 16);
    assert_eq!(s.get_signal_name().as_str(), "door_open");
    assert_eq!(s.get_signal_type().as_str(), "input");
    assert_eq!(*s.get_signal_offset(), 16);
    assert_eq!(*s.get_signal_status(), false);
    assert_eq!(s.as_text(), "OFF");
}

#[test]
fn as_text_follows_status() {
    let mut s = Signal::new("s".to_string(), "input".to_string(), 0);
    assert_eq!(s.as_text(), "OFF");
    s.set_signal_status(true);
    assert_eq!(s.as_text(), "ON");
    assert_eq!(*s.get_signal_status(), true);
    s.set_signal_status(false);
    assert_eq!(s.as_text(), "OFF");
    assert_eq!(*s.get_signal_status(), false);
}

#[test]
fn resolve_coupler_uses_configured_address() {
    let r = resolve_coupler(Some("10.0.0.5".to_string()));
    assert_eq!(r, "10.0.0.5");
}

#[test]
fn resolve_coupler_defaults_to_localhost() {
    let r = resolve_coupler(None);
    assert_eq!(r, "127.0.0.1");
}

#[test]
fn resource_location_follows_template() {
    assert_eq!(resource_location_for("dev1"), "./thingy/resources/dev1.yaml");
}

#[test]
fn entry_defaults_are_sentinels() {
    let s = signal_from_entry(&entry(None, None, None));
    assert_eq!(s.get_signal_name().as_str(), "invalid_signal_name");
    assert_eq!(s.get_signal_type().as_str(), "invalid_signal_type");
    assert_eq!(*s.get_signal_offset(), 0);
    assert_eq!(*s.get_signal_status(), false);
}

#[test]
fn entry_fields_carry_over() {
    let s = signal_from_entry(&entry(Some("door_open"), Some("input"), Some(16)));
    assert_eq!(s.get_signal_name().as_str(), "door_open");
    assert_eq!(s.get_signal_type().as_str(), "input");
    assert_eq!(*s.get_signal_offset(), 16);
}

#[test]
fn entry_offset_truncates_to_sixteen_bits() {
    let s = signal_from_entry(&entry(Some("a"), Some("input"), Some(65537)));
    assert_eq!(*s.get_signal_offset(), 1);
    let s = signal_from_entry(&entry(Some("b"), Some("input"), Some(-1)));
    assert_eq!(*s.get_signal_offset(), 65535);
}

#[test]
fn registry_keeps_count_and_order() {
    let entries = vec![
        entry(Some("first"), Some("input"), Some(1)),
        entry(Some("second"), Some("input"), Some(2)),
        entry(Some("third"), Some("input"), Some(3)),
    ];
    let signals = signals_from_entries(&entries);
    assert_eq!(signals.len(), 3);
    assert_eq!(signals[0].get_signal_name().as_str(), "first");
    assert_eq!(signals[1].get_signal_name().as_str(), "second");
    assert_eq!(signals[2].get_signal_name().as_str(), "third");
    assert_eq!(*signals[2].get_signal_offset(), 3);
}

#[test]
fn find_signal_returns_first_match() {
    let entries = vec![
        entry(Some("a"), Some("input"), Some(1)),
        entry(Some("b"), Some("input"), Some(2)),
        entry(Some("b"), Some("input"), Some(3)),
    ];
    let signals = signals_from_entries(&entries);
    let i = find_signal(&signals, "b").unwrap();
    assert_eq!(i, 1);
    assert_eq!(*signals[i].get_signal_offset(), 2);
    assert_eq!(find_signal(&signals, "a").unwrap(), 0);
}

#[test]
fn find_signal_missing_name_is_not_found() {
    let entries = vec![entry(Some("a"), Some("input"), Some(1))];
    let signals = signals_from_entries(&entries);
    match find_signal(&signals, "nonexistent") {
        Ok(_) => panic!("lookup of an absent name must fail"),
        Err(DeviceError::NotFound(name)) => {
            assert_eq!(name, "nonexistent");
        }
        Err(_) => panic!("lookup of an absent name is not a transport fault"),
    }
}

#[test]
fn not_found_message_names_the_signal() {
    let e = DeviceError::NotFound("nonexistent".to_string());
    assert_eq!(e.message(), "Unable to find signal: 'nonexistent'");
}

#[test]
fn bits_value_is_last_bit() {
    assert_eq!(bits_value(&vec![]), false);
    assert_eq!(bits_value(&vec![true]), true);
    assert_eq!(bits_value(&vec![false]), false);
    assert_eq!(bits_value(&vec![false, true]), true);
    assert_eq!(bits_value(&vec![true, false]), false);
}

#[test]
fn yaml_doc_yields_coupler_and_entries() {
    let text = "device:\n  coupler: 10.0.0.5\nsignals:\n  - name: door_open\n    type: input\n    offset: 16\n";
    let docs = yaml_rust::YamlLoader::load_from_str(text).unwrap();
    let doc = &docs[0];
    assert_eq!(coupler_from_doc(doc), Some("10.0.0.5".to_string()));
    let entries = signal_entries_from_doc(doc);
    assert_eq!(entries.len(), 1);
    assert_eq!(entries[0].name.as_deref(), Some("door_open"));
    assert_eq!(entries[0].kind.as_deref(), Some("input"));
    assert_eq!(entries[0].offset, Some(16));
}

#[test]
fn yaml_doc_without_coupler_or_signals() {
    let docs = yaml_rust::YamlLoader::load_from_str("device:\n  other: 1\n").unwrap();
    let doc = &docs[0];
    assert_eq!(coupler_from_doc(doc), None);
    assert_eq!(resolve_coupler(coupler_from_doc(doc)), "127.0.0.1");
    assert_eq!(signal_entries_from_doc(doc).len(), 0);
}

#[test]
fn yaml_entry_missing_fields_become_none() {
    let text = "signals:\n  - name: a\n  - offset: 7\n  - type: input\n";
    let docs = yaml_rust::YamlLoader::load_from_str(text).unwrap();
    let entries = signal_entries_from_doc(&docs[0]);
    assert_eq!(entries.len(), 3);
    assert_eq!(entries[0].name.as_deref(), Some("a"));
    assert_eq!(entries[0].kind, None);
    assert_eq!(entries[0].offset, None);
    assert_eq!(entries[1].offset, Some(7));
    assert_eq!(entries[2].kind.as_deref(), Some("input"));
}

#[test]
fn scenario_door_open_registry() {
    let text = "device:\n  coupler: 10.0.0.5\nsignals:\n  - name: door_open\n    type: input\n    offset: 16\n";
    let docs = yaml_rust::YamlLoader::load_from_str(text).unwrap();
    let doc = &docs[0];
    let coupler = resolve_coupler(coupler_from_doc(doc));
    assert_eq!(coupler, "10.0.0.5");
    let mut signals = signals_from_entries(&signal_entries_from_doc(doc));
    assert_eq!(signals.len(), 1);
    let i = find_signal(&signals, "door_open").unwrap();
    assert_eq!(*signals[i].get_signal_offset(), 16);
    // A transport read at offset 16 reporting on is folded to `true` ...
    let reported = bits_value(&vec![true]);
    assert!(reported);
    // ... and cached, after which the signal renders as "ON".
    signals[i].set_signal_status(reported);
    assert_eq!(*signals[i].get_signal_status(), true);
    assert_eq!(signals[i].as_text(), "ON");
}

#[test]
fn malformed_yaml_is_parse_failed() {
    let r = SignalDevice::from_yaml_str("dev1", "signals: [");
    assert_eq!(r.err(), Some(ConfigError::ParseFailed));
}

#[test]
fn empty_yaml_is_parse_failed() {
    let r = SignalDevice::from_yaml_str("dev1", "");
    assert_eq!(r.err(), Some(ConfigError::ParseFailed));
}

#[test]
fn unreachable_coupler_is_connect_failed() {
    // Nothing serves Modbus on the loopback address here, so the connect is
    // refused within the timeout.
    let r = SignalDevice::from_yaml_str("dev1", "device:\n  coupler: 127.0.0.1\n");
    assert_eq!(r.err(), Some(ConfigError::ConnectFailed));
}

#[test]
fn default_coupler_is_used_when_absent() {
    // No `device.coupler` in the configuration: construction falls back to
    // 127.0.0.1, where the connect is refused rather than failing earlier.
    let r = SignalDevice::from_yaml_str("dev1", "signals:\n  - name: a\n");
    assert_eq!(r.err(), Some(ConfigError::ConnectFailed));
}

#[test]
fn failed_connection_is_connect_failed() {
    let entries = vec![entry(Some("a"), Some("input"), Some(1))];
    let refused = std::io::Error::new(std::io::ErrorKind::ConnectionRefused, "refused");
    let r = SignalDevice::device_from_parts(
        "dev1",
        "./thingy/resources/dev1.yaml".to_string(),
        "10.0.0.5".to_string(),
        &entries,
        Err(refused),
    );
    assert_eq!(r.err(), Some(ConfigError::ConnectFailed));
}
