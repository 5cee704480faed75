use esp32_wifi::config::{AuthMethod, RadioConfiguration, Ssid};
use esp32_wifi::scan::{find_strongest_open, select_open, ScanRecord, ScanResults, SCAN_CAPACITY};

fn record(name: &str, channel: u8, signal_strength: i8, auth_method: Option<AuthMethod>) -> ScanRecord {
    ScanRecord { ssid: Ssid::from_str(name).unwrap(), channel, signal_strength, auth_method }
}

fn scan_of(records: Vec<ScanRecord>) -> ScanResults {
    let mut results = ScanResults::new();
    for item in records {
        results.push(item).unwrap();
    }
    results
}

fn discovered(name: &str, channel: u8) -> RadioConfiguration {
    RadioConfiguration::Discovered { ssid: Ssid::from_str(name).unwrap(), channel }
}

#[test]
fn only_open_network_is_chosen_despite_weaker_signal() {
    let results = scan_of(vec![
        record("Cafe", 6, -40, Some(AuthMethod::Open)),
        record("Home", 1, -30, Some(AuthMethod::WPA2Personal)),
    ]);
    assert_eq!(find_strongest_open(&results), Some(0));
    assert_eq!(select_open(&results), Some(discovered("Cafe", 6)));
}

#[test]
fn strongest_open_network_is_chosen() {
    let results = scan_of(vec![
        record("Weak", 1, -80, Some(AuthMethod::Open)),
        record("Locked", 2, -20, Some(AuthMethod::WPA3Personal)),
        record("Strong", 3, -45, Some(AuthMethod::Open)),
        record("Middling", 4, -60, Some(AuthMethod::Open)),
    ]);
    assert_eq!(find_strongest_open(&results), Some(2));
    assert_eq!(select_open(&results), Some(discovered("Strong", 3)));
}

#[test]
fn strongest_open_network_may_come_first() {
    let results = scan_of(vec![
        record("Strong", 3, -45, Some(AuthMethod::Open)),
        record("Weak", 1, -80, Some(AuthMethod::Open)),
    ]);
    assert_eq!(find_strongest_open(&results), Some(0));
}

#[test]
fn earliest_of_equally_strong_open_networks_is_chosen() {
    let results = scan_of(vec![
        record("Locked", 2, -50, Some(AuthMethod::WPA2Personal)),
        record("First", 5, -50, Some(AuthMethod::Open)),
        record("Second", 9, -50, Some(AuthMethod::Open)),
    ]);
    assert_eq!(find_strongest_open(&results), Some(1));
    assert_eq!(select_open(&results), Some(discovered("First", 5)));
}

#[test]
fn protected_networks_are_never_chosen() {
    let results = scan_of(vec![
        record("Home", 1, -30, Some(AuthMethod::WPA2Personal)),
        record("Old", 2, -35, Some(AuthMethod::WEP)),
        record("Work", 3, -40, Some(AuthMethod::WPA2Enterprise)),
    ]);
    assert_eq!(find_strongest_open(&results), None);
    assert_eq!(select_open(&results), None);
}

#[test]
fn network_of_unknown_authentication_is_not_open() {
    let results = scan_of(vec![record("Mystery", 1, -10, None)]);
    assert_eq!(find_strongest_open(&results), None);
    assert_eq!(select_open(&results), None);
}

#[test]
fn empty_scan_chooses_nothing() {
    let results = scan_of(vec![]);
    assert_eq!(find_strongest_open(&results), None);
    assert_eq!(select_open(&results), None);
}

#[test]
fn signal_strength_extremes_are_ordered() {
    let results = scan_of(vec![
        record("Faintest", 1, i8::MIN, Some(AuthMethod::Open)),
        record("Loudest", 2, i8::MAX, Some(AuthMethod::Open)),
        record("Quiet", 3, -1, Some(AuthMethod::Open)),
    ]);
    assert_eq!(select_open(&results), Some(discovered("Loudest", 2)));
}

#[test]
fn full_scan_is_searched_to_its_end() {
    assert_eq!(SCAN_CAPACITY, 20);
    let mut records = Vec::new();
    for place in 0u8..19 {
        records.push(record("Locked", place, -20, Some(AuthMethod::WPA2Personal)));
    }
    records.push(record("Last", 13, -90, Some(AuthMethod::Open)));
    let results = scan_of(records);
    assert_eq!(results.len(), 20);
    assert_eq!(find_strongest_open(&results), Some(19));
    assert_eq!(select_open(&results), Some(discovered("Last", 13)));
}

#[test]
fn sorting_by_strength_first_gives_the_same_network() {
    let listed = vec![
        ("Weak", 1u8, -80i8, Some(AuthMethod::Open)),
        ("Locked", 2, -20, Some(AuthMethod::WPA3Personal)),
        ("Strong", 3, -45, Some(AuthMethod::Open)),
        ("Middling", 4, -60, Some(AuthMethod::Open)),
    ];
    let mut sorted = listed.clone();
    sorted.sort_by(|a, b| b.2.cmp(&a.2));
    let first_open = sorted.iter().find(|item| item.3 == Some(AuthMethod::Open)).unwrap();
    let results =
        scan_of(listed.iter().map(|item| record(item.0, item.1, item.2, item.3)).collect());
    assert_eq!(select_open(&results), Some(discovered(first_open.0, first_open.1)));
}

#[test]
fn scan_record_clone_is_equal() {
    let seen = record("Cafe", 6, -40, Some(AuthMethod::Open));
    assert_eq!(seen.clone(), seen);
}
