use esp32_wifi::config::{AuthMethod, Passphrase, RadioConfiguration, Ssid};
use esp32_wifi::error::ConfigError;
use esp32_wifi::text::BoundedText;

fn ssid(text: &str) -> Ssid {
    Ssid::from_str(text).unwrap()
}

fn passphrase(text: &str) -> Passphrase {
    Passphrase::from_str(text).unwrap()
}

#[test]
fn bounded_text_keeps_what_fits() {
    let name = "abcdefghijklmnopqrstuvwxyz012345";
    assert_eq!(name.len(), 32);
    let held = BoundedText::<32>::from_str(name).unwrap();
    assert_eq!(held.as_str(), name);
    assert!(!held.is_empty());
}

#[test]
fn bounded_text_refuses_one_byte_too_many() {
    let name = "abcdefghijklmnopqrstuvwxyz0123456";
    assert_eq!(name.len(), 33);
    assert_eq!(BoundedText::<32>::from_str(name), None);
    assert!(BoundedText::<64>::from_str(name).is_some());
}

#[test]
fn bounded_text_counts_bytes_not_characters() {
    let eleven = "\u{20ac}".repeat(11);
    assert_eq!(eleven.chars().count(), 11);
    assert_eq!(eleven.len(), 33);
    assert_eq!(BoundedText::<32>::from_str(&eleven), None);

    let fits = format!("{}ab", "\u{20ac}".repeat(10));
    assert_eq!(fits.len(), 32);
    assert_eq!(BoundedText::<32>::from_str(&fits).unwrap().as_str(), fits);
}

#[test]
fn bounded_text_may_be_empty() {
    let held = BoundedText::<0>::from_str("").unwrap();
    assert!(held.is_empty());
    assert_eq!(held.as_str(), "");
    assert_eq!(BoundedText::<0>::from_str("a"), None);
}

#[test]
fn bounded_text_clone_is_equal() {
    let held = ssid("Cafe");
    assert_eq!(held.clone(), held);
    assert_eq!(held.clone().as_str(), "Cafe");
}

#[test]
fn hint_without_name_configures_nothing() {
    assert_eq!(RadioConfiguration::from_hint("", ""), Ok(None));
    assert_eq!(RadioConfiguration::from_hint("", "secret123"), Ok(None));
}

#[test]
fn hint_without_passphrase_is_open() {
    assert_eq!(
        RadioConfiguration::from_hint("Cafe", ""),
        Ok(Some(RadioConfiguration::Static {
            ssid: ssid("Cafe"),
            auth_method: AuthMethod::Open,
            passphrase: passphrase(""),
        }))
    );
}

#[test]
fn hint_with_passphrase_is_wpa2_personal() {
    assert_eq!(
        RadioConfiguration::from_hint("Office", "secret123"),
        Ok(Some(RadioConfiguration::Static {
            ssid: ssid("Office"),
            auth_method: AuthMethod::WPA2Personal,
            passphrase: passphrase("secret123"),
        }))
    );
    let single = RadioConfiguration::from_hint("Office", "x").unwrap().unwrap();
    assert_eq!(single.auth_method(), AuthMethod::WPA2Personal);
}

#[test]
fn hint_name_too_long_is_refused() {
    let long = "n".repeat(33);
    assert_eq!(RadioConfiguration::from_hint(&long, ""), Err(ConfigError::SsidTooLong));
    assert_eq!(RadioConfiguration::from_hint(&long, "secret123"), Err(ConfigError::SsidTooLong));
}

#[test]
fn hint_name_is_held_to_its_limit_first() {
    let name = "n".repeat(33);
    let phrase = "p".repeat(65);
    assert_eq!(RadioConfiguration::from_hint(&name, &phrase), Err(ConfigError::SsidTooLong));
}

#[test]
fn hint_passphrase_too_long_is_refused() {
    let phrase = "p".repeat(65);
    assert_eq!(
        RadioConfiguration::from_hint("Office", &phrase),
        Err(ConfigError::PassphraseTooLong)
    );
}

#[test]
fn hint_at_the_limits_is_taken() {
    let name = "n".repeat(32);
    let phrase = "p".repeat(64);
    let made = RadioConfiguration::from_hint(&name, &phrase).unwrap().unwrap();
    assert_eq!(made.ssid().as_str(), name);
    assert_eq!(made.auth_method(), AuthMethod::WPA2Personal);
    assert_eq!(made.channel(), None);
    match made {
        RadioConfiguration::Static { passphrase, .. } => assert_eq!(passphrase.as_str(), phrase),
        RadioConfiguration::Discovered { .. } => panic!("a configured name is not discovered"),
    }
}

#[test]
fn discovered_configuration_is_open_and_knows_its_channel() {
    let found = RadioConfiguration::Discovered { ssid: ssid("Cafe"), channel: 11 };
    assert_eq!(found.ssid().as_str(), "Cafe");
    assert_eq!(found.auth_method(), AuthMethod::Open);
    assert_eq!(found.channel(), Some(11));
    assert_eq!(found.clone(), found);
}

#[test]
fn static_configuration_clone_is_equal() {
    let made = RadioConfiguration::from_hint("Office", "secret123").unwrap().unwrap();
    assert_eq!(made.clone(), made);
}
