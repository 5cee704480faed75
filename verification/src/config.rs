//! What the radio is told to join.

use crate::error::ConfigError;
use crate::text::{encoded_len, BoundedText};
use vstd::prelude::*;

verus! {

/// Bytes that a network name may take.
pub const SSID_CAPACITY: usize = 32;

/// Bytes that a passphrase may take.
pub const PASSPHRASE_CAPACITY: usize = 64;

/// A network name.
pub type Ssid = BoundedText<SSID_CAPACITY>;

/// A passphrase.
pub type Passphrase = BoundedText<PASSPHRASE_CAPACITY>;

/// How a network authenticates its stations.
#[allow(clippy::upper_case_acronyms)]
#[derive(Clone, Copy, Debug, PartialEq, Eq, Structural)]
pub enum AuthMethod {
    /// No authentication: an open network.
    Open,
    WEP,
    WPA,
    WPA2Personal,
    WPAWPA2Personal,
    WPA2Enterprise,
    WPA3Personal,
    WPA2WPA3Personal,
    WAPIPersonal,
}

/// The network to join. A value is made once and never altered; a new choice
/// replaces it whole.
#[derive(Debug, PartialEq, Eq)]
pub enum RadioConfiguration {
    /// A network named by the device's owner.
    Static { ssid: Ssid, auth_method: AuthMethod, passphrase: Passphrase },
    /// An open network that a scan saw.
    Discovered { ssid: Ssid, channel: u8 },
}

/// A `RadioConfiguration` with its texts as sequences of characters.
pub enum ConfigurationModel {
    Static { ssid: Seq<char>, auth_method: AuthMethod, passphrase: Seq<char> },
    Discovered { ssid: Seq<char>, channel: u8 },
}

impl View for RadioConfiguration {
    type V = ConfigurationModel;

    open spec fn view(&self) -> ConfigurationModel {
        match self {
            RadioConfiguration::Static { ssid, auth_method, passphrase } => {
                ConfigurationModel::Static {
                    ssid: ssid@,
                    auth_method: *auth_method,
                    passphrase: passphrase@,
                }
            },
            RadioConfiguration::Discovered { ssid, channel } => ConfigurationModel::Discovered {
                ssid: ssid@,
                channel: *channel,
            },
        }
    }
}

impl Clone for RadioConfiguration {
    fn clone(&self) -> (copy: Self)
        ensures
            copy@ == self@,
    {
        match self {
            RadioConfiguration::Static { ssid, auth_method, passphrase } => {
                RadioConfiguration::Static {
                    ssid: ssid.clone(),
                    auth_method: *auth_method,
                    passphrase: passphrase.clone(),
                }
            },
            RadioConfiguration::Discovered { ssid, channel } => RadioConfiguration::Discovered {
                ssid: ssid.clone(),
                channel: *channel,
            },
        }
    }
}

impl ConfigurationModel {
    /// The name of the network.
    pub open spec fn ssid(self) -> Seq<char> {
        match self {
            ConfigurationModel::Static { ssid, .. } => ssid,
            ConfigurationModel::Discovered { ssid, .. } => ssid,
        }
    }

    /// How the station authenticates: as configured, or not at all on a
    /// discovered network.
    pub open spec fn auth_method(self) -> AuthMethod {
        match self {
            ConfigurationModel::Static { auth_method, .. } => auth_method,
            ConfigurationModel::Discovered { .. } => AuthMethod::Open,
        }
    }
}

/// The authentication that a passphrase calls for: none without one,
/// WPA2-Personal with one.
pub open spec fn auth_for(passphrase: Seq<char>) -> AuthMethod {
    if passphrase.len() == 0 {
        AuthMethod::Open
    } else {
        AuthMethod::WPA2Personal
    }
}

/// What a configured name and passphrase amount to. An empty name means that
/// nothing is configured. A name that is given is used as it stands, provided
/// that it and the passphrase fit the radio's limits; the name is held to its
/// limit first.
pub open spec fn hint_outcome(ssid: Seq<char>, passphrase: Seq<char>) -> Result<
    Option<ConfigurationModel>,
    ConfigError,
> {
    if ssid.len() == 0 {
        Ok(None)
    } else if encoded_len(ssid) > SSID_CAPACITY {
        Err(ConfigError::SsidTooLong)
    } else if encoded_len(passphrase) > PASSPHRASE_CAPACITY {
        Err(ConfigError::PassphraseTooLong)
    } else {
        Ok(
            Some(
                ConfigurationModel::Static {
                    ssid,
                    auth_method: auth_for(passphrase),
                    passphrase,
                },
            ),
        )
    }
}

/// The model of what `from_hint` returned.
pub open spec fn hint_result_model(
    result: Result<Option<RadioConfiguration>, ConfigError>,
) -> Result<Option<ConfigurationModel>, ConfigError> {
    match result {
        Ok(Some(configuration)) => Ok(Some(configuration@)),
        Ok(None) => Ok(None),
        Err(error) => Err(error),
    }
}

impl RadioConfiguration {
    /// The configuration that a configured name and passphrase stand for, if a
    /// name is configured at all.
    pub fn from_hint(ssid: &str, passphrase: &str) -> (result: Result<
        Option<RadioConfiguration>,
        ConfigError,
    >)
        ensures
            hint_result_model(result) == hint_outcome(ssid@, passphrase@),
    {
        if ssid.is_empty() {
            return Ok(None);
        }
        let ssid = match Ssid::from_str(ssid) {
            Some(text) => text,
            None => {
                return Err(ConfigError::SsidTooLong);
            },
        };
        let auth_method = if passphrase.is_empty() {
            AuthMethod::Open
        } else {
            AuthMethod::WPA2Personal
        };
        match Passphrase::from_str(passphrase) {
            Some(passphrase) => Ok(
                Some(RadioConfiguration::Static { ssid, auth_method, passphrase }),
            ),
            None => Err(ConfigError::PassphraseTooLong),
        }
    }

    /// The name of the network.
    pub fn ssid(&self) -> (name: &Ssid)
        ensures
            name@ == self@.ssid(),
    {
        match self {
            RadioConfiguration::Static { ssid, .. } => ssid,
            RadioConfiguration::Discovered { ssid, .. } => ssid,
        }
    }

    /// How the station authenticates on the network.
    pub fn auth_method(&self) -> (method: AuthMethod)
        ensures
            method == self@.auth_method(),
    {
        match self {
            RadioConfiguration::Static { auth_method, .. } => *auth_method,
            RadioConfiguration::Discovered { .. } => AuthMethod::Open,
        }
    }

    /// The channel of the network, where a scan told it.
    pub fn channel(&self) -> (channel: Option<u8>)
        ensures
            channel == match self@ {
                ConfigurationModel::Static { .. } => None,
                ConfigurationModel::Discovered { channel, .. } => Some(channel),
            },
    {
        match self {
            RadioConfiguration::Static { .. } => None,
            RadioConfiguration::Discovered { channel, .. } => Some(*channel),
        }
    }
}

} // verus!
