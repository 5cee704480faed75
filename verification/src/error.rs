//! Failures that the radio and the selection report.

use vstd::prelude::*;

verus! {

/// Why the radio refused or failed an operation.
#[derive(Clone, Copy, Debug, PartialEq, Eq, Structural)]
pub enum WifiError {
    /// The radio is not initialised, or not for this kind of operation.
    NotInitialized,
    /// The driver failed with the given code.
    InternalError(i32),
    /// The station lost its network or could not join it.
    Disconnected,
    /// The radio is in no known mode.
    UnknownWifiMode,
    /// The operation or mode is not supported.
    Unsupported,
}

/// Why a search for an open network ended without one.
#[derive(Clone, Copy, Debug, PartialEq, Eq, Structural)]
pub enum ScanError {
    /// Every scan that the search allows was made, and none saw an open network.
    NoPublicNetworks,
    /// The radio failed while the search was under way.
    WifiError(WifiError),
}

/// Why a configured network name or passphrase cannot be used.
#[derive(Clone, Copy, Debug, PartialEq, Eq, Structural)]
pub enum ConfigError {
    /// The network name takes more bytes than a name may.
    SsidTooLong,
    /// The passphrase takes more bytes than a passphrase may.
    PassphraseTooLong,
}

} // verus!
