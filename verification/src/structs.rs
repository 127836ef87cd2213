//! Networks, scan results and parse results.

use vstd::prelude::*;

use crate::enums::{duplicate_identifier, NetworkServiceIdentifier, ScanType, WifiConnectionType};
use crate::interfaces::{Identifiable, Known};

verus! {

/// The characters of an optional string.
pub open spec fn opt_chars(o: Option<String>) -> Option<Seq<char>> {
    match o {
        Some(s) => Some(s@),
        None => None,
    }
}

/// A copy of an optional string.
pub fn duplicate_opt_string(o: &Option<String>) -> (r: Option<String>)
    ensures
        r == *o,
{
    match o {
        Some(s) => Some(s.clone()),
        None => None,
    }
}

/// What a scanner printed, and which scanner it was.
#[derive(Debug, Clone, PartialEq, Eq)]
pub struct ScanResult {
    pub scan_type: ScanType,
    pub scan_output: String,
}

/// Why one line or block of scanner output did not give a network.
#[derive(Debug, Clone, Copy, PartialEq, Eq, Structural)]
pub enum IndividualParseError {
    FailedToParseSignalLevel,
    FailedToUnescapeSSIDField,
    MissingIWCapabilityField,
    MissingIWSSIDField,
    MissingNmcliSeparator,
    MissingWpaCliResultField,
    ZeroLengthIWChunk,
}

/// The networks read from a scan, and the pieces of output that could not be read.
#[derive(Debug, Clone, PartialEq, Eq)]
pub struct ParseResult {
    pub scan_type: ScanType,
    pub seen_networks: Vec<WirelessNetwork>,
    pub line_parse_errors: Vec<(String, IndividualParseError)>,
}

/// A wireless network as a scan reports it.
#[derive(Debug, Clone, PartialEq, Eq, Default)]
pub struct WirelessNetwork {
    pub essid: String,
    pub is_encrypted: bool,
    pub bssid: Option<String>,
    pub signal_strength: Option<i32>,
    pub channel_utilisation: Option<String>,
}

impl WirelessNetwork {
    /// A network named `essid`, unencrypted, with nothing else known of it.
    pub fn builder(essid: &str) -> (r: WirelessNetwork)
        ensures
            r.essid@ == essid@,
            !r.is_encrypted,
            r.bssid is None,
            r.signal_strength is None,
            r.channel_utilisation is None,
    {
        WirelessNetwork {
            essid: essid.to_owned(),
            is_encrypted: false,
            bssid: None,
            signal_strength: None,
            channel_utilisation: None,
        }
    }

    /// This network, marked encrypted or not.
    pub fn is_encrypted(self, is_encrypted: bool) -> (r: WirelessNetwork)
        ensures
            r == (WirelessNetwork { is_encrypted, ..self }),
    {
        WirelessNetwork { is_encrypted, ..self }
    }

    /// This network, with the given BSSID.
    pub fn bssid(self, bssid: Option<String>) -> (r: WirelessNetwork)
        ensures
            r == (WirelessNetwork { bssid, ..self }),
    {
        WirelessNetwork { bssid, ..self }
    }

    /// This network, with the given signal strength.
    pub fn signal_strength(self, signal_strength: Option<i32>) -> (r: WirelessNetwork)
        ensures
            r == (WirelessNetwork { signal_strength, ..self }),
    {
        WirelessNetwork { signal_strength, ..self }
    }

    /// The network's name.
    pub fn get_public_name(&self) -> (r: &str)
        ensures
            r@ == self.essid@,
    {
        self.essid.as_str()
    }

    /// An exact copy of this network.
    pub fn duplicate(&self) -> (r: WirelessNetwork)
        ensures
            r == *self,
    {
        WirelessNetwork {
            essid: self.essid.clone(),
            is_encrypted: self.is_encrypted,
            bssid: duplicate_opt_string(&self.bssid),
            signal_strength: self.signal_strength,
            channel_utilisation: duplicate_opt_string(&self.channel_utilisation),
        }
    }
}

/// A wireless network together with what the system knows of it.
#[derive(Debug, Clone, PartialEq, Eq, Default)]
pub struct AnnotatedWirelessNetwork {
    pub essid: String,
    pub is_encrypted: bool,
    pub bssid: Option<String>,
    pub signal_strength: Option<i32>,
    pub channel_utilisation: Option<String>,
    pub service_identifier: Option<NetworkServiceIdentifier>,
}

impl AnnotatedWirelessNetwork {
    /// The scanned network `nw`, with the configuration that knows it, if any.
    pub fn from_nw(nw: WirelessNetwork, service_identifier: Option<&NetworkServiceIdentifier>) -> (r:
        AnnotatedWirelessNetwork)
        ensures
            r.essid == nw.essid,
            r.is_encrypted == nw.is_encrypted,
            r.bssid == nw.bssid,
            r.signal_strength == nw.signal_strength,
            r.channel_utilisation == nw.channel_utilisation,
            r.service_identifier == match service_identifier {
                Some(i) => Some(*i),
                None => None,
            },
    {
        let service_identifier = match service_identifier {
            Some(i) => Some(i.duplicate()),
            None => None,
        };
        AnnotatedWirelessNetwork {
            essid: nw.essid,
            is_encrypted: nw.is_encrypted,
            bssid: nw.bssid,
            signal_strength: nw.signal_strength,
            channel_utilisation: nw.channel_utilisation,
            service_identifier,
        }
    }

    /// A network named `essid` that was not scanned: only its name, whether a
    /// configuration knows it, and whether it is encrypted are given.
    pub fn from_essid(
        essid: String,
        service_identifier: Option<NetworkServiceIdentifier>,
        is_encrypted: bool,
    ) -> (r: AnnotatedWirelessNetwork)
        ensures
            r.essid == essid,
            r.is_encrypted == is_encrypted,
            r.bssid is None,
            r.signal_strength is None,
            r.channel_utilisation is None,
            r.service_identifier == service_identifier,
    {
        AnnotatedWirelessNetwork {
            essid,
            is_encrypted,
            bssid: None,
            signal_strength: None,
            channel_utilisation: None,
            service_identifier,
        }
    }

    /// A network named `essid`, with nothing else known of it.
    pub fn from_essid_only(essid: &str) -> (r: AnnotatedWirelessNetwork)
        ensures
            r.essid@ == essid@,
            !r.is_encrypted,
            r.bssid is None,
            r.signal_strength is None,
            r.channel_utilisation is None,
            r.service_identifier is None,
    {
        AnnotatedWirelessNetwork::from_essid(essid.to_owned(), None, false)
    }

    /// Whether the network is encrypted.
    pub fn is_encrypted(&self) -> (r: bool)
        ensures
            r == self.is_encrypted,
    {
        self.is_encrypted
    }

    /// The network's BSSID, if the scan gave one.
    pub fn _get_bssid(&self) -> (r: Option<&String>)
        ensures
            r == match self.bssid {
                Some(b) => Some(&b),
                None => None,
            },
    {
        self.bssid.as_ref()
    }

    /// The network's signal strength, if the scan gave one.
    pub fn get_signal_strength(&self) -> (r: Option<i32>)
        ensures
            r == self.signal_strength,
    {
        self.signal_strength
    }

    /// The network's channel utilisation, if the scan gave one.
    pub fn _get_channel_utilisation(&self) -> (r: Option<&String>)
        ensures
            r == match self.channel_utilisation {
                Some(c) => Some(&c),
                None => None,
            },
    {
        self.channel_utilisation.as_ref()
    }

    /// Replaces the configuration that knows this network.
    pub fn set_service_identifier(&mut self, service_identifier: Option<NetworkServiceIdentifier>)
        ensures
            *final(self) == (AnnotatedWirelessNetwork { service_identifier, ..*old(self) }),
    {
        self.service_identifier = service_identifier;
    }

    /// The network's name.
    pub fn get_public_name(&self) -> (r: &str)
        ensures
            r@ == self.essid@,
    {
        self.essid.as_str()
    }

    /// Whether a configuration on the system knows this network.
    pub fn is_known(&self) -> (r: bool)
        ensures
            r == self.service_identifier is Some,
    {
        self.service_identifier.is_some()
    }

    /// The configuration that knows this network, if any.
    pub fn get_service_identifier(&self) -> (r: Option<&NetworkServiceIdentifier>)
        ensures
            r == match self.service_identifier {
                Some(i) => Some(&i),
                None => None,
            },
    {
        self.service_identifier.as_ref()
    }

    /// An exact copy of this network.
    pub fn duplicate(&self) -> (r: AnnotatedWirelessNetwork)
        ensures
            r == *self,
    {
        AnnotatedWirelessNetwork {
            essid: self.essid.clone(),
            is_encrypted: self.is_encrypted,
            bssid: duplicate_opt_string(&self.bssid),
            signal_strength: self.signal_strength,
            channel_utilisation: duplicate_opt_string(&self.channel_utilisation),
            service_identifier: duplicate_identifier(&self.service_identifier),
        }
    }
}

/// A wired connection, with the configuration that knows it, if any.
#[derive(Debug, Clone, PartialEq, Eq, Default)]
pub struct AnnotatedWiredNetwork {
    pub service_identifier: Option<NetworkServiceIdentifier>,
}

impl AnnotatedWiredNetwork {
    /// Whether a configuration on the system knows this connection.
    pub fn is_known(&self) -> (r: bool)
        ensures
            r == self.service_identifier is Some,
    {
        self.service_identifier.is_some()
    }

    /// The configuration that knows this connection, if any.
    pub fn get_service_identifier(&self) -> (r: Option<&NetworkServiceIdentifier>)
        ensures
            r == match self.service_identifier {
                Some(i) => Some(&i),
                None => None,
            },
    {
        self.service_identifier.as_ref()
    }
}

/// Where a written network configuration went.
#[derive(Debug, Clone, PartialEq, Eq, Default)]
pub struct ConfigData {
    pub config_path: Option<String>,
}

/// The result of configuring a network.
#[derive(Debug, Clone, PartialEq, Eq)]
pub struct ConfigResult {
    pub config_data: ConfigData,
}

/// The result of connecting to a network.
#[derive(Debug, Clone, PartialEq, Eq)]
pub struct ConnectionResult {
    pub connection_type: WifiConnectionType,
}

impl Identifiable for WirelessNetwork {
    open spec fn public_name_of(&self) -> Seq<char> {
        self.essid@
    }

    fn get_public_name(&self) -> (r: &str) {
        WirelessNetwork::get_public_name(self)
    }
}

impl Identifiable for AnnotatedWirelessNetwork {
    open spec fn public_name_of(&self) -> Seq<char> {
        self.essid@
    }

    fn get_public_name(&self) -> (r: &str) {
        AnnotatedWirelessNetwork::get_public_name(self)
    }
}

impl Known for AnnotatedWirelessNetwork {
    open spec fn known_of(&self) -> bool {
        self.service_identifier is Some
    }

    fn is_known(&self) -> (r: bool) {
        AnnotatedWirelessNetwork::is_known(self)
    }
}

impl Known for AnnotatedWiredNetwork {
    open spec fn known_of(&self) -> bool {
        self.service_identifier is Some
    }

    fn is_known(&self) -> (r: bool) {
        AnnotatedWiredNetwork::is_known(self)
    }
}

} // verus!
