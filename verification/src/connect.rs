//! Decisions on the way to a connection: whether the chosen network's key is
//! needed and how to ask for it, and which wired profile to use.

use vstd::prelude::*;

use crate::enums::{NetworkServiceIdentifier, SelectionMethod, WifiConnectionType, WiredConnectionType};
use crate::errors::concat;
use crate::interfaces::{Global, WifiConnect, WiredConnect};
use crate::select::password_prompt;
use crate::structs::{AnnotatedWiredNetwork, AnnotatedWirelessNetwork};

verus! {

/// Where the key of the chosen network comes from.
#[derive(Debug, Clone, PartialEq, Eq)]
pub enum KeySource {
    /// It was given on the command line.
    Given(String),
    /// Ask the user with this prompt, through `dmenu` or else on the terminal.
    Ask { prompt: String, via_dmenu: bool },
    /// No key is needed.
    NotNeeded,
}

/// Whether a connection of type `t` writes a configuration that holds the key.
pub open spec fn keeps_key(t: WifiConnectionType) -> bool {
    t == WifiConnectionType::Netctl || t == WifiConnectionType::Nmcli
}

/// The connections that write a netctl or NetworkManager configuration keep
/// the key in it; the others (printing the network, or connecting not at all)
/// keep none.
pub proof fn lemma_configuring_connections_keep_the_key(t: WifiConnectionType)
    ensures
        t == WifiConnectionType::Netctl ==> keeps_key(t),
        t == WifiConnectionType::Nmcli ==> keeps_key(t),
        t == WifiConnectionType::Print ==> !keeps_key(t),
        t == WifiConnectionType::Disabled ==> !keeps_key(t),
{
}

/// Where the key of `network` comes from: the command line if it gave one;
/// otherwise the user is asked when the network is encrypted and the connection
/// type writes a configuration; otherwise none is needed.
pub fn encryption_key_source<O: Global + WifiConnect>(options: &O, network: &AnnotatedWirelessNetwork) -> (r:
    KeySource)
    ensures
        match options.given_encryption_key_of() {
            Some(k) => r == KeySource::Given(k),
            None => if network.is_encrypted && keeps_key(options.connect_via_of()) {
                r matches KeySource::Ask { prompt, via_dmenu } && prompt@ == "Password for "@
                    + network.essid@ + ": "@ && via_dmenu == (options.selection_method_of()
                    == SelectionMethod::Dmenu)
            } else {
                r == KeySource::NotNeeded
            },
        },
        options.given_encryption_key_of() is None && network.is_encrypted && (
        options.connect_via_of() == WifiConnectionType::Netctl || options.connect_via_of()
            == WifiConnectionType::Nmcli) ==> r is Ask,
        options.given_encryption_key_of() is None && !network.is_encrypted ==> r
            == KeySource::NotNeeded,
{
    match options.get_given_encryption_key() {
        Some(k) => KeySource::Given(k.clone()),
        None => {
            let connect_via = *options.get_connect_via();
            let keeps = match connect_via {
                WifiConnectionType::Netctl | WifiConnectionType::Nmcli => true,
                _ => false,
            };
            if network.is_encrypted && keeps {
                let prompt = password_prompt(network.essid.as_str());
                let via_dmenu = match options.get_selection_method() {
                    SelectionMethod::Dmenu => true,
                    _ => false,
                };
                KeySource::Ask { prompt, via_dmenu }
            } else {
                KeySource::NotNeeded
            }
        },
    }
}

/// The wired connection through the interface alone, with no profile.
pub fn nw_from_interface() -> (r: AnnotatedWiredNetwork)
    ensures
        r.service_identifier is None,
{
    AnnotatedWiredNetwork { service_identifier: None }
}

/// The netctl profiles for the interface, or the interface alone when it has none.
pub fn get_netctl_wired_networks(configs: Vec<AnnotatedWiredNetwork>) -> (r: Vec<AnnotatedWiredNetwork>)
    ensures
        configs@.len() == 0 ==> r@ == seq![AnnotatedWiredNetwork { service_identifier: None }],
        configs@.len() > 0 ==> r@ == configs@,
{
    if configs.len() < 1 {
        let mut r = Vec::new();
        r.push(nw_from_interface());
        r
    } else {
        configs
    }
}

/// Whether the netctl profiles of the interface must be read: no profile was
/// named and the connection is made with netctl.
pub fn wired_needs_netctl_configs<O: WiredConnect>(options: &O) -> (r: bool)
    ensures
        r == (options.given_profile_name_of() is None && options.wired_connect_via_of()
            == WiredConnectionType::Netctl),
{
    options.get_given_profile_name().is_none() && match options.get_connect_via() {
        WiredConnectionType::Netctl => true,
        _ => false,
    }
}

/// The wired connections to choose among: the named profile; else the netctl
/// profiles read for the interface (`netctl_configs`), when netctl connects;
/// else the interface alone.
pub fn wired_candidates<O: WiredConnect>(options: &O, netctl_configs: Vec<AnnotatedWiredNetwork>) -> (r: Vec<
    AnnotatedWiredNetwork,
>)
    ensures
        match options.given_profile_name_of() {
            Some(ident) => r@ == seq![
                AnnotatedWiredNetwork {
                    service_identifier: Some(NetworkServiceIdentifier::Netctl(ident)),
                },
            ],
            None => if options.wired_connect_via_of() == WiredConnectionType::Netctl {
                if netctl_configs@.len() == 0 {
                    r@ == seq![AnnotatedWiredNetwork { service_identifier: None }]
                } else {
                    r@ == netctl_configs@
                }
            } else {
                r@ == seq![AnnotatedWiredNetwork { service_identifier: None }]
            },
        },
{
    match options.get_given_profile_name() {
        Some(ident) => {
            let mut r = Vec::new();
            r.push(
                AnnotatedWiredNetwork {
                    service_identifier: Some(NetworkServiceIdentifier::Netctl(ident.clone())),
                },
            );
            r
        },
        None => match options.get_connect_via() {
            WiredConnectionType::Netctl => get_netctl_wired_networks(netctl_configs),
            _ => {
                let mut r = Vec::new();
                r.push(nw_from_interface());
                r
            },
        },
    }
}

/// Whether a netctl profile must be written for `network` before connecting:
/// it has none and netctl connects.
pub fn wired_needs_config_written<O: WiredConnect>(options: &O, network: &AnnotatedWiredNetwork) -> (r: bool)
    ensures
        r == (network.service_identifier is None && options.wired_connect_via_of()
            == WiredConnectionType::Netctl),
{
    network.service_identifier.is_none() && match options.get_connect_via() {
        WiredConnectionType::Netctl => true,
        _ => false,
    }
}

/// The name by which a wired connection type is given and shown.
pub open spec fn wired_connection_type_name(t: WiredConnectionType) -> Seq<char> {
    match t {
        WiredConnectionType::Nmcli => "nmcli"@,
        WiredConnectionType::Netctl => "netctl"@,
        WiredConnectionType::Dhclient => "dhclient"@,
        WiredConnectionType::Dhcpcd => "dhcpcd"@,
    }
}

impl WiredConnectionType {
    /// The name by which this connection type is given and shown.
    pub fn name(&self) -> (r: &'static str)
        ensures
            r@ == wired_connection_type_name(*self),
    {
        match self {
            WiredConnectionType::Nmcli => "nmcli",
            WiredConnectionType::Netctl => "netctl",
            WiredConnectionType::Dhclient => "dhclient",
            WiredConnectionType::Dhcpcd => "dhcpcd",
        }
    }
}

/// The line printed after a wired connection was made on `ifname`.
pub fn wired_success_message(ifname: &str, connect_via: WiredConnectionType) -> (r: String)
    ensures
        r@ == "Successfully connected on \""@ + ifname@ + "\" using "@ + wired_connection_type_name(
            connect_via,
        ) + "!"@,
{
    let mut r = concat("Successfully connected on \"", ifname);
    r.append("\" using ");
    r.append(connect_via.name());
    r.append("!");
    r
}

} // verus!
