//! The choices that options and scan results carry.

use vstd::prelude::*;

use crate::text::same_chars;

verus! {

/// Which program produced, or is to produce, a wifi scan.
#[derive(Debug, Clone, Copy, PartialEq, Eq, Structural)]
pub enum WifiScanType {
    Nmcli,
    WpaCli,
    IW,
    RuwiJSON,
}

/// The kind of a scan.
#[derive(Debug, Clone, Copy, PartialEq, Eq, Structural)]
pub enum ScanType {
    Wifi(WifiScanType),
}

/// How scan results are obtained.
#[derive(Debug, Clone, PartialEq, Eq)]
pub enum ScanMethod {
    ByRunning,
    FromFile(String),
    FromStdin,
}

/// How a network is chosen among those seen.
#[derive(Debug, Clone, Copy, PartialEq, Eq, Structural)]
pub enum AutoMode {
    Ask,
    KnownOrAsk,
    KnownOrFail,
    First,
}

/// The program that shows the choices to the user.
#[derive(Debug, Clone, Copy, PartialEq, Eq, Structural)]
pub enum SelectionMethod {
    Dmenu,
    Fzf,
    NoCurses,
}

/// Why a blocking rescan is run.
#[derive(Debug, Clone, Copy, PartialEq, Eq, Structural)]
pub enum SynchronousRescanType {
    Automatic,
    ManuallyRequested,
    NoneSeen,
}

/// How a wifi connection is made.
#[derive(Debug, Clone, Copy, PartialEq, Eq, Structural)]
pub enum WifiConnectionType {
    Nmcli,
    Netctl,
    /// Make no connection.
    Disabled,
    Print,
}

/// How a wired connection is made.
#[derive(Debug, Clone, Copy, PartialEq, Eq, Structural)]
pub enum WiredConnectionType {
    Nmcli,
    Netctl,
    Dhclient,
    Dhcpcd,
}

/// A system service that manages networking.
#[derive(Debug, Clone, Copy, PartialEq, Eq, Structural)]
pub enum NetworkingService {
    Netctl,
    NetworkManager,
    WpaSupplicant,
    /// No service is needed.
    Unmanaged,
}

/// Where a known network's configuration lives.
#[derive(Debug, Clone, PartialEq, Eq)]
pub enum NetworkServiceIdentifier {
    /// A netctl profile, by name.
    Netctl(String),
    /// A NetworkManager connection.
    NetworkManager,
}

impl NetworkServiceIdentifier {
    /// The identifier of the netctl profile `name`.
    pub fn netctl_nw(name: &str) -> (r: Option<NetworkServiceIdentifier>)
        ensures
            r matches Some(NetworkServiceIdentifier::Netctl(n)) && n@ == name@,
    {
        Some(NetworkServiceIdentifier::Netctl(name.to_owned()))
    }

    /// A copy of this identifier.
    pub fn duplicate(&self) -> (r: NetworkServiceIdentifier)
        ensures
            r == *self,
    {
        match self {
            NetworkServiceIdentifier::Netctl(n) => NetworkServiceIdentifier::Netctl(n.clone()),
            NetworkServiceIdentifier::NetworkManager => NetworkServiceIdentifier::NetworkManager,
        }
    }
}

/// A copy of an optional service identifier.
pub fn duplicate_identifier(i: &Option<NetworkServiceIdentifier>) -> (r: Option<
    NetworkServiceIdentifier,
>)
    ensures
        r == *i,
{
    match i {
        Some(x) => Some(x.duplicate()),
        None => None,
    }
}

impl Default for WifiScanType {
    fn default() -> (r: Self)
        ensures
            r == WifiScanType::IW,
    {
        WifiScanType::IW
    }
}

impl Default for ScanMethod {
    fn default() -> (r: Self)
        ensures
            r == ScanMethod::ByRunning,
    {
        ScanMethod::ByRunning
    }
}

impl Default for AutoMode {
    fn default() -> (r: Self)
        ensures
            r == AutoMode::Ask,
    {
        AutoMode::Ask
    }
}

impl Default for SelectionMethod {
    fn default() -> (r: Self)
        ensures
            r == SelectionMethod::Fzf,
    {
        SelectionMethod::Fzf
    }
}

impl Default for WifiConnectionType {
    fn default() -> (r: Self)
        ensures
            r == WifiConnectionType::Netctl,
    {
        WifiConnectionType::Netctl
    }
}

impl Default for WiredConnectionType {
    fn default() -> (r: Self)
        ensures
            r == WiredConnectionType::Netctl,
    {
        WiredConnectionType::Netctl
    }
}

impl WifiScanType {
    /// The name by which this scan type is given on the command line.
    pub fn name(&self) -> (r: &'static str)
        ensures
            r@ == wifi_scan_type_name(*self),
    {
        proof {
            reveal_strlit("nmcli");
            reveal_strlit("wpa_cli");
            reveal_strlit("iw");
            reveal_strlit("ruwi_json");
        }
        match self {
            WifiScanType::Nmcli => "nmcli",
            WifiScanType::WpaCli => "wpa_cli",
            WifiScanType::IW => "iw",
            WifiScanType::RuwiJSON => "ruwi_json",
        }
    }

    /// Every scan type, in declaration order.
    pub fn all() -> (r: Vec<WifiScanType>)
        ensures
            r@ == seq![
                WifiScanType::Nmcli,
                WifiScanType::WpaCli,
                WifiScanType::IW,
                WifiScanType::RuwiJSON,
            ],
    {
        let mut r = Vec::new();
        r.push(WifiScanType::Nmcli);
        r.push(WifiScanType::WpaCli);
        r.push(WifiScanType::IW);
        r.push(WifiScanType::RuwiJSON);
        r
    }

    /// The scan type named `s`, if any.
    pub fn from_name(s: &[char]) -> (r: Option<WifiScanType>)
        ensures
            r matches Some(t) ==> wifi_scan_type_name(t) == s@,
            r is None ==> forall|t: WifiScanType| wifi_scan_type_name(t) != s@,
    {
        let all = WifiScanType::all();
        let mut i: usize = 0;
        while i < all.len()
            invariant
                i <= all.len(),
                all@ == seq![
                    WifiScanType::Nmcli,
                    WifiScanType::WpaCli,
                    WifiScanType::IW,
                    WifiScanType::RuwiJSON,
                ],
                forall|j: int| 0 <= j < i ==> wifi_scan_type_name(#[trigger] all@[j]) != s@,
            decreases all.len() - i,
        {
            let name = crate::text::chars_of(all[i].name());
            if same_chars(name.as_slice(), s) {
                return Some(all[i]);
            }
            i += 1;
        }
        proof {
            assert forall|t: WifiScanType| wifi_scan_type_name(t) != s@ by {
                match t {
                    WifiScanType::Nmcli => assert(wifi_scan_type_name(all@[0]) != s@),
                    WifiScanType::WpaCli => assert(wifi_scan_type_name(all@[1]) != s@),
                    WifiScanType::IW => assert(wifi_scan_type_name(all@[2]) != s@),
                    WifiScanType::RuwiJSON => assert(wifi_scan_type_name(all@[3]) != s@),
                }
            }
        }
        None
    }
}

/// The command-line name of a scan type.
pub open spec fn wifi_scan_type_name(t: WifiScanType) -> Seq<char> {
    match t {
        WifiScanType::Nmcli => "nmcli"@,
        WifiScanType::WpaCli => "wpa_cli"@,
        WifiScanType::IW => "iw"@,
        WifiScanType::RuwiJSON => "ruwi_json"@,
    }
}

} // verus!
