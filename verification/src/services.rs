//! The networking services: which one a connection or scan type needs, the
//! commands that start and stop them, bringing up `wpa_supplicant`, and
//! choosing a type from what is installed and running on the system.

use vstd::prelude::*;

use crate::enums::{NetworkingService, ScanType, WifiConnectionType, WifiScanType, WiredConnectionType};
use crate::errors::{RuwiError, RuwiErrorKind};
use crate::scan::{owned_strings, strs_view, SystemCommand};

verus! {

/// The service that a wifi connection type needs.
pub open spec fn wifi_connection_service(t: WifiConnectionType) -> NetworkingService {
    match t {
        WifiConnectionType::Nmcli => NetworkingService::NetworkManager,
        WifiConnectionType::Netctl => NetworkingService::Netctl,
        WifiConnectionType::Disabled | WifiConnectionType::Print => NetworkingService::Unmanaged,
    }
}

/// The service that a scan type needs.
pub open spec fn scan_service(t: ScanType) -> NetworkingService {
    match t {
        ScanType::Wifi(WifiScanType::Nmcli) => NetworkingService::NetworkManager,
        ScanType::Wifi(WifiScanType::WpaCli) => NetworkingService::WpaSupplicant,
        ScanType::Wifi(WifiScanType::IW) | ScanType::Wifi(WifiScanType::RuwiJSON) => {
            NetworkingService::Unmanaged
        },
    }
}

impl WifiConnectionType {
    /// The service this connection type needs.
    pub fn get_service(&self) -> (r: NetworkingService)
        ensures
            r == wifi_connection_service(*self),
    {
        match self {
            WifiConnectionType::Nmcli => NetworkingService::NetworkManager,
            WifiConnectionType::Netctl => NetworkingService::Netctl,
            WifiConnectionType::Disabled | WifiConnectionType::Print => NetworkingService::Unmanaged,
        }
    }
}

impl ScanType {
    /// The service this scan type needs.
    pub fn get_service(&self) -> (r: NetworkingService)
        ensures
            r == scan_service(*self),
    {
        match self {
            ScanType::Wifi(WifiScanType::Nmcli) => NetworkingService::NetworkManager,
            ScanType::Wifi(WifiScanType::WpaCli) => NetworkingService::WpaSupplicant,
            ScanType::Wifi(WifiScanType::IW) | ScanType::Wifi(WifiScanType::RuwiJSON) => {
                NetworkingService::Unmanaged
            },
        }
    }
}

/// A command with the error to report when it fails.
fn command(cmd_name: &str, args: &[&str], err_kind: RuwiErrorKind, err_msg: &str) -> (r: SystemCommand)
    ensures
        r.cmd_name@ == cmd_name@,
        r.args@.len() == args@.len(),
        forall|i: int| 0 <= i < args@.len() ==> #[trigger] r.args@[i]@ == args@[i]@,
        r.err_kind == err_kind,
        r.err_msg@ == err_msg@,
{
    SystemCommand {
        cmd_name: cmd_name.to_owned(),
        args: owned_strings(args),
        err_kind,
        err_msg: err_msg.to_owned(),
    }
}

/// Whether `c` runs `name` with `args`, failing with `kind` described by `msg`.
pub open spec fn is_command(
    c: SystemCommand,
    name: Seq<char>,
    args: Seq<Seq<char>>,
    kind: RuwiErrorKind,
    msg: Seq<char>,
) -> bool {
    c.cmd_name@ == name && strs_view(c.args@) == args && c.err_kind == kind && c.err_msg@ == msg
}

impl NetworkingService {
    /// The commands that start the service, in order; `wpa_supplicant` is
    /// brought up by [`WpaSupplicantInit`] instead, and a service-less setup needs none.
    pub fn start_commands(&self) -> (r: Vec<SystemCommand>)
        ensures
            match *self {
                NetworkingService::Netctl => r@.len() == 1 && is_command(
                    r@[0],
                    "systemctl"@,
                    seq!["start"@, "netctl"@],
                    RuwiErrorKind::FailedToStartNetctl,
                    "Failed to start netctl. Is it installed? Are you running as root?"@,
                ),
                NetworkingService::NetworkManager => r@.len() == 1 && is_command(
                    r@[0],
                    "systemctl"@,
                    seq!["start"@, "NetworkManager"@],
                    RuwiErrorKind::FailedToStartNetworkManager,
                    "Failed to start NetworkManager. Is it installed? Are you running as root?"@,
                ),
                NetworkingService::WpaSupplicant | NetworkingService::Unmanaged => r@.len() == 0,
            },
    {
        let mut r: Vec<SystemCommand> = Vec::new();
        match self {
            NetworkingService::Netctl => {
                let c = command(
                    "systemctl",
                    &["start", "netctl"],
                    RuwiErrorKind::FailedToStartNetctl,
                    "Failed to start netctl. Is it installed? Are you running as root?",
                );
                assert(strs_view(c.args@) =~= seq!["start"@, "netctl"@]);
                r.push(c);
            },
            NetworkingService::NetworkManager => {
                let c = command(
                    "systemctl",
                    &["start", "NetworkManager"],
                    RuwiErrorKind::FailedToStartNetworkManager,
                    "Failed to start NetworkManager. Is it installed? Are you running as root?",
                );
                assert(strs_view(c.args@) =~= seq!["start"@, "NetworkManager"@]);
                r.push(c);
            },
            NetworkingService::WpaSupplicant | NetworkingService::Unmanaged => {},
        }
        r
    }

    /// The commands that stop the service, in order; `wpa_supplicant` is stopped
    /// by [`kill_wpa_supplicant_commands`] instead, and a service-less setup needs none.
    pub fn stop_commands(&self) -> (r: Vec<SystemCommand>)
        ensures
            match *self {
                NetworkingService::Netctl => r@.len() == 2 && is_command(
                    r@[0],
                    "netctl"@,
                    seq!["stop-all"@],
                    RuwiErrorKind::FailedToStopNetctl,
                    "Failed to stop netctl. Are you running as root?"@,
                ) && is_command(
                    r@[1],
                    "systemctl"@,
                    seq!["stop"@, "netctl"@],
                    RuwiErrorKind::FailedToStopNetctl,
                    "Failed to stop netctl. Are you running as root?"@,
                ),
                NetworkingService::NetworkManager => r@.len() == 1 && is_command(
                    r@[0],
                    "systemctl"@,
                    seq!["stop"@, "NetworkManager"@],
                    RuwiErrorKind::FailedToStopNetworkManager,
                    "Failed to stop NetworkManager. Are you running as root?"@,
                ),
                NetworkingService::WpaSupplicant | NetworkingService::Unmanaged => r@.len() == 0,
            },
    {
        let mut r: Vec<SystemCommand> = Vec::new();
        match self {
            NetworkingService::Netctl => {
                let a = command(
                    "netctl",
                    &["stop-all"],
                    RuwiErrorKind::FailedToStopNetctl,
                    "Failed to stop netctl. Are you running as root?",
                );
                assert(strs_view(a.args@) =~= seq!["stop-all"@]);
                let b = command(
                    "systemctl",
                    &["stop", "netctl"],
                    RuwiErrorKind::FailedToStopNetctl,
                    "Failed to stop netctl. Are you running as root?",
                );
                assert(strs_view(b.args@) =~= seq!["stop"@, "netctl"@]);
                r.push(a);
                r.push(b);
            },
            NetworkingService::NetworkManager => {
                let c = command(
                    "systemctl",
                    &["stop", "NetworkManager"],
                    RuwiErrorKind::FailedToStopNetworkManager,
                    "Failed to stop NetworkManager. Are you running as root?",
                );
                assert(strs_view(c.args@) =~= seq!["stop"@, "NetworkManager"@]);
                r.push(c);
            },
            NetworkingService::WpaSupplicant | NetworkingService::Unmanaged => {},
        }
        r
    }

    /// Every service, in declaration order.
    pub fn all() -> (r: Vec<NetworkingService>)
        ensures
            r@ == seq![
                NetworkingService::Netctl,
                NetworkingService::NetworkManager,
                NetworkingService::WpaSupplicant,
                NetworkingService::Unmanaged,
            ],
    {
        let mut r = Vec::new();
        r.push(NetworkingService::Netctl);
        r.push(NetworkingService::NetworkManager);
        r.push(NetworkingService::WpaSupplicant);
        r.push(NetworkingService::Unmanaged);
        r
    }
}

/// The commands that stop `wpa_supplicant`: `pgrep` first, and `pkill` only
/// when it found the process (`pkill` cannot tell "not running" from "could not kill").
pub fn kill_wpa_supplicant_commands() -> (r: (SystemCommand, SystemCommand))
    ensures
        is_command(
            r.0,
            "pgrep"@,
            seq!["wpa_supplicant"@],
            RuwiErrorKind::FailedToStopWpaSupplicant,
            "Failed to stop wpa_supplicant! Are you running as root?"@,
        ),
        is_command(
            r.1,
            "pkill"@,
            seq!["wpa_supplicant"@],
            RuwiErrorKind::FailedToStopWpaSupplicant,
            "Failed to stop wpa_supplicant! Are you running as root?"@,
        ),
{
    let a = command(
        "pgrep",
        &["wpa_supplicant"],
        RuwiErrorKind::FailedToStopWpaSupplicant,
        "Failed to stop wpa_supplicant! Are you running as root?",
    );
    let b = command(
        "pkill",
        &["wpa_supplicant"],
        RuwiErrorKind::FailedToStopWpaSupplicant,
        "Failed to stop wpa_supplicant! Are you running as root?",
    );
    assert(strs_view(a.args@) =~= seq!["wpa_supplicant"@]);
    assert(strs_view(b.args@) =~= seq!["wpa_supplicant"@]);
    (a, b)
}

/// The message when `wpa_supplicant` could not be brought up.
pub open spec fn wpa_connect_error() -> Seq<char> {
    "Error initializing wpa_supplicant to use wpa_cli. Specify another scan method with -s, or add the following to /etc/wpa_supplicant/wpa_supplicant.conf and try again:\n\nctrl_interface=/run/wpa_supplicant\nctrl_interface_group=wheel\nupdate_config=1\n\nSee https://wiki.archlinux.org/index.php/WPA_supplicant#Connecting_with_wpa_cli for more info."@
}

/// The stages of bringing up `wpa_supplicant` so that `wpa_cli` works.
#[derive(Debug, Clone, Copy, PartialEq, Eq, Structural)]
pub enum WpaSupplicantInit {
    /// Ask `wpa_cli` whether it already works.
    FirstPing,
    /// Start `wpa_supplicant` in the background.
    StartSupplicant,
    /// Ask for a scan, so that results come in.
    TriggerScan,
    /// Give the scan time.
    WaitForResults,
    /// Ask `wpa_cli` again.
    SecondPing,
}

/// What a stage of bringing up `wpa_supplicant` asks for.
#[derive(Debug, Clone, PartialEq, Eq)]
pub enum WpaInitAction {
    /// Run this command, and report whether it succeeded.
    Run(SystemCommand),
    /// Wait this many seconds.
    Sleep(u64),
}

/// The action of each stage, for the interface `ifname`.
pub open spec fn wpa_init_action_is(stage: WpaSupplicantInit, ifname: Seq<char>, a: WpaInitAction) -> bool {
    match stage {
        WpaSupplicantInit::FirstPing | WpaSupplicantInit::SecondPing => a matches WpaInitAction::Run(
            c,
        ) && c.cmd_name@ == "wpa_cli"@ && strs_view(c.args@) == seq!["ping"@],
        WpaSupplicantInit::StartSupplicant => a matches WpaInitAction::Run(c) && c.cmd_name@
            == "wpa_supplicant"@ && strs_view(c.args@) == seq![
            "-B"@,
            "-i"@,
            ifname,
            "-c"@,
            "/etc/wpa_supplicant/wpa_supplicant.conf"@,
        ],
        WpaSupplicantInit::TriggerScan => a matches WpaInitAction::Run(c) && c.cmd_name@
            == "wpa_cli"@ && strs_view(c.args@) == seq!["scan"@],
        WpaSupplicantInit::WaitForResults => a == WpaInitAction::Sleep(5),
    }
}

/// The stage after `stage`, given whether its command succeeded: none when
/// `wpa_cli` works, the error's kind when `wpa_supplicant` could not be brought up.
pub open spec fn wpa_step(stage: WpaSupplicantInit, succeeded: bool) -> Result<
    Option<WpaSupplicantInit>,
    RuwiErrorKind,
> {
    match stage {
        WpaSupplicantInit::FirstPing => Ok(
            if succeeded {
                None
            } else {
                Some(WpaSupplicantInit::StartSupplicant)
            },
        ),
        WpaSupplicantInit::StartSupplicant => if succeeded {
            Ok(Some(WpaSupplicantInit::TriggerScan))
        } else {
            Err(RuwiErrorKind::FailedToStartWpaSupplicant)
        },
        WpaSupplicantInit::TriggerScan => Ok(Some(WpaSupplicantInit::WaitForResults)),
        WpaSupplicantInit::WaitForResults => Ok(Some(WpaSupplicantInit::SecondPing)),
        WpaSupplicantInit::SecondPing => if succeeded {
            Ok(None)
        } else {
            Err(RuwiErrorKind::FailedToStartWpaSupplicant)
        },
    }
}

/// The stages run from `stage` when their commands answer `answers` in turn,
/// and how the bring-up ends (none when the answers ran out first).
pub open spec fn wpa_run(stage: WpaSupplicantInit, answers: Seq<bool>) -> (
    Seq<WpaSupplicantInit>,
    Option<Result<(), RuwiErrorKind>>,
)
    decreases answers.len(),
{
    if answers.len() == 0 {
        (seq![stage], None)
    } else {
        match wpa_step(stage, answers[0]) {
            Err(k) => (seq![stage], Some(Err(k))),
            Ok(None) => (seq![stage], Some(Ok(()))),
            Ok(Some(next)) => {
                let rest = wpa_run(next, answers.drop_first());
                (seq![stage] + rest.0, rest.1)
            },
        }
    }
}

/// Bringing up `wpa_supplicant`, where the first ping answers `p1`, starting
/// the daemon `s`, asking for a scan `scan`, and the second ping `p2`: it
/// succeeds exactly when the first ping does, or the daemon starts and the
/// second ping succeeds, and fails otherwise with `FailedToStartWpaSupplicant`.
/// When the first ping succeeds nothing else runs; the scan, the wait and the
/// second ping run only when the first ping failed and the daemon started.
pub proof fn lemma_wpa_bring_up(p1: bool, s: bool, scan: bool, p2: bool)
    ensures
        ({
            let run = wpa_run(WpaSupplicantInit::FirstPing, seq![p1, s, scan, true, p2]);
            &&& run.1 == Some(
                if p1 || (s && p2) {
                    Ok::<(), RuwiErrorKind>(())
                } else {
                    Err::<(), RuwiErrorKind>(RuwiErrorKind::FailedToStartWpaSupplicant)
                },
            )
            &&& p1 ==> run.0 == seq![WpaSupplicantInit::FirstPing]
            &&& (!p1 && !s) ==> run.0 == seq![
                WpaSupplicantInit::FirstPing,
                WpaSupplicantInit::StartSupplicant,
            ]
            &&& (!p1 && s) ==> run.0 == seq![
                WpaSupplicantInit::FirstPing,
                WpaSupplicantInit::StartSupplicant,
                WpaSupplicantInit::TriggerScan,
                WpaSupplicantInit::WaitForResults,
                WpaSupplicantInit::SecondPing,
            ]
        }),
{
    let a = seq![p1, s, scan, true, p2];
    let a1 = a.drop_first();
    let a2 = a1.drop_first();
    let a3 = a2.drop_first();
    let a4 = a3.drop_first();
    let a5 = a4.drop_first();
    assert(a1 =~= seq![s, scan, true, p2]);
    assert(a2 =~= seq![scan, true, p2]);
    assert(a3 =~= seq![true, p2]);
    assert(a4 =~= seq![p2]);
    assert(a5 =~= Seq::<bool>::empty());
    let r5 = wpa_run(WpaSupplicantInit::SecondPing, a4);
    let r4 = wpa_run(WpaSupplicantInit::WaitForResults, a3);
    let r3 = wpa_run(WpaSupplicantInit::TriggerScan, a2);
    let r2 = wpa_run(WpaSupplicantInit::StartSupplicant, a1);
    let r1 = wpa_run(WpaSupplicantInit::FirstPing, a);
    assert(r5.0 =~= seq![WpaSupplicantInit::SecondPing]);
    assert(r4.0 =~= seq![WpaSupplicantInit::WaitForResults] + r5.0);
    assert(r3.0 =~= seq![WpaSupplicantInit::TriggerScan] + r4.0);
    if s {
        assert(r2.0 =~= seq![WpaSupplicantInit::StartSupplicant] + r3.0);
    } else {
        assert(r2.0 =~= seq![WpaSupplicantInit::StartSupplicant]);
    }
    if !p1 {
        assert(r1.0 =~= seq![WpaSupplicantInit::FirstPing] + r2.0);
    }
}

impl WpaSupplicantInit {
    /// What this stage asks for on the interface `ifname`.
    pub fn action(&self, ifname: &str) -> (r: WpaInitAction)
        ensures
            wpa_init_action_is(*self, ifname@, r),
    {
        match self {
            WpaSupplicantInit::FirstPing | WpaSupplicantInit::SecondPing => {
                let c = command(
                    "wpa_cli",
                    &["ping"],
                    RuwiErrorKind::FailedToStartWpaSupplicant,
                    "",
                );
                assert(strs_view(c.args@) =~= seq!["ping"@]);
                WpaInitAction::Run(c)
            },
            WpaSupplicantInit::StartSupplicant => {
                let mut args: Vec<String> = Vec::new();
                args.push("-B".to_owned());
                args.push("-i".to_owned());
                args.push(ifname.to_owned());
                args.push("-c".to_owned());
                args.push("/etc/wpa_supplicant/wpa_supplicant.conf".to_owned());
                assert(strs_view(args@) =~= seq![
                    "-B"@,
                    "-i"@,
                    ifname@,
                    "-c"@,
                    "/etc/wpa_supplicant/wpa_supplicant.conf"@,
                ]);
                WpaInitAction::Run(
                    SystemCommand {
                        cmd_name: "wpa_supplicant".to_owned(),
                        args,
                        err_kind: RuwiErrorKind::FailedToStartWpaSupplicant,
                        err_msg: String::new(),
                    },
                )
            },
            WpaSupplicantInit::TriggerScan => {
                let c = command(
                    "wpa_cli",
                    &["scan"],
                    RuwiErrorKind::FailedToStartWpaSupplicant,
                    "",
                );
                assert(strs_view(c.args@) =~= seq!["scan"@]);
                WpaInitAction::Run(c)
            },
            WpaSupplicantInit::WaitForResults => WpaInitAction::Sleep(5),
        }
    }

    /// The stage after this one, given whether its command succeeded: none when
    /// `wpa_cli` works, an error when `wpa_supplicant` could not be brought up.
    pub fn advance(self, succeeded: bool) -> (r: Result<Option<WpaSupplicantInit>, RuwiError>)
        ensures
            match wpa_step(self, succeeded) {
                Ok(next) => r == Ok::<Option<WpaSupplicantInit>, RuwiError>(next),
                Err(kind) => r matches Err(e) && e.kind == kind && e.desc@ == wpa_connect_error(),
            },
            match self {
                WpaSupplicantInit::FirstPing => r == Ok::<Option<WpaSupplicantInit>, RuwiError>(
                    if succeeded {
                        None
                    } else {
                        Some(WpaSupplicantInit::StartSupplicant)
                    },
                ),
                WpaSupplicantInit::StartSupplicant => if succeeded {
                    r == Ok::<Option<WpaSupplicantInit>, RuwiError>(
                        Some(WpaSupplicantInit::TriggerScan),
                    )
                } else {
                    r matches Err(e) && e.kind == RuwiErrorKind::FailedToStartWpaSupplicant
                        && e.desc@ == wpa_connect_error()
                },
                WpaSupplicantInit::TriggerScan => r == Ok::<Option<WpaSupplicantInit>, RuwiError>(
                    Some(WpaSupplicantInit::WaitForResults),
                ),
                WpaSupplicantInit::WaitForResults => r == Ok::<
                    Option<WpaSupplicantInit>,
                    RuwiError,
                >(Some(WpaSupplicantInit::SecondPing)),
                WpaSupplicantInit::SecondPing => if succeeded {
                    r == Ok::<Option<WpaSupplicantInit>, RuwiError>(None)
                } else {
                    r matches Err(e) && e.kind == RuwiErrorKind::FailedToStartWpaSupplicant
                        && e.desc@ == wpa_connect_error()
                },
            },
    {
        match self {
            WpaSupplicantInit::FirstPing => if succeeded {
                Ok(None)
            } else {
                Ok(Some(WpaSupplicantInit::StartSupplicant))
            },
            WpaSupplicantInit::StartSupplicant => if succeeded {
                Ok(Some(WpaSupplicantInit::TriggerScan))
            } else {
                Err(wpa_supplicant_init_error())
            },
            WpaSupplicantInit::TriggerScan => Ok(Some(WpaSupplicantInit::WaitForResults)),
            WpaSupplicantInit::WaitForResults => Ok(Some(WpaSupplicantInit::SecondPing)),
            WpaSupplicantInit::SecondPing => if succeeded {
                Ok(None)
            } else {
                Err(wpa_supplicant_init_error())
            },
        }
    }
}

/// The error when `wpa_supplicant` could not be brought up.
pub fn wpa_supplicant_init_error() -> (r: RuwiError)
    ensures
        r.kind == RuwiErrorKind::FailedToStartWpaSupplicant,
        r.desc@ == wpa_connect_error(),
{
    RuwiError::new(
        RuwiErrorKind::FailedToStartWpaSupplicant,
        "Error initializing wpa_supplicant to use wpa_cli. Specify another scan method with -s, or add the following to /etc/wpa_supplicant/wpa_supplicant.conf and try again:\n\nctrl_interface=/run/wpa_supplicant\nctrl_interface_group=wheel\nupdate_config=1\n\nSee https://wiki.archlinux.org/index.php/WPA_supplicant#Connecting_with_wpa_cli for more info.",
    )
}

/// A fact about the system that a choice can rest on.
#[derive(Debug, Clone, Copy, PartialEq, Eq, Structural)]
pub enum SystemCheckPredicate {
    NetworkManagerRunning,
    NetctlRunning,
    NetctlInstalled,
    NetworkManagerInstalled,
    DhclientInstalled,
    DhcpcdInstalled,
}

impl SystemCheckPredicate {
    /// The name under which the check is reported.
    pub fn name(&self) -> (r: &'static str)
        ensures
            r@ == check_name(*self),
    {
        match self {
            SystemCheckPredicate::NetworkManagerRunning => "NetworkManagerRunning",
            SystemCheckPredicate::NetctlRunning => "NetctlRunning",
            SystemCheckPredicate::NetctlInstalled => "NetctlInstalled",
            SystemCheckPredicate::NetworkManagerInstalled => "NetworkManagerInstalled",
            SystemCheckPredicate::DhclientInstalled => "DhclientInstalled",
            SystemCheckPredicate::DhcpcdInstalled => "DhcpcdInstalled",
        }
    }
}

/// The name under which a check is reported.
pub open spec fn check_name(p: SystemCheckPredicate) -> Seq<char> {
    match p {
        SystemCheckPredicate::NetworkManagerRunning => "NetworkManagerRunning"@,
        SystemCheckPredicate::NetctlRunning => "NetctlRunning"@,
        SystemCheckPredicate::NetctlInstalled => "NetctlInstalled"@,
        SystemCheckPredicate::NetworkManagerInstalled => "NetworkManagerInstalled"@,
        SystemCheckPredicate::DhclientInstalled => "DhclientInstalled"@,
        SystemCheckPredicate::DhcpcdInstalled => "DhcpcdInstalled"@,
    }
}

/// Whether every check of `mapping` before position `i` reported failure.
pub open spec fn checks_failed_before<T, F: Fn(SystemCheckPredicate) -> bool>(
    mapping: Seq<(SystemCheckPredicate, T)>,
    check: F,
    i: int,
) -> bool {
    forall|j: int| 0 <= j < i ==> call_ensures(check, (#[trigger] mapping[j].0,), false)
}

/// Whether running the checks of `mapping` in order stops at position `i` with
/// `r`: every earlier check failed, and either the check at `i` passed and `r`
/// is its value, or `i` is past the last check and `r` is `fallback`.
pub open spec fn chosen_at<T, F: Fn(SystemCheckPredicate) -> bool>(
    mapping: Seq<(SystemCheckPredicate, T)>,
    fallback: T,
    check: F,
    r: T,
    i: int,
) -> bool {
    &&& 0 <= i <= mapping.len()
    &&& checks_failed_before(mapping, check, i)
    &&& if i < mapping.len() {
        call_ensures(check, (mapping[i].0,), true) && r == mapping[i].1
    } else {
        r == fallback
    }
}

/// Whether `r` is what running the checks of `mapping` in order with `check`,
/// up to the first that passes, chooses: the value of that check, or `fallback`
/// when every check failed.
pub open spec fn chosen_by_checks<T, F: Fn(SystemCheckPredicate) -> bool>(
    mapping: Seq<(SystemCheckPredicate, T)>,
    fallback: T,
    check: F,
    r: T,
) -> bool {
    exists|i: int| #[trigger] chosen_at(mapping, fallback, check, r, i)
}

/// A type whose value can be chosen from checks of the system, in order of preference.
pub trait HasSystemCheckMapping: Sized {
    /// The checks, each with the value it leads to, best first.
    spec fn mapping() -> Seq<(SystemCheckPredicate, Self)>;

    /// The value when no check passes.
    spec fn fallback() -> Self;

    fn get_system_check_mapping() -> (r: Vec<(SystemCheckPredicate, Self)>)
        ensures
            r@ == Self::mapping(),
    ;

    fn default_choice() -> (r: Self)
        ensures
            r == Self::fallback(),
    ;
}

impl HasSystemCheckMapping for WiredConnectionType {
    open spec fn mapping() -> Seq<(SystemCheckPredicate, Self)> {
        seq![
            (SystemCheckPredicate::NetworkManagerRunning, WiredConnectionType::Nmcli),
            (SystemCheckPredicate::NetctlRunning, WiredConnectionType::Netctl),
            (SystemCheckPredicate::NetctlInstalled, WiredConnectionType::Netctl),
            (SystemCheckPredicate::NetworkManagerInstalled, WiredConnectionType::Nmcli),
            (SystemCheckPredicate::DhclientInstalled, WiredConnectionType::Dhclient),
            (SystemCheckPredicate::DhcpcdInstalled, WiredConnectionType::Dhcpcd),
        ]
    }

    open spec fn fallback() -> Self {
        WiredConnectionType::Netctl
    }

    fn get_system_check_mapping() -> (r: Vec<(SystemCheckPredicate, Self)>) {
        let mut r = Vec::new();
        r.push((SystemCheckPredicate::NetworkManagerRunning, WiredConnectionType::Nmcli));
        r.push((SystemCheckPredicate::NetctlRunning, WiredConnectionType::Netctl));
        r.push((SystemCheckPredicate::NetctlInstalled, WiredConnectionType::Netctl));
        r.push((SystemCheckPredicate::NetworkManagerInstalled, WiredConnectionType::Nmcli));
        r.push((SystemCheckPredicate::DhclientInstalled, WiredConnectionType::Dhclient));
        r.push((SystemCheckPredicate::DhcpcdInstalled, WiredConnectionType::Dhcpcd));
        r
    }

    fn default_choice() -> (r: Self) {
        WiredConnectionType::default()
    }
}

impl HasSystemCheckMapping for WifiConnectionType {
    open spec fn mapping() -> Seq<(SystemCheckPredicate, Self)> {
        seq![
            (SystemCheckPredicate::NetworkManagerRunning, WifiConnectionType::Nmcli),
            (SystemCheckPredicate::NetctlRunning, WifiConnectionType::Netctl),
            (SystemCheckPredicate::NetctlInstalled, WifiConnectionType::Netctl),
            (SystemCheckPredicate::NetworkManagerInstalled, WifiConnectionType::Nmcli),
        ]
    }

    open spec fn fallback() -> Self {
        WifiConnectionType::Netctl
    }

    fn get_system_check_mapping() -> (r: Vec<(SystemCheckPredicate, Self)>) {
        let mut r = Vec::new();
        r.push((SystemCheckPredicate::NetworkManagerRunning, WifiConnectionType::Nmcli));
        r.push((SystemCheckPredicate::NetctlRunning, WifiConnectionType::Netctl));
        r.push((SystemCheckPredicate::NetctlInstalled, WifiConnectionType::Netctl));
        r.push((SystemCheckPredicate::NetworkManagerInstalled, WifiConnectionType::Nmcli));
        r
    }

    fn default_choice() -> (r: Self) {
        WifiConnectionType::default()
    }
}

impl HasSystemCheckMapping for WifiScanType {
    open spec fn mapping() -> Seq<(SystemCheckPredicate, Self)> {
        seq![(SystemCheckPredicate::NetworkManagerRunning, WifiScanType::Nmcli)]
    }

    open spec fn fallback() -> Self {
        WifiScanType::IW
    }

    fn get_system_check_mapping() -> (r: Vec<(SystemCheckPredicate, Self)>) {
        let mut r = Vec::new();
        r.push((SystemCheckPredicate::NetworkManagerRunning, WifiScanType::Nmcli));
        r
    }

    fn default_choice() -> (r: Self) {
        WifiScanType::default()
    }
}

/// Whether `p` finds NetworkManager running or installed.
pub open spec fn finds_network_manager(p: SystemCheckPredicate) -> bool {
    p == SystemCheckPredicate::NetworkManagerRunning || p == SystemCheckPredicate::NetworkManagerInstalled
}

/// Whether `p` finds netctl running or installed.
pub open spec fn finds_netctl(p: SystemCheckPredicate) -> bool {
    p == SystemCheckPredicate::NetctlRunning || p == SystemCheckPredicate::NetctlInstalled
}

/// Whether `p` asks whether a service is running (rather than installed).
pub open spec fn finds_running(p: SystemCheckPredicate) -> bool {
    p == SystemCheckPredicate::NetworkManagerRunning || p == SystemCheckPredicate::NetctlRunning
}

/// Whether the checks of `m` that ask about running services all come before
/// those that ask about installed ones.
pub open spec fn running_checks_first<T>(m: Seq<(SystemCheckPredicate, T)>) -> bool {
    forall|i: int, j: int|
        0 <= i < j < m.len() && finds_running(#[trigger] m[j].0) ==> finds_running(#[trigger] m[i].0)
}

/// Whether the check `p` occurs in `m`.
pub open spec fn has_check<T>(m: Seq<(SystemCheckPredicate, T)>, p: SystemCheckPredicate) -> bool {
    exists|i: int| 0 <= i < m.len() && #[trigger] m[i].0 == p
}

/// Choosing how to connect to wifi: each check leads to the tool it looks for
/// (a NetworkManager check to `nmcli`, a netctl check to netctl); both tools are
/// looked for both running and installed; and a running tool is preferred to
/// one that is only installed.
pub proof fn lemma_wifi_connection_checks()
    ensures
        ({
            let m = WifiConnectionType::mapping();
            &&& forall|i: int|
                0 <= i < m.len() ==> (finds_network_manager(#[trigger] m[i].0) <==> m[i].1
                    == WifiConnectionType::Nmcli) && (finds_netctl(m[i].0) <==> m[i].1
                    == WifiConnectionType::Netctl)
            &&& has_check(m, SystemCheckPredicate::NetworkManagerRunning)
            &&& has_check(m, SystemCheckPredicate::NetworkManagerInstalled)
            &&& has_check(m, SystemCheckPredicate::NetctlRunning)
            &&& has_check(m, SystemCheckPredicate::NetctlInstalled)
            &&& running_checks_first(m)
        }),
{
    let m = WifiConnectionType::mapping();
    assert(m[0].0 == SystemCheckPredicate::NetworkManagerRunning);
    assert(m[1].0 == SystemCheckPredicate::NetctlRunning);
    assert(m[2].0 == SystemCheckPredicate::NetctlInstalled);
    assert(m[3].0 == SystemCheckPredicate::NetworkManagerInstalled);
}

/// Choosing how to connect a wired interface: each check leads to the tool it
/// looks for (NetworkManager to `nmcli`, netctl to netctl, dhclient and dhcpcd
/// to themselves); every tool is looked for; and a running service is
/// preferred to one that is only installed.
pub proof fn lemma_wired_connection_checks()
    ensures
        ({
            let m = WiredConnectionType::mapping();
            &&& forall|i: int|
                0 <= i < m.len() ==> (finds_network_manager(#[trigger] m[i].0) <==> m[i].1
                    == WiredConnectionType::Nmcli) && (finds_netctl(m[i].0) <==> m[i].1
                    == WiredConnectionType::Netctl) && ((m[i].0
                    == SystemCheckPredicate::DhclientInstalled) <==> m[i].1
                    == WiredConnectionType::Dhclient) && ((m[i].0
                    == SystemCheckPredicate::DhcpcdInstalled) <==> m[i].1
                    == WiredConnectionType::Dhcpcd)
            &&& has_check(m, SystemCheckPredicate::NetworkManagerRunning)
            &&& has_check(m, SystemCheckPredicate::NetworkManagerInstalled)
            &&& has_check(m, SystemCheckPredicate::NetctlRunning)
            &&& has_check(m, SystemCheckPredicate::NetctlInstalled)
            &&& has_check(m, SystemCheckPredicate::DhclientInstalled)
            &&& has_check(m, SystemCheckPredicate::DhcpcdInstalled)
            &&& running_checks_first(m)
        }),
{
    let m = WiredConnectionType::mapping();
    assert(m[0].0 == SystemCheckPredicate::NetworkManagerRunning);
    assert(m[1].0 == SystemCheckPredicate::NetctlRunning);
    assert(m[2].0 == SystemCheckPredicate::NetctlInstalled);
    assert(m[3].0 == SystemCheckPredicate::NetworkManagerInstalled);
    assert(m[4].0 == SystemCheckPredicate::DhclientInstalled);
    assert(m[5].0 == SystemCheckPredicate::DhcpcdInstalled);
}

/// Choosing how to scan for wifi: `nmcli` is chosen only when NetworkManager
/// runs, and `iw` otherwise.
pub proof fn lemma_wifi_scan_checks()
    ensures
        WifiScanType::mapping().len() == 1,
        WifiScanType::mapping()[0] == (SystemCheckPredicate::NetworkManagerRunning, WifiScanType::Nmcli),
        WifiScanType::fallback() == WifiScanType::IW,
{
}

/// Runs the checks of the system in order of preference with `check`, and
/// stops at the first that passes: its value, or the type's default when none
/// passed.
pub fn choose_best_from_system<T: HasSystemCheckMapping, F: Fn(SystemCheckPredicate) -> bool>(
    check: F,
) -> (r: T)
    requires
        forall|p: SystemCheckPredicate| call_requires(check, (p,)),
    ensures
        chosen_by_checks(T::mapping(), T::fallback(), check, r),
{
    let mut mapping = T::get_system_check_mapping();
    let ghost all = mapping@;
    let n = mapping.len();
    let mut i: usize = 0;
    while i < n
        invariant
            n == all.len(),
            mapping@ == all,
            i <= n,
            all == T::mapping(),
            forall|p: SystemCheckPredicate| call_requires(check, (p,)),
            checks_failed_before(all, check, i as int),
        decreases n - i,
    {
        let predicate = mapping[i].0;
        let passed = check(predicate);
        if passed {
            let taken = mapping.remove(i);
            assert(chosen_at(all, T::fallback(), check, taken.1, i as int));
            return taken.1;
        }
        i += 1;
    }
    let fallback = T::default_choice();
    assert(chosen_at(all, T::fallback(), check, fallback, n as int));
    fallback
}

/// The commands that bring up bluetooth before scanning: start its service,
/// then power the controller on.
pub fn bluetooth_startup_commands() -> (r: Vec<SystemCommand>)
    ensures
        r@.len() == 2,
        is_command(
            r@[0],
            "systemctl"@,
            seq!["start"@, "bluetooth"@],
            RuwiErrorKind::FailedToStartBluetoothService,
            "Failed to start the bluetooth service!"@,
        ),
        is_command(
            r@[1],
            "bluetoothctl"@,
            seq!["power"@, "on"@],
            RuwiErrorKind::FailedToRunBluetoothCtlPowerOn,
            "Failed to power on bluetooth device using bluetoothctl!"@,
        ),
{
    let a = command(
        "systemctl",
        &["start", "bluetooth"],
        RuwiErrorKind::FailedToStartBluetoothService,
        "Failed to start the bluetooth service!",
    );
    assert(strs_view(a.args@) =~= seq!["start"@, "bluetooth"@]);
    let b = command(
        "bluetoothctl",
        &["power", "on"],
        RuwiErrorKind::FailedToRunBluetoothCtlPowerOn,
        "Failed to power on bluetooth device using bluetoothctl!",
    );
    assert(strs_view(b.args@) =~= seq!["power"@, "on"@]);
    let mut r = Vec::new();
    r.push(a);
    r.push(b);
    r
}

} // verus!
