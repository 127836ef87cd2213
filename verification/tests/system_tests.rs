use ruwi::commands::{
    command_safety_verdict, dryrun_note, full_command_path, ifname_from_wpa_cli,
    is_owned_by_non_root, is_world_or_group_writable, pass_stdout_result, prompt_output_result,
    BinaryMetadata, CommandOutput, IfnameFailure,
};
use ruwi::connect::{
    encryption_key_source, get_netctl_wired_networks, wired_candidates, wired_needs_config_written,
    wired_success_message, KeySource,
};
use ruwi::enums::{
    NetworkServiceIdentifier, NetworkingService, ScanType, WifiConnectionType, WifiScanType,
    WiredConnectionType,
};
use ruwi::errors::RuwiErrorKind;
use ruwi::known::{annotate_networks, KnownNetwork, WifiKnownNetworks};
use ruwi::options::{WifiConnectOptions, WiredConnectOptions};
use ruwi::services::{
    choose_best_from_system, kill_wpa_supplicant_commands, SystemCheckPredicate, WpaInitAction,
    WpaSupplicantInit,
};
use ruwi::structs::{AnnotatedWiredNetwork, AnnotatedWirelessNetwork, WirelessNetwork};

fn output(success: bool, code: Option<i32>, stdout: &str) -> CommandOutput {
    CommandOutput { success, code, stdout: stdout.to_string() }
}

#[test]
fn dry_run_note_lists_the_command() {
    let note = dryrun_note("echo", &vec!["LAWL".to_string(), "x".to_string()]);
    assert_eq![note, "[NOTE]: Not running command in dryrun mode: `echo LAWL x`"];
}

#[test]
fn command_results() {
    let ok = pass_stdout_result(Ok(output(true, Some(0), "out")), RuwiErrorKind::FailedToRunCommand, "m");
    assert_eq![ok.unwrap(), "out"];
    let failed = pass_stdout_result(Ok(output(false, Some(1), "out")), RuwiErrorKind::FailedToStartNetctl, "m");
    assert_eq![failed.unwrap_err().kind, RuwiErrorKind::FailedToStartNetctl];
    let prompt = prompt_output_result(Ok(output(true, Some(0), "choice\n\n"))).unwrap();
    assert_eq![prompt, "choice"];
    let prompt_failed = prompt_output_result(Ok(output(false, Some(130), ""))).unwrap_err();
    assert_eq![prompt_failed.kind, RuwiErrorKind::PromptCommandFailed];
    let not_spawned = prompt_output_result(Err("no such file".to_string())).unwrap_err();
    assert_eq![not_spawned.kind, RuwiErrorKind::PromptCommandSpawnFailed];
    assert_eq![not_spawned.desc, "no such file"];
    assert_eq![full_command_path("iw", Ok(output(true, Some(0), "/usr/bin/iw\n"))).unwrap(), "/usr/bin/iw"];
    let missing = full_command_path("iw", Ok(output(false, Some(1), ""))).unwrap_err();
    assert_eq![missing.desc, "`iw` is not installed or is not in $PATH."];
}

#[test]
fn binaries_run_as_root_must_belong_to_root() {
    assert![is_world_or_group_writable(0o777)];
    assert![is_world_or_group_writable(0o720)];
    assert![!is_world_or_group_writable(0o755)];
    assert![is_owned_by_non_root(1000, 0)];
    assert![!is_owned_by_non_root(0, 0)];
    let safe = BinaryMetadata { mode: 0o755, uid: 0, gid: 0 };
    let writable = BinaryMetadata { mode: 0o775, uid: 0, gid: 0 };
    assert![command_safety_verdict(true, "/usr/bin/iw", Ok(safe)).is_ok()];
    let err = command_safety_verdict(true, "/usr/bin/iw", Ok(writable)).unwrap_err();
    assert_eq![err.kind, RuwiErrorKind::BinaryWritableByNonRootWhenRunningAsRoot];
    assert![command_safety_verdict(false, "/usr/bin/iw", Ok(writable)).is_ok()];
    let unreadable = command_safety_verdict(true, "/nope", Err("gone".to_string())).unwrap_err();
    assert_eq![unreadable.desc, "Unable to read metadata for binary \"/nope\". Does it exist?"];
}

#[test]
fn interface_name_from_wpa_cli() {
    assert_eq![ifname_from_wpa_cli(output(true, Some(0), "Selected interface\nwlp2s0\n")).unwrap(), "wlp2s0"];
    assert_eq![ifname_from_wpa_cli(output(false, Some(127), "")).unwrap_err(), IfnameFailure::WpaCliMissing];
    assert_eq![
        ifname_from_wpa_cli(output(false, Some(1), "boom")).unwrap_err(),
        IfnameFailure::Failed("boom".to_string())
    ];
}

#[test]
fn services_for_types() {
    assert_eq![WifiConnectionType::Nmcli.get_service(), NetworkingService::NetworkManager];
    assert_eq![WifiConnectionType::Print.get_service(), NetworkingService::Unmanaged];
    assert_eq![ScanType::Wifi(WifiScanType::WpaCli).get_service(), NetworkingService::WpaSupplicant];
    assert_eq![ScanType::Wifi(WifiScanType::IW).get_service(), NetworkingService::Unmanaged];
    let stop = NetworkingService::Netctl.stop_commands();
    assert_eq![stop.len(), 2];
    assert_eq![stop[0].cmd_name, "netctl"];
    assert_eq![stop[1].args, vec!["stop".to_string(), "netctl".to_string()]];
    assert_eq![NetworkingService::NetworkManager.start_commands()[0].args[1], "NetworkManager"];
    assert![NetworkingService::Unmanaged.start_commands().is_empty()];
    let (pgrep, pkill) = kill_wpa_supplicant_commands();
    assert_eq![pgrep.cmd_name, "pgrep"];
    assert_eq![pkill.cmd_name, "pkill"];
}

#[test]
fn wpa_supplicant_bring_up() {
    assert_eq![WpaSupplicantInit::FirstPing.advance(true).unwrap(), None];
    assert_eq![WpaSupplicantInit::FirstPing.advance(false).unwrap(), Some(WpaSupplicantInit::StartSupplicant)];
    match WpaSupplicantInit::StartSupplicant.action("wlan0") {
        WpaInitAction::Run(c) => {
            assert_eq![c.cmd_name, "wpa_supplicant"];
            assert_eq![c.args[2], "wlan0"];
        }
        other => panic!("unexpected {:?}", other),
    }
    assert_eq![WpaSupplicantInit::WaitForResults.action("wlan0"), WpaInitAction::Sleep(5)];
    assert_eq![
        WpaSupplicantInit::StartSupplicant.advance(false).unwrap_err().kind,
        RuwiErrorKind::FailedToStartWpaSupplicant
    ];
    assert_eq![WpaSupplicantInit::SecondPing.advance(true).unwrap(), None];
}

#[test]
fn choices_from_system_checks() {
    let none = |_p: SystemCheckPredicate| false;
    assert_eq![choose_best_from_system::<WiredConnectionType, _>(none), WiredConnectionType::Netctl];
    assert_eq![choose_best_from_system::<WifiConnectionType, _>(none), WifiConnectionType::Netctl];
    assert_eq![choose_best_from_system::<WifiScanType, _>(none), WifiScanType::IW];
    let dhcp = |p: SystemCheckPredicate| p == SystemCheckPredicate::DhcpcdInstalled || p == SystemCheckPredicate::DhclientInstalled;
    assert_eq![choose_best_from_system::<WiredConnectionType, _>(dhcp), WiredConnectionType::Dhclient];
    let nm = |p: SystemCheckPredicate| p == SystemCheckPredicate::NetworkManagerRunning || p == SystemCheckPredicate::NetctlRunning;
    assert_eq![choose_best_from_system::<WifiConnectionType, _>(nm), WifiConnectionType::Nmcli];
    assert_eq![choose_best_from_system::<WifiScanType, _>(nm), WifiScanType::Nmcli];
    assert_eq![choose_best_from_system::<WifiScanType, _>(dhcp), WifiScanType::IW];
    let netctl = |p: SystemCheckPredicate| p == SystemCheckPredicate::NetctlInstalled || p == SystemCheckPredicate::NetworkManagerInstalled;
    assert_eq![choose_best_from_system::<WiredConnectionType, _>(netctl), WiredConnectionType::Netctl];
}

#[test]
fn checks_stop_at_the_first_that_passes() {
    let seen = std::cell::RefCell::new(Vec::new());
    let check = |p: SystemCheckPredicate| {
        seen.borrow_mut().push(p);
        p == SystemCheckPredicate::NetctlRunning
    };
    assert_eq![choose_best_from_system::<WiredConnectionType, _>(check), WiredConnectionType::Netctl];
    assert_eq![
        *seen.borrow(),
        vec![SystemCheckPredicate::NetworkManagerRunning, SystemCheckPredicate::NetctlRunning]
    ];
}

#[test]
fn key_sources() {
    let encrypted = AnnotatedWirelessNetwork::from_essid("home".to_string(), None, true);
    let open = AnnotatedWirelessNetwork::from_essid("cafe".to_string(), None, false);
    let given = WifiConnectOptions::builder().given_encryption_key(Some("k".to_string())).build();
    assert_eq![encryption_key_source(&given, &encrypted), KeySource::Given("k".to_string())];
    let netctl = WifiConnectOptions::builder().connect_via(WifiConnectionType::Netctl).build();
    match encryption_key_source(&netctl, &encrypted) {
        KeySource::Ask { prompt, .. } => assert_eq![prompt, "Password for home: "],
        other => panic!("unexpected {:?}", other),
    }
    assert_eq![encryption_key_source(&netctl, &open), KeySource::NotNeeded];
    let print = WifiConnectOptions::builder().connect_via(WifiConnectionType::Print).build();
    assert_eq![encryption_key_source(&print, &encrypted), KeySource::NotNeeded];
}

#[test]
fn wired_choices() {
    let profile = AnnotatedWiredNetwork { service_identifier: Some(NetworkServiceIdentifier::Netctl("eth".to_string())) };
    assert_eq![get_netctl_wired_networks(vec![]), vec![AnnotatedWiredNetwork { service_identifier: None }]];
    assert_eq![get_netctl_wired_networks(vec![profile.clone()]), vec![profile.clone()]];
    let mut named = WiredConnectOptions::default();
    named.given_profile_name = Some("work".to_string());
    assert_eq![
        wired_candidates(&named, vec![profile.clone()]),
        vec![AnnotatedWiredNetwork { service_identifier: Some(NetworkServiceIdentifier::Netctl("work".to_string())) }]
    ];
    let netctl = WiredConnectOptions::default();
    assert_eq![wired_candidates(&netctl, vec![profile.clone()]), vec![profile.clone()]];
    assert![wired_needs_config_written(&netctl, &AnnotatedWiredNetwork { service_identifier: None })];
    assert![!wired_needs_config_written(&netctl, &profile)];
    assert_eq![
        wired_success_message("eth0", WiredConnectionType::Dhcpcd),
        "Successfully connected on \"eth0\" using dhcpcd!"
    ];
}

#[test]
fn known_networks_mark_scans() {
    let known = WifiKnownNetworks {
        networks: vec![
            KnownNetwork { essid: "home".to_string(), service_identifier: NetworkServiceIdentifier::NetworkManager },
            KnownNetwork { essid: "home".to_string(), service_identifier: NetworkServiceIdentifier::Netctl("h".to_string()) },
        ],
    };
    assert_eq![known.get_service_identifier_for_essid("home"), Some(NetworkServiceIdentifier::NetworkManager)];
    assert_eq![known.get_service_identifier_for_essid("other"), None];
    let seen = vec![WirelessNetwork::builder("home"), WirelessNetwork::builder("other")];
    let marked = annotate_networks(&WifiConnectOptions::default(), &seen, &known);
    assert![marked[0].is_known()];
    assert![!marked[1].is_known()];
}

fn bring_up(answers: &[bool]) -> (Vec<String>, Result<(), RuwiErrorKind>) {
    let mut ran = Vec::new();
    let mut stage = WpaSupplicantInit::FirstPing;
    let mut answers = answers.iter();
    loop {
        let succeeded = match stage.action("wlan0") {
            WpaInitAction::Run(c) => {
                ran.push(format!("{} {}", c.cmd_name, c.args.join(" ")));
                *answers.next().unwrap()
            }
            WpaInitAction::Sleep(s) => {
                ran.push(format!("sleep {}", s));
                true
            }
        };
        match stage.advance(succeeded) {
            Ok(Some(next)) => stage = next,
            Ok(None) => return (ran, Ok(())),
            Err(e) => return (ran, Err(e.kind)),
        }
    }
}

#[test]
fn wpa_supplicant_bring_up_runs() {
    let (ran, end) = bring_up(&[true]);
    assert_eq![end, Ok(())];
    assert_eq![ran, vec!["wpa_cli ping".to_string()]];
    let (ran, end) = bring_up(&[false, false]);
    assert_eq![end, Err(RuwiErrorKind::FailedToStartWpaSupplicant)];
    assert_eq![ran.len(), 2];
    assert![ran[1].starts_with("wpa_supplicant -B -i wlan0")];
    let (ran, end) = bring_up(&[false, true, true, true]);
    assert_eq![end, Ok(())];
    assert_eq![ran.len(), 5];
    assert_eq![ran[2], "wpa_cli scan"];
    assert_eq![ran[3], "sleep 5"];
    assert_eq![ran[4], "wpa_cli ping"];
    let (_, end) = bring_up(&[false, true, true, false]);
    assert_eq![end, Err(RuwiErrorKind::FailedToStartWpaSupplicant)];
}
