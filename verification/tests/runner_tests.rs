use ruwi::enums::{NetworkServiceIdentifier, ScanType, SynchronousRescanType, WifiScanType};
use ruwi::errors::{RuwiError, RuwiErrorKind};
use ruwi::known::{KnownNetwork, WifiKnownNetworks};
use ruwi::options::{RuwiCommand, RuwiWifiCommand, WifiConnectOptions, WifiOptions};
use ruwi::enums::AutoMode;
use ruwi::structs::{AnnotatedWirelessNetwork, ScanResult};
use ruwi::wifi_step::{AnnotatedNetworks, StepOutcome, StepWork, WifiStep};

fn default_command(options: &WifiConnectOptions) -> RuwiCommand {
    RuwiCommand::Wifi(RuwiWifiCommand::Connect(options.clone()))
}

fn check_basic_runner_functionality() {
    let test_step = WifiStep::BasicTestStep;
    let options = WifiConnectOptions::default();
    let command = default_command(&options);
    let next = test_step.exec(&command, &options, "wlan0", StepOutcome::NoWork);
    if let Ok(WifiStep::ConnectionSuccessful) = next {
    } else {
        panic!("Incorrect return value from basic test step.");
    }
}

fn check_sorter_into_selector() {
    let first = AnnotatedWirelessNetwork::from_essid(
        "I AM FIRST".into(),
        NetworkServiceIdentifier::netctl_nw("some_id"),
        false,
    );
    let second = AnnotatedWirelessNetwork::from_essid("I AM SECOND".into(), None, false);
    let networks = vec![second, first.clone()];
    let annotated_networks = AnnotatedNetworks { networks: networks.clone() };
    let test_step = WifiStep::NetworkSorter { annotated_networks };
    let options = WifiConnectOptions::default();
    let command = default_command(&options);
    let next = test_step.exec(&command, &options, "wlan0", StepOutcome::NoWork);
    if let Ok(WifiStep::NetworkSelector { sorted_networks }) = next {
        assert_eq![first, sorted_networks.get_networks().first().unwrap().clone()];
        assert_eq![networks.len(), sorted_networks.get_networks().len()];
    } else {
        panic!("Next step after default sort wasn't selector.");
    }
}

#[test]
fn runner_test_basic_runner_functionality() {
    check_basic_runner_functionality();
}

#[test]
fn wifi_test_basic_runner_functionality() {
    check_basic_runner_functionality();
}

#[test]
fn runner_test_sorter_into_selector() {
    check_sorter_into_selector();
}

#[test]
fn wifi_test_sorter_into_selector() {
    check_sorter_into_selector();
}

#[test]
fn test_connection_init() {
    let options = WifiConnectOptions::default();
    let command = default_command(&options);
    let step = WifiStep::ConnectionInit;
    let expected_next_step = WifiStep::DataGatherer;
    assert_eq!(step.exec(&command, &options, "wlan0", StepOutcome::NoWork).unwrap(), expected_next_step);
}

#[test]
fn given_essid_goes_straight_to_password() {
    let options = WifiConnectOptions::builder()
        .given_essid(Some("home".to_string()))
        .given_encryption_key(Some("secret".to_string()))
        .build();
    let command = default_command(&options);
    let step = WifiStep::ConnectionInit;
    assert_eq![step.work(&options), StepWork::FindKnownNetworks];
    let known = WifiKnownNetworks {
        networks: vec![KnownNetwork {
            essid: "home".to_string(),
            service_identifier: NetworkServiceIdentifier::Netctl("home-profile".to_string()),
        }],
    };
    let next = step
        .exec(&command, &options, "wlan0", StepOutcome::KnownNetworks(Ok(known)))
        .unwrap();
    assert_eq![
        next,
        WifiStep::PasswordAsker {
            selected_network: AnnotatedWirelessNetwork::from_essid(
                "home".to_string(),
                NetworkServiceIdentifier::netctl_nw("home-profile"),
                true,
            )
        }
    ];
}

fn wpa_output() -> String {
    "Selected interface 'wlan0'\nbssid / frequency / signal level / flags / ssid\naa:bb:cc:dd:ee:ff\t2437\t-40\t[WPA2-PSK-CCMP][ESS]\thome\n11:22:33:44:55:66\t2412\t-70\t[ESS]\tcafe\n".to_string()
}

#[test]
fn parser_marks_known_and_moves_to_sorter() {
    let options = WifiConnectOptions::builder()
        .wifi(WifiOptions::from_scan_type(WifiScanType::WpaCli))
        .auto_mode(AutoMode::KnownOrAsk)
        .build();
    let command = default_command(&options);
    let known = WifiKnownNetworks {
        networks: vec![KnownNetwork {
            essid: "cafe".to_string(),
            service_identifier: NetworkServiceIdentifier::NetworkManager,
        }],
    };
    let step = WifiStep::NetworkParserAndAnnotator {
        scan_result: ScanResult { scan_type: ScanType::Wifi(WifiScanType::WpaCli), scan_output: wpa_output() },
        known_network_names: known,
    };
    match step.exec(&command, &options, "wlan0", StepOutcome::NoWork).unwrap() {
        WifiStep::NetworkSorter { annotated_networks } => {
            assert_eq![annotated_networks.networks.len(), 2];
            assert_eq![annotated_networks.networks[0].essid, "home"];
            assert_eq![annotated_networks.networks[0].signal_strength, Some(50)];
            assert![!annotated_networks.networks[0].is_known()];
            assert_eq![
                annotated_networks.networks[1].service_identifier,
                Some(NetworkServiceIdentifier::NetworkManager)
            ];
        }
        other => panic!("unexpected step {:?}", other),
    }
}

#[test]
fn parser_without_known_networks_asks_for_rescan() {
    let options = WifiConnectOptions::builder()
        .wifi(WifiOptions::from_scan_type(WifiScanType::WpaCli))
        .auto_mode(AutoMode::KnownOrFail)
        .build();
    let command = default_command(&options);
    let step = WifiStep::NetworkParserAndAnnotator {
        scan_result: ScanResult { scan_type: ScanType::Wifi(WifiScanType::WpaCli), scan_output: wpa_output() },
        known_network_names: WifiKnownNetworks::default(),
    };
    assert_eq![
        step.exec(&command, &options, "wlan0", StepOutcome::NoWork).unwrap(),
        WifiStep::SynchronousRescan { rescan_type: SynchronousRescanType::Automatic }
    ];
}

#[test]
fn selector_refresh_leads_to_manual_rescan() {
    let options = WifiConnectOptions::default();
    let command = default_command(&options);
    let step = WifiStep::NetworkSelector {
        sorted_networks: ruwi::sort_networks::SortedFilteredNetworks::new(vec![]),
    };
    let outcome = StepOutcome::Selected(Err(RuwiError::new(RuwiErrorKind::RefreshRequested, "r")));
    assert![outcome.answers(&step.work(&options))];
    assert_eq![
        step.exec(&command, &options, "wlan0", outcome).unwrap(),
        WifiStep::SynchronousRescan { rescan_type: SynchronousRescanType::ManuallyRequested }
    ];
}

#[test]
fn steps_run_to_the_end_and_stop() {
    let options = WifiConnectOptions::default();
    let command = default_command(&options);
    let nw = AnnotatedWirelessNetwork::from_essid_only("x");
    let configured = WifiStep::NetworkConfigurator { selected_network: nw.clone(), maybe_key: None }
        .exec(&command, &options, "wlan0", StepOutcome::Finished(Ok(())))
        .unwrap();
    assert_eq![configured, WifiStep::NetworkConnector { selected_network: nw, maybe_key: None }];
    let tested = configured
        .exec(&command, &options, "wlan0", StepOutcome::Finished(Ok(())))
        .unwrap();
    assert_eq![tested, WifiStep::NetworkConnectionTester];
    let done = tested.exec(&command, &options, "wlan0", StepOutcome::NoWork).unwrap();
    assert_eq![done, WifiStep::ConnectionSuccessful];
    let err = done.exec(&command, &options, "wlan0", StepOutcome::NoWork).unwrap_err();
    assert_eq![err.kind, RuwiErrorKind::UsedTerminalStep];
    assert_eq![err.desc, "Used terminal step!"];
}
