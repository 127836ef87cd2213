//! Scanner outputs with the expected parse of each: one network, several,
//! none, duplicates, empty names, missing fields and unreadable levels.

use ruwi::enums::{ScanType, WifiScanType};
use ruwi::errors::RuwiError;
use ruwi::parse::{err_wpa_cli_no_networks_seen, missing_wpa_cli_header, parse_result};
use ruwi::structs::{IndividualParseError, ParseResult, ScanResult, WirelessNetwork};

const IW_ONE_NETWORK: &str = "BSS 32:ac:a3:7b:ab:0b(on wlp2s0) -- associated
\tTSF: 4093453466 usec (0d, 01:08:13)
\tfreq: 5180
\tbeacon interval: 100 TUs
\tcapability: ESS Privacy SpectrumMgmt (0x0111)
\tsignal: -38.00 dBm
\tlast seen: 24 ms ago
\tSSID: Pee Pee Poo Poo Man
\tSupported rates: 6.0* 9.0 12.0* 18.0 24.0* 36.0 48.0 54.0
";

const IW_TWO_DIFFERENT_NETWORKS: &str = "BSS f4:28:53:fe:a5:d0(on wlp2s0)
\tTSF: 1151906787 usec (0d, 00:19:11)
\tfreq: 2437
\tcapability: ESS Privacy ShortSlotTime (0x0411)
\tsignal: -65.00 dBm
\tSSID: Valparaiso_Guest_House 1
BSS 68:72:51:68:73:da(on wlp2s0)
\tTSF: 1151895524 usec (0d, 00:19:11)
\tfreq: 2457
\tcapability: ESS Privacy ShortSlotTime (0x0411)
\tsignal: -46.00 dBm
\tSSID: Valparaiso_Guest_House 2
";

const WPA_CLI_NO_NETWORKS: &str = "Selected interface 'wlp2s0'
bssid / frequency / signal level / flags / ssid
";

const WPA_CLI_TWO_DIFFERENT_NETWORKS: &str = "Selected interface 'wlp2s0'
bssid / frequency / signal level / flags / ssid
f4:28:53:fe:a5:d0\t2437\t-66\t[WPA2-PSK-CCMP][ESS]\tValparaiso_Guest_House 1
68:72:51:68:73:da\t2457\t-47\t[WPA2-PSK-CCMP][ESS]\tValparaiso_Guest_House 2
";

const WPA_CLI_SEVEN_NETWORKS: &str = "Selected interface 'wlp3s0'
bssid / frequency / signal level / flags / ssid
78:8a:20:e3:9d:62\t2462\t-41\t[WPA2-PSK-CCMP][ESS]\tNima Lodge
fc:3f:db:a1:5e:b0\t2437\t-68\t[WPA2-PSK-CCMP][WPS][ESS][P2P]\tDIRECT-AF-HP DeskJet 3830 series
fc:ec:da:69:e0:3e\t2412\t-85\t[WPA2-PSK-CCMP][ESS]\tNima Lodge
fe:ec:da:69:e0:3e\t2412\t-85\t[WPA2-PSK-CCMP][ESS]\t
ba:69:f4:1f:2d:15\t5745\t-89\t[ESS]\tWISPerNET-George-Sentraal1
b8:69:f4:1f:2d:15\t5745\t-89\t[ESS]\tWISPerNET-Bosplaas-SW-802.11
7a:8a:20:e3:9d:62\t2462\t-39\t[WPA2-PSK-CCMP][ESS]
";

const WPA_CLI_TWO_LINES_MISSING_INFO: &str = "Selected interface 'wlp2s0'
bssid / frequency / signal level / flags / ssid
f4:28:53:fe:a5:d0\t2437\t-66\t[WPA2-PSK-CCMP][ESS]\tValparaiso_Guest_House 1
f4:28:53:fe:a5:d0\t2437\t-66
68:72:51:68:73:da\t2457
";

const WPA_CLI_SIGNAL_LEVEL_PARSE_ERROR: &str = "Selected interface 'wlp2s0'
bssid / frequency / signal level / flags / ssid
f4:28:53:fe:a5:d0\t2437\t-66\t[WPA2-PSK-CCMP][ESS]\tValparaiso_Guest_House 1
68:72:51:68:73:da\t2457\t-xx\t[WPA2-PSK-CCMP][ESS]\tValparaiso_Guest_House 2
";

const BROKEN_INPUT_TWO_WORDS: &str = "LOL WUT\n";

const NMCLI_MANY_NETWORKS: &str = "WPA2:95:alltheinternets
WPA1 WPA2:95:Patrician Pad
WPA2:94:casa
WPA1 WPA2:94:Patrician Pad
:90:xfinitywifi
WPA2 802.1X:52:MeshResearch
WPA2:35:
:34:Lots:of:colons:lol:
WPA2:32:
:32:xfinitywifi
WPA2:30:Okonomiyaki
WPA2:17:XFINITY
WPA1 WPA2:15:
";

fn check(st: WifiScanType, output: &str, expected: Result<ParseResult, RuwiError>) {
    let scan_type = ScanType::Wifi(st);
    let scan_result = ScanResult { scan_type, scan_output: output.to_string() };
    let actual = parse_result("wlp2s0", &scan_result);
    match (&expected, &actual) {
        (Ok(e), Ok(a)) => assert_eq![e, a],
        (Err(e), Err(a)) => {
            assert_eq![e.kind, a.kind];
            assert_eq![e.desc, a.desc];
        }
        (_, _) => panic!("Actual and expected parse results differed!"),
    }
}

fn nw(essid: &str, is_encrypted: bool, bssid: Option<&str>, signal_strength: i32) -> WirelessNetwork {
    WirelessNetwork {
        essid: essid.to_string(),
        is_encrypted,
        bssid: bssid.map(String::from),
        signal_strength: Some(signal_strength),
        ..WirelessNetwork::default()
    }
}

fn ok(st: WifiScanType, seen_networks: Vec<WirelessNetwork>, line_parse_errors: Vec<(String, IndividualParseError)>) -> Result<ParseResult, RuwiError> {
    Ok(ParseResult { scan_type: ScanType::Wifi(st), seen_networks, line_parse_errors })
}

fn check_iw_one_network() {
    let expected = ok(
        WifiScanType::IW,
        vec![nw("Pee Pee Poo Poo Man", true, Some("32:ac:a3:7b:ab:0b"), 52)],
        vec![],
    );
    check(WifiScanType::IW, IW_ONE_NETWORK, expected);
}

fn check_iw_two_different_networks() {
    let expected = ok(
        WifiScanType::IW,
        vec![
            nw("Valparaiso_Guest_House 1", true, Some("f4:28:53:fe:a5:d0"), 25),
            nw("Valparaiso_Guest_House 2", true, Some("68:72:51:68:73:da"), 44),
        ],
        vec![],
    );
    check(WifiScanType::IW, IW_TWO_DIFFERENT_NETWORKS, expected);
}

fn check_wpa_cli_no_networks() {
    check(WifiScanType::WpaCli, WPA_CLI_NO_NETWORKS, Err(err_wpa_cli_no_networks_seen()));
}

fn check_wpa_cli_two_different_networks() {
    let expected = ok(
        WifiScanType::WpaCli,
        vec![
            nw("Valparaiso_Guest_House 1", true, Some("f4:28:53:fe:a5:d0"), 24),
            nw("Valparaiso_Guest_House 2", true, Some("68:72:51:68:73:da"), 43),
        ],
        vec![],
    );
    check(WifiScanType::WpaCli, WPA_CLI_TWO_DIFFERENT_NETWORKS, expected);
}

fn check_wpa_cli_seven_networks() {
    let expected = ok(
        WifiScanType::WpaCli,
        vec![
            nw("Nima Lodge", true, Some("78:8a:20:e3:9d:62"), 49),
            nw("DIRECT-AF-HP DeskJet 3830 series", true, Some("fc:3f:db:a1:5e:b0"), 22),
            nw("Nima Lodge", true, Some("fc:ec:da:69:e0:3e"), 5),
            nw("", true, Some("fe:ec:da:69:e0:3e"), 5),
            nw("WISPerNET-George-Sentraal1", false, Some("ba:69:f4:1f:2d:15"), 1),
            nw("WISPerNET-Bosplaas-SW-802.11", false, Some("b8:69:f4:1f:2d:15"), 1),
            nw("", true, Some("7a:8a:20:e3:9d:62"), 51),
        ],
        vec![],
    );
    check(WifiScanType::WpaCli, WPA_CLI_SEVEN_NETWORKS, expected);
}

fn check_wpa_cli_two_lines_missing_info() {
    let expected = ok(
        WifiScanType::WpaCli,
        vec![nw("Valparaiso_Guest_House 1", true, Some("f4:28:53:fe:a5:d0"), 24)],
        vec![
            ("f4:28:53:fe:a5:d0\t2437\t-66".to_string(), IndividualParseError::MissingWpaCliResultField),
            ("68:72:51:68:73:da\t2457".to_string(), IndividualParseError::MissingWpaCliResultField),
        ],
    );
    check(WifiScanType::WpaCli, WPA_CLI_TWO_LINES_MISSING_INFO, expected);
}

fn check_wpa_cli_signal_level_parse_error() {
    let expected = ok(
        WifiScanType::WpaCli,
        vec![nw("Valparaiso_Guest_House 1", true, Some("f4:28:53:fe:a5:d0"), 24)],
        vec![(
            "68:72:51:68:73:da\t2457\t-xx\t[WPA2-PSK-CCMP][ESS]\tValparaiso_Guest_House 2".to_string(),
            IndividualParseError::FailedToParseSignalLevel,
        )],
    );
    check(WifiScanType::WpaCli, WPA_CLI_SIGNAL_LEVEL_PARSE_ERROR, expected);
}

fn check_broken_input_two_words() {
    check(WifiScanType::WpaCli, BROKEN_INPUT_TWO_WORDS, Err(missing_wpa_cli_header()));
}

#[test]
fn parse_test_iw_one_network() {
    check_iw_one_network();
}

#[test]
fn mod_test_iw_one_network() {
    check_iw_one_network();
}

#[test]
fn parse_test_iw_two_different_networks() {
    check_iw_two_different_networks();
}

#[test]
fn mod_test_iw_two_different_networks() {
    check_iw_two_different_networks();
}

#[test]
fn parse_test_wpa_cli_no_networks() {
    check_wpa_cli_no_networks();
}

#[test]
fn mod_test_wpa_cli_no_networks() {
    check_wpa_cli_no_networks();
}

#[test]
fn parse_test_wpa_cli_two_different_networks() {
    check_wpa_cli_two_different_networks();
}

#[test]
fn mod_test_wpa_cli_two_different_networks() {
    check_wpa_cli_two_different_networks();
}

#[test]
fn parse_test_wpa_cli_seven_networks_two_duplicates_two_empty() {
    check_wpa_cli_seven_networks();
}

#[test]
fn mod_test_wpa_cli_seven_networks_two_duplicates_two_empty() {
    check_wpa_cli_seven_networks();
}

#[test]
fn parse_test_wpa_cli_two_lines_missing_info() {
    check_wpa_cli_two_lines_missing_info();
}

#[test]
fn mod_test_wpa_cli_two_lines_missing_info() {
    check_wpa_cli_two_lines_missing_info();
}

#[test]
fn parse_test_wpa_cli_two_networks_one_with_signal_level_parse_error() {
    check_wpa_cli_signal_level_parse_error();
}

#[test]
fn mod_test_wpa_cli_two_networks_one_with_signal_level_parse_error() {
    check_wpa_cli_signal_level_parse_error();
}

#[test]
fn test_broken_input_two_words() {
    check_broken_input_two_words();
}

#[test]
fn test_wpa_cli_broken_input_two_words() {
    check_broken_input_two_words();
}

#[test]
fn test_nmcli_many_networks() {
    let expected = ok(
        WifiScanType::Nmcli,
        vec![
            nw("alltheinternets", true, None, 95),
            nw("Patrician Pad", true, None, 95),
            nw("casa", true, None, 94),
            nw("Patrician Pad", true, None, 94),
            nw("xfinitywifi", false, None, 90),
            nw("MeshResearch", true, None, 52),
            nw("", true, None, 35),
            nw("Lots:of:colons:lol:", false, None, 34),
            nw("", true, None, 32),
            nw("xfinitywifi", false, None, 32),
            nw("Okonomiyaki", true, None, 30),
            nw("XFINITY", true, None, 17),
            nw("", true, None, 15),
        ],
        vec![],
    );
    check(WifiScanType::Nmcli, NMCLI_MANY_NETWORKS, expected);
}
