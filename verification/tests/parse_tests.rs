use ruwi::enums::{ScanType, WifiScanType};
use ruwi::errors::RuwiErrorKind;
use ruwi::parse::{parse_result, scan_output_readable};
use ruwi::structs::{IndividualParseError, ScanResult, WirelessNetwork};

fn scan(st: WifiScanType, output: &str) -> ScanResult {
    ScanResult { scan_type: ScanType::Wifi(st), scan_output: output.to_string() }
}

const IW_TWO: &str = "BSS f4:28:53:fe:a5:d0(on wlp2s0)
\tTSF: 1 usec
\tfreq: 2437
\tcapability: ESS Privacy ShortSlotTime (0x0411)
\tsignal: -65.00 dBm
\tSSID: Valparaiso_Guest_House 1
BSS 68:72:51:68:73:da(on wlp2s0)
\tcapability: ESS ShortSlotTime (0x0401)
\tsignal: -46.00 dBm
\tSSID: Valparaiso\\x20Guest
";

#[test]
fn iw_two_networks_inline() {
    let res = parse_result("wlp2s0", &scan(WifiScanType::IW, IW_TWO)).unwrap();
    assert_eq![res.line_parse_errors.len(), 0];
    assert_eq![
        res.seen_networks,
        vec![
            WirelessNetwork {
                essid: "Valparaiso_Guest_House 1".to_string(),
                is_encrypted: true,
                bssid: Some("f4:28:53:fe:a5:d0".to_string()),
                signal_strength: Some(25),
                ..WirelessNetwork::default()
            },
            WirelessNetwork {
                essid: "Valparaiso Guest".to_string(),
                is_encrypted: false,
                bssid: Some("68:72:51:68:73:da".to_string()),
                signal_strength: Some(44),
                ..WirelessNetwork::default()
            },
        ]
    ];
}

#[test]
fn iw_block_errors_are_kept() {
    let output = "BSS 00:11:22:33:44:55(on wlan0)\n\tcapability: ESS\n\tSSID: bad\\q\nBSS 00:11:22:33:44:66(on wlan0)\n\tsignal: -50.00 dBm\n";
    let res = parse_result("wlan0", &scan(WifiScanType::IW, output)).unwrap();
    assert_eq![res.seen_networks.len(), 0];
    assert_eq![res.line_parse_errors.len(), 2];
    assert_eq![res.line_parse_errors[0].1, IndividualParseError::FailedToUnescapeSSIDField];
    assert_eq![res.line_parse_errors[1].1, IndividualParseError::MissingIWSSIDField];
}

#[test]
fn iw_malformed_and_empty_output() {
    let malformed = parse_result("wlan0", &scan(WifiScanType::IW, "hello\nBSS 00:11:22:33:44:55")).unwrap_err();
    assert_eq![malformed.kind, RuwiErrorKind::MalformedIWOutput];
    let empty = parse_result("wlan0", &scan(WifiScanType::IW, "  \n")).unwrap_err();
    assert_eq![empty.kind, RuwiErrorKind::NoNetworksSeenWithIWScanDump];
}

#[test]
fn wpa_cli_lines_inline() {
    let output = "Selected interface 'wlp2s0'\nbssid / frequency / signal level / flags / ssid\nf4:28:53:fe:a5:d0\t2437\t-66\t[WPA2-PSK-CCMP][ESS]\tValparaiso_Guest_House 1\n68:72:51:68:73:da\t2457\t-xx\t[WPA2-PSK-CCMP][ESS]\tValparaiso_Guest_House 2\n68:72:51:68:73:db\t2457\n";
    let res = parse_result("wlp2s0", &scan(WifiScanType::WpaCli, output)).unwrap();
    assert_eq![
        res.seen_networks,
        vec![WirelessNetwork {
            essid: "Valparaiso_Guest_House 1".to_string(),
            is_encrypted: true,
            bssid: Some("f4:28:53:fe:a5:d0".to_string()),
            signal_strength: Some(24),
            ..WirelessNetwork::default()
        }]
    ];
    assert_eq![res.line_parse_errors.len(), 2];
    assert_eq![res.line_parse_errors[0].1, IndividualParseError::FailedToParseSignalLevel];
    assert_eq![res.line_parse_errors[1], ("68:72:51:68:73:db\t2457".to_string(), IndividualParseError::MissingWpaCliResultField)];
}

#[test]
fn wpa_cli_header_and_no_networks() {
    let missing = parse_result("w", &scan(WifiScanType::WpaCli, "two words")).unwrap_err();
    assert_eq![missing.kind, RuwiErrorKind::WPACliHeaderMalformedOrMissing];
    let none = parse_result("w", &scan(WifiScanType::WpaCli, "a\nb\n")).unwrap_err();
    assert_eq![none.kind, RuwiErrorKind::NoNetworksSeenWithWPACliScanResults];
}

#[test]
fn nmcli_lines_inline() {
    let output = "WPA2:95:alltheinternets\n:90:xfinitywifi\nWPA1 WPA2:34:Lots:of:colons:lol:\nnocolons\n";
    let res = parse_result("w", &scan(WifiScanType::Nmcli, output)).unwrap();
    assert_eq![res.seen_networks.len(), 3];
    assert_eq![res.seen_networks[0].essid, "alltheinternets"];
    assert_eq![res.seen_networks[0].signal_strength, Some(95)];
    assert![!res.seen_networks[1].is_encrypted];
    assert_eq![res.seen_networks[2].essid, "Lots:of:colons:lol:"];
    assert_eq![res.line_parse_errors, vec![("nocolons".to_string(), IndividualParseError::MissingNmcliSeparator)]];
}

#[test]
fn json_is_not_read() {
    let err = parse_result("w", &scan(WifiScanType::RuwiJSON, "{}")).unwrap_err();
    assert_eq![err.kind, RuwiErrorKind::NotImplementedError];
}

#[test]
fn overflowing_signal_is_detected() {
    let big = "a\nb\naa:bb\t1\t2147483600\t[WPA]\tx\n";
    assert![!scan_output_readable(&scan(WifiScanType::WpaCli, big))];
    assert![scan_output_readable(&scan(WifiScanType::WpaCli, "a\nb\naa:bb\t1\t-40\t[WPA]\tx\n"))];
    assert![scan_output_readable(&scan(WifiScanType::IW, IW_TWO))];
}

#[test]
fn iw_blocks_cover_the_trimmed_lines() {
    let output: Vec<char> = IW_TWO.chars().collect();
    let blocks = ruwi::parse::break_iw_output_into_chunks_per_network("wlp2s0", &output).unwrap();
    assert_eq![blocks.len(), 2];
    let lines: Vec<String> = IW_TWO.trim().lines().map(|l| l.trim().to_string()).collect();
    let joined: Vec<String> = blocks.iter().flatten().map(|l| l.iter().collect::<String>()).collect();
    assert_eq![joined, lines];
    for block in &blocks {
        let first: String = block[0].iter().collect();
        assert![first.starts_with("BSS ")];
        for line in &block[1..] {
            let text: String = line.iter().collect();
            assert![!text.starts_with("BSS ")];
        }
    }
    assert_eq![blocks[0].len(), 6];
    assert_eq![blocks[1].len(), 4];
}
