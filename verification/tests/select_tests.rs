use ruwi::enums::{AutoMode, NetworkServiceIdentifier, SelectionMethod};
use ruwi::errors::{RuwiError, RuwiErrorKind};
use ruwi::interfaces::AutoSelect;
use ruwi::options::{WifiConnectOptions, WifiOptions};
use ruwi::select::{
    dmenu_args, fzf_args, get_index_of_selected_item, get_line_parse_err,
    get_possible_selection_options_as_strings, get_refresh_requested_err, password_prompt,
    selection_prompt, SelectionOption,
};
use ruwi::sort_networks::SortedFilteredNetworks;
use ruwi::structs::AnnotatedWirelessNetwork;

const FIRST_NW_NAME: &str = "FIRSTNWLOL";
const SECND_NW_NAME: &str = "SECNDNWWUT";
const THIRD_NW_NAME: &str = "THIRDNWOKK";

fn get_3_networks() -> SortedFilteredNetworks {
    let networks = [FIRST_NW_NAME, SECND_NW_NAME, THIRD_NW_NAME]
        .iter()
        .map(|name| AnnotatedWirelessNetwork::from_essid((*name).to_string(), None, false))
        .collect::<Vec<AnnotatedWirelessNetwork>>();
    SortedFilteredNetworks::new(networks)
}

fn get_3_unknown_networks() -> SortedFilteredNetworks {
    get_3_networks()
}

fn get_3_networks_first_known() -> SortedFilteredNetworks {
    let mut networks = get_3_networks();
    networks.get_networks_mut()[0]
        .set_service_identifier(NetworkServiceIdentifier::netctl_nw("some_id"));
    networks
}

fn get_3_networks_last_known() -> SortedFilteredNetworks {
    let mut networks = get_3_networks();
    networks.get_networks_mut()[2]
        .set_service_identifier(NetworkServiceIdentifier::netctl_nw("some_id"));
    networks
}

fn select_refresh(
    networks: &SortedFilteredNetworks,
    _options: &WifiConnectOptions,
) -> Result<AnnotatedWirelessNetwork, RuwiError> {
    let _ = networks;
    Err(RuwiError::new(RuwiErrorKind::RefreshRequested, "Refresh requested."))
}

fn err_should_not_have_used_manual(
    _networks: &SortedFilteredNetworks,
    _options: &WifiConnectOptions,
) -> Result<AnnotatedWirelessNetwork, RuwiError> {
    Err(RuwiError::new(
        RuwiErrorKind::TestUsedManualWhenNotExpected,
        "Used manual selector in test when should not have!",
    ))
}

fn check_get_indices(test_cases: Vec<(&str, Result<usize, RuwiError>)>) -> Result<(), RuwiError> {
    for (line, res) in test_cases {
        match get_index_of_selected_item(line) {
            Ok(val) => assert_eq![res?, val],
            Err(err) => assert_eq![res.err().unwrap().kind, err.kind],
        }
    }
    Ok(())
}

#[test]
fn test_refresh_is_present() {
    assert![get_possible_selection_options_as_strings().contains(&"refresh".to_string())];
}

#[test]
fn get_index_of_selected_item_test_get_indices() -> Result<(), RuwiError> {
    let test_cases: Vec<(&str, Result<usize, RuwiError>)> = vec![
        ("1) jfdlskajfdlksa", Ok(1)),
        ("0) jfdlskajfdlksa", Ok(0)),
        ("22) jfdlskajfdlksa", Ok(22)),
        ("69) 54) jfdlskajfdlksa", Ok(69)),
        ("4000) jfdlskajfdlksa", Ok(4000)),
        ("4000000000) jfdlskajfdlksa", Ok(4_000_000_000)),
        ("-12) negawifi", Err(get_line_parse_err("-12) negawifi"))),
        ("jf jfjf", Err(get_line_parse_err("jf jfjf"))),
        ("!@&*(#@!", Err(get_line_parse_err("!@&*(#@!"))),
        ("refresh", Err(get_refresh_requested_err())),
        (".", Err(get_refresh_requested_err())),
        (" ", Ok(0)),
        ("\n", Ok(0)),
        ("\t", Ok(0)),
        ("\n\n\t \t", Ok(0)),
        ("\n\n\t1\t", Ok(1)),
        ("\n\t12\t", Ok(12)),
    ];
    check_get_indices(test_cases)
}

#[test]
fn select_network_test_get_indices() -> Result<(), RuwiError> {
    let test_cases: Vec<(&str, Result<usize, RuwiError>)> = vec![
        ("1) jfdlskajfdlksa", Ok(1)),
        ("0) jfdlskajfdlksa", Ok(0)),
        ("22) jfdlskajfdlksa", Ok(22)),
        ("69) 54) jfdlskajfdlksa", Ok(69)),
        ("4000) jfdlskajfdlksa", Ok(4000)),
        ("4000000000) jfdlskajfdlksa", Ok(4_000_000_000)),
        ("-12) negawifi", Err(get_line_parse_err("-12) negawifi"))),
        ("jf jfjf", Err(get_line_parse_err("jf jfjf"))),
        ("!@&*(#@!", Err(get_line_parse_err("!@&*(#@!"))),
    ];
    check_get_indices(test_cases)
}

#[test]
fn index_parse_error_describes_trimmed_line() {
    let err = get_index_of_selected_item("  jf jfjf \n").unwrap_err();
    assert_eq![err.kind, RuwiErrorKind::FailedToParseSelectedLine];
    assert_eq![err.desc, "Failed to parse line jf jfjf"];
    let refresh = get_index_of_selected_item(" refresh\n").unwrap_err();
    assert_eq![refresh.kind, RuwiErrorKind::RefreshRequested];
    assert_eq![refresh.desc, "Refresh requested."];
    assert_eq![get_index_of_selected_item("+7) plus").unwrap(), 7];
    assert_eq![
        get_index_of_selected_item("99999999999999999999999) big").unwrap_err().kind,
        RuwiErrorKind::FailedToParseSelectedLine
    ];
}

fn check_manual_selector_output() {
    let opts = WifiConnectOptions::default();
    let networks = get_3_unknown_networks();

    let run_without_whitespace = networks
        .run_manual_selector_impl(&opts, |_opts, names| Ok(names.first().unwrap().to_string()))
        .unwrap();

    let run_with_whitespace = networks
        .run_manual_selector_impl(&opts, |_opts, names| {
            Ok(format!(" \n\n  \n {}   \n\n   \t   \n", &names.first().unwrap()))
        })
        .unwrap();

    assert_eq!(run_without_whitespace, run_with_whitespace);
}

#[test]
fn mod_test_manual_selector_output() {
    check_manual_selector_output();
}

#[test]
fn select_network_test_manual_selector_output() {
    check_manual_selector_output();
}

fn check_tokens_for_selection() {
    let networks = SortedFilteredNetworks::new(vec![
        AnnotatedWirelessNetwork::from_essid(
            "FAKE NEWS LOL OK".to_string(),
            NetworkServiceIdentifier::netctl_nw("some_id"),
            true,
        ),
        AnnotatedWirelessNetwork::from_essid("WOWWW OK FACEBO".to_string(), None, true),
        AnnotatedWirelessNetwork::from_essid(
            "LOOK, DISCOURSE".to_string(),
            NetworkServiceIdentifier::netctl_nw("some_id"),
            false,
        ),
        AnnotatedWirelessNetwork::from_essid("UWU MAMMMAAAAA".to_string(), None, false),
    ]);
    let tokens = networks.get_tokens_for_selection();
    for (i, (nw, token)) in networks.get_networks().iter().zip(tokens).enumerate() {
        let expected_token = format!("{}) {}", i, nw.get_display_string());
        assert_eq![expected_token, token];
    }
}

#[test]
fn mod_test_get_tokens_for_selection() {
    check_tokens_for_selection();
}

#[test]
fn select_network_test_get_tokens_for_selection() {
    check_tokens_for_selection();
}

fn check_manually_select_first_network() -> Result<(), RuwiError> {
    let options = WifiConnectOptions::default();
    assert_eq![options.get_auto_mode(), &AutoMode::Ask];
    let networks = get_3_unknown_networks();
    let nw = networks.select_network_impl(&options, |n, _o| n.select_first())?;
    assert_eq![networks.get_networks()[0], nw];
    Ok(())
}

#[test]
fn mod_test_manually_select_first_network() -> Result<(), RuwiError> {
    check_manually_select_first_network()
}

#[test]
fn select_network_test_manually_select_first_network() -> Result<(), RuwiError> {
    check_manually_select_first_network()
}

fn check_manually_select_last_network() -> Result<(), RuwiError> {
    let options = WifiConnectOptions::default();
    assert_eq![options.get_auto_mode(), &AutoMode::Ask];
    let networks = get_3_unknown_networks();
    let nw = networks.select_network_impl(&options, |n, _o| n.select_last())?;
    assert_eq![networks.get_networks()[2], nw];
    Ok(())
}

#[test]
fn mod_test_manually_select_last_network() -> Result<(), RuwiError> {
    check_manually_select_last_network()
}

#[test]
fn select_network_test_manually_select_last_network() -> Result<(), RuwiError> {
    check_manually_select_last_network()
}

fn check_fail_to_manually_select() {
    let options = WifiConnectOptions::default();
    assert_eq![options.get_auto_mode(), &AutoMode::Ask];
    let networks = get_3_unknown_networks();
    let res = networks.select_network_impl(&options, |n, _o| n.select_first_known());
    assert_eq![RuwiErrorKind::NoKnownNetworksFound, res.err().unwrap().kind];
}

#[test]
fn mod_test_fail_to_manually_select() {
    check_fail_to_manually_select();
}

#[test]
fn select_network_test_fail_to_manually_select() {
    check_fail_to_manually_select();
}

fn known_or_fail_options() -> WifiConnectOptions {
    WifiConnectOptions::builder()
        .wifi(WifiOptions::default())
        .auto_mode(AutoMode::KnownOrFail)
        .build()
}

fn check_auto_last_known() -> Result<(), RuwiError> {
    let options = known_or_fail_options();
    let networks = get_3_networks_last_known();
    let nw = networks.select_network_impl(&options, err_should_not_have_used_manual)?;
    assert_eq![networks.get_networks()[2], nw];
    Ok(())
}

#[test]
fn mod_test_auto_first_known() -> Result<(), RuwiError> {
    check_auto_last_known()
}

#[test]
fn select_network_test_auto_first_known() -> Result<(), RuwiError> {
    check_auto_last_known()
}

fn check_auto_no_ask_first_known() -> Result<(), RuwiError> {
    let options = known_or_fail_options();
    let networks = get_3_networks_first_known();
    let nw = networks.select_network_impl(&options, err_should_not_have_used_manual)?;
    assert_eq![networks.get_networks()[0], nw];
    Ok(())
}

#[test]
fn mod_test_auto_no_ask_first_known() -> Result<(), RuwiError> {
    check_auto_no_ask_first_known()
}

#[test]
fn select_network_test_auto_no_ask_first_known() -> Result<(), RuwiError> {
    check_auto_no_ask_first_known()
}

#[test]
fn mod_test_auto_no_ask_first_known2() -> Result<(), RuwiError> {
    check_auto_last_known()
}

#[test]
fn select_network_test_auto_no_ask_first_known2() -> Result<(), RuwiError> {
    check_auto_last_known()
}

fn check_auto_fallback() -> Result<(), RuwiError> {
    let options = WifiConnectOptions::builder()
        .wifi(WifiOptions::default())
        .auto_mode(AutoMode::KnownOrAsk)
        .build();
    let networks = get_3_unknown_networks();
    let nw = networks.select_network_impl(&options, |n, _o| n.select_first())?;
    assert_eq![networks.get_networks()[0], nw];
    Ok(())
}

#[test]
fn mod_test_auto_fallback() -> Result<(), RuwiError> {
    check_auto_fallback()
}

#[test]
fn select_network_test_auto_fallback() -> Result<(), RuwiError> {
    check_auto_fallback()
}

fn check_manually_refresh() {
    let options = WifiConnectOptions::default();
    assert_eq![options.get_auto_mode(), &AutoMode::Ask];
    let networks = get_3_unknown_networks();
    assert![networks
        .get_tokens_for_selection()
        .contains(&SelectionOption::Refresh.as_static().to_string())];
    let res = networks.select_network_impl(&options, select_refresh);
    assert_eq![RuwiErrorKind::RefreshRequested, res.err().unwrap().kind];
}

#[test]
fn mod_test_manually_refresh() {
    check_manually_refresh();
}

#[test]
fn select_network_test_manually_refresh() {
    check_manually_refresh();
}

#[test]
fn known_or_fail_without_known_network_fails() {
    let options = known_or_fail_options();
    let networks = get_3_unknown_networks();
    let err = networks
        .select_network_impl(&options, err_should_not_have_used_manual)
        .unwrap_err();
    assert_eq![err.kind, RuwiErrorKind::NoKnownNetworksFound];
    assert_eq![err.desc, "No known networks found!"];
}

#[test]
fn first_mode_on_empty_list_fails() {
    let options = WifiConnectOptions::builder()
        .wifi(WifiOptions::default())
        .auto_mode(AutoMode::First)
        .build();
    let networks = SortedFilteredNetworks::new(vec![]);
    let err = networks
        .select_network_impl(&options, err_should_not_have_used_manual)
        .unwrap_err();
    assert_eq![err.kind, RuwiErrorKind::NoNetworksFoundWhenLookingForFirst];
    let last = networks.select_last().unwrap_err();
    assert_eq![last.kind, RuwiErrorKind::TestNoNetworksFoundWhenLookingForLast];
}

#[test]
fn each_token_selects_its_network() {
    let networks = get_3_networks_last_known();
    let tokens = networks.get_tokens_for_selection();
    assert_eq![tokens.len(), 4];
    for (i, token) in tokens.iter().take(3).enumerate() {
        assert_eq![get_index_of_selected_item(token).unwrap(), i];
        assert_eq![
            networks.network_for_selection(token).unwrap(),
            networks.get_networks()[i]
        ];
    }
    assert_eq![
        networks.network_for_selection(&tokens[3]).unwrap_err().kind,
        RuwiErrorKind::RefreshRequested
    ];
    let missing = networks.network_for_selection("7) nothing").unwrap_err();
    assert_eq![missing.kind, RuwiErrorKind::NoNetworksFoundMatchingSelectionResult];
    assert_eq![missing.desc, "No network matching 7) nothing found."];
}

#[test]
fn prompts_and_program_arguments() {
    assert_eq![selection_prompt(SelectionMethod::Dmenu), "Select a network: "];
    assert_eq![password_prompt("home"), "Password for home: "];
    assert_eq![dmenu_args("P: "), vec!["-i", "-p", "P: "]];
    assert_eq![
        fzf_args("P: ", Some("x")),
        vec![
            "--layout",
            "reverse",
            "--prompt=P: ",
            "--bind",
            "ctrl-r:execute(echo refresh)+end-of-line+unix-line-discard+print-query",
            "--filter=x"
        ]
    ];
    assert_eq![fzf_args("P: ", None).len(), 5];
    assert_eq![SelectionOption::from_name(&['r', 'e', 'f', 'r', 'e', 's', 'h']), Some(SelectionOption::Refresh)];
    assert_eq![SelectionOption::from_name(&['x']), None];
}

#[test]
fn auto_choice_is_strongest_known() {
    let weak_known = AnnotatedWirelessNetwork {
        essid: "home".to_string(),
        signal_strength: Some(-80),
        service_identifier: NetworkServiceIdentifier::netctl_nw("home"),
        ..AnnotatedWirelessNetwork::default()
    };
    let strong_known = AnnotatedWirelessNetwork {
        essid: "office".to_string(),
        signal_strength: Some(-30),
        service_identifier: NetworkServiceIdentifier::netctl_nw("office"),
        ..AnnotatedWirelessNetwork::default()
    };
    let strongest_unknown = AnnotatedWirelessNetwork {
        essid: "cafe".to_string(),
        signal_strength: Some(-5),
        ..AnnotatedWirelessNetwork::default()
    };
    let networks = SortedFilteredNetworks::new(vec![weak_known, strongest_unknown, strong_known.clone()]);
    let options = WifiConnectOptions::builder()
        .wifi(WifiOptions::default())
        .auto_mode(AutoMode::KnownOrAsk)
        .build();
    let nw = networks.select_network_impl(&options, err_should_not_have_used_manual).unwrap();
    assert_eq![nw, strong_known];
}
