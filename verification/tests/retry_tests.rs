use ruwi::enums::{AutoMode, NetworkServiceIdentifier, SynchronousRescanType};
use ruwi::errors::{RuwiError, RuwiErrorKind};
use ruwi::options::{WifiConnectOptions, WifiOptions};
use ruwi::retry::{loop_check, manual_refresh_requested, should_auto_retry_with_synchronous_scan, LOOP_MAX};
use ruwi::structs::AnnotatedWirelessNetwork;

fn get_options(auto_mode: &AutoMode) -> WifiConnectOptions {
    WifiConnectOptions::builder()
        .wifi(WifiOptions::default())
        .auto_mode(*auto_mode)
        .build()
}

fn get_three_unknown_networks() -> Vec<AnnotatedWirelessNetwork> {
    vec![
        AnnotatedWirelessNetwork::from_essid("first_nw".to_string(), None, false),
        AnnotatedWirelessNetwork::from_essid("second_nw".to_string(), None, false),
        AnnotatedWirelessNetwork::from_essid("third_nw".to_string(), None, false),
    ]
}

fn get_three_known_networks() -> Vec<AnnotatedWirelessNetwork> {
    vec![
        AnnotatedWirelessNetwork::from_essid(
            "first_nw".to_string(),
            NetworkServiceIdentifier::netctl_nw("first_service_id"),
            false,
        ),
        AnnotatedWirelessNetwork::from_essid(
            "second_nw".to_string(),
            NetworkServiceIdentifier::netctl_nw("second_service_id"),
            false,
        ),
        AnnotatedWirelessNetwork::from_essid(
            "third_nw".to_string(),
            NetworkServiceIdentifier::netctl_nw("third_service_id"),
            false,
        ),
    ]
}

enum NetworkListType {
    ContainsKnown,
    ContainsOnlyUnknown,
    Empty,
}

fn get_networks(network_list_type: &NetworkListType) -> Vec<AnnotatedWirelessNetwork> {
    match network_list_type {
        NetworkListType::ContainsKnown => get_three_known_networks(),
        NetworkListType::ContainsOnlyUnknown => get_three_unknown_networks(),
        NetworkListType::Empty => vec![],
    }
}

#[test]
fn test_should_synchronous_retry_all_unknown() {
    type NLT = NetworkListType;
    type AM = AutoMode;
    let auto = Some(SynchronousRescanType::Automatic);
    let manual = Some(SynchronousRescanType::ManuallyRequested);
    let cases: Vec<(Option<SynchronousRescanType>, NetworkListType, AutoMode, bool)> = vec![
        (None, NLT::ContainsKnown, AM::Ask, false),
        (None, NLT::ContainsKnown, AM::First, false),
        (None, NLT::ContainsKnown, AM::KnownOrAsk, false),
        (None, NLT::ContainsKnown, AM::KnownOrFail, false),
        (None, NLT::ContainsOnlyUnknown, AM::Ask, false),
        (None, NLT::ContainsOnlyUnknown, AM::First, false),
        (None, NLT::ContainsOnlyUnknown, AM::KnownOrAsk, true),
        (None, NLT::ContainsOnlyUnknown, AM::KnownOrFail, true),
        (None, NLT::Empty, AM::Ask, true),
        (None, NLT::Empty, AM::First, true),
        (None, NLT::Empty, AM::KnownOrAsk, true),
        (None, NLT::Empty, AM::KnownOrFail, true),
        (auto, NLT::ContainsKnown, AM::Ask, false),
        (auto, NLT::ContainsKnown, AM::First, false),
        (auto, NLT::ContainsKnown, AM::KnownOrAsk, false),
        (auto, NLT::ContainsKnown, AM::KnownOrFail, false),
        (auto, NLT::ContainsOnlyUnknown, AM::Ask, false),
        (auto, NLT::ContainsOnlyUnknown, AM::First, false),
        (auto, NLT::ContainsOnlyUnknown, AM::KnownOrAsk, false),
        (auto, NLT::ContainsOnlyUnknown, AM::KnownOrFail, false),
        (auto, NLT::Empty, AM::Ask, false),
        (auto, NLT::Empty, AM::First, false),
        (auto, NLT::Empty, AM::KnownOrAsk, false),
        (auto, NLT::Empty, AM::KnownOrFail, false),
        (manual, NLT::ContainsKnown, AM::Ask, false),
        (manual, NLT::ContainsKnown, AM::First, false),
        (manual, NLT::ContainsKnown, AM::KnownOrAsk, false),
        (manual, NLT::ContainsKnown, AM::KnownOrFail, false),
        (manual, NLT::ContainsOnlyUnknown, AM::Ask, false),
        (manual, NLT::ContainsOnlyUnknown, AM::First, false),
        (manual, NLT::ContainsOnlyUnknown, AM::KnownOrAsk, false),
        (manual, NLT::ContainsOnlyUnknown, AM::KnownOrFail, false),
        (manual, NLT::Empty, AM::Ask, false),
        (manual, NLT::Empty, AM::First, false),
        (manual, NLT::Empty, AM::KnownOrAsk, false),
        (manual, NLT::Empty, AM::KnownOrFail, false),
    ];
    for (synchronous_rescan, network_list_type, auto_mode, expected_should_retry) in &cases {
        let options = get_options(auto_mode);
        let networks = get_networks(network_list_type);
        let should_retry =
            should_auto_retry_with_synchronous_scan(&options, &networks, synchronous_rescan);
        assert_eq![*expected_should_retry, should_retry];
    }
}

#[test]
fn test_big_loop_check_allows_at_least_5_loops() -> Result<(), RuwiError> {
    let mut start: u16 = 0;
    let max: u16 = 1000;
    for _ in 1..5 {
        loop_check(&mut start, max)?;
    }
    assert_eq![start, 4];
    loop_check(&mut start, max)
}

#[test]
fn test_loop_failure() -> Result<(), RuwiError> {
    let mut start: u16 = 0;
    let max: u16 = 2;

    loop_check(&mut start, max)?;
    loop_check(&mut start, max)?;

    let final_loop_res = loop_check(&mut start, max);

    if let Err(RuwiError { kind: RuwiErrorKind::LoopProtectionMaxExceeded, desc: _ }) = final_loop_res {
        Ok(())
    } else {
        panic!("Loop protection did not fail when expected!");
    }
}

#[test]
fn loop_check_stops_after_exactly_max_rounds() {
    let mut count: u16 = 0;
    for _ in 0..LOOP_MAX {
        assert![loop_check(&mut count, LOOP_MAX).is_ok()];
    }
    assert_eq![count, LOOP_MAX];
    let err = loop_check(&mut count, LOOP_MAX).unwrap_err();
    assert_eq![count, LOOP_MAX];
    assert_eq![
        err.desc,
        "Infinite loop suspected in main loop! If you just retried 1000 times by hand, consider the author very impressed and feel free to make a diff to bump this number. Exiting..."
    ];
}

#[test]
fn refresh_error_is_recognised() {
    let refresh: Result<(), RuwiError> = Err(RuwiError::new(RuwiErrorKind::RefreshRequested, "r"));
    let other: Result<(), RuwiError> = Err(RuwiError::new(RuwiErrorKind::NoKnownNetworksFound, "r"));
    assert![manual_refresh_requested(&refresh)];
    assert![!manual_refresh_requested(&other)];
    assert![!manual_refresh_requested(&Ok::<(), RuwiError>(()))];
}

/// Runs the scan-and-choose loop, answering the n-th choice with `choose(n)`;
/// returns the result and the number of rounds started.
fn run_scan_loop<F: Fn(u32) -> Result<AnnotatedWirelessNetwork, RuwiError>>(
    choose: F,
) -> (Result<AnnotatedWirelessNetwork, RuwiError>, u32) {
    let opts = get_options(&AutoMode::Ask);
    let mut state = ruwi::retry::ScanLoop::new();
    let mut rounds: u32 = 0;
    loop {
        if let Err(e) = state.start_round() {
            return (Err(e), rounds);
        }
        rounds += 1;
        match state.after_scan(&opts, get_three_unknown_networks()) {
            ruwi::retry::ScanLoopNext::Rescan => continue,
            ruwi::retry::ScanLoopNext::Select(_) => {}
        }
        if let Some(res) = state.after_selection(choose(rounds)) {
            return (res, rounds);
        }
    }
}

#[test]
fn scan_loop_ends_with_the_first_real_choice() {
    let (res, rounds) = run_scan_loop(|n| {
        if n < 4 {
            Err(RuwiError::new(RuwiErrorKind::RefreshRequested, "again"))
        } else {
            Ok(AnnotatedWirelessNetwork::from_essid("home".to_string(), None, false))
        }
    });
    assert_eq![res.unwrap().essid, "home"];
    assert_eq![rounds, 4];
}

#[test]
fn scan_loop_gives_up_after_loop_max_rounds() {
    let (res, rounds) = run_scan_loop(|_| Err(RuwiError::new(RuwiErrorKind::RefreshRequested, "again")));
    assert_eq![res.unwrap_err().kind, RuwiErrorKind::LoopProtectionMaxExceeded];
    assert_eq![rounds, LOOP_MAX as u32];
}
