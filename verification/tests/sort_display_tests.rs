use std::cmp::Ordering;

use ruwi::display::{KNOWN_TOKEN, OPEN_TOKEN};
use ruwi::enums::NetworkServiceIdentifier;
use ruwi::sort_networks::{put_best_networks_first, RankOrder, SortedFilteredNetworks};
use ruwi::structs::AnnotatedWirelessNetwork;

fn by_rank(a: &AnnotatedWirelessNetwork, b: &AnnotatedWirelessNetwork) -> Ordering {
    match a.rank_order(b) {
        RankOrder::Less => Ordering::Less,
        RankOrder::Equal => Ordering::Equal,
        RankOrder::Greater => Ordering::Greater,
    }
}

fn compare_order(should_be_first: AnnotatedWirelessNetwork, should_be_last: AnnotatedWirelessNetwork) {
    let wrong_order = vec![should_be_last.clone(), should_be_first.clone()];

    let mut right_order = wrong_order;
    right_order.sort_by(by_rank);

    assert_eq![right_order, vec![should_be_first, should_be_last]];
}

#[test]
fn test_strength_sorting() {
    let higher_signal = AnnotatedWirelessNetwork {
        essid: "Valparaiso_Guest_House 1".to_string(),
        signal_strength: Some(-66),
        ..AnnotatedWirelessNetwork::default()
    };

    let lower_signal = AnnotatedWirelessNetwork {
        essid: "Valparaiso_Guest_House 1".to_string(),
        signal_strength: Some(-69),
        ..AnnotatedWirelessNetwork::default()
    };

    compare_order(lower_signal, higher_signal);
}

#[test]
fn test_known_higher_than_unknown() {
    let known = AnnotatedWirelessNetwork {
        essid: "Valparaiso_Guest_House 1".to_string(),
        service_identifier: NetworkServiceIdentifier::netctl_nw("some_id"),
        ..AnnotatedWirelessNetwork::default()
    };

    let not_known = AnnotatedWirelessNetwork {
        essid: "Valparaiso_Guest_House 1".to_string(),
        service_identifier: None,
        ..AnnotatedWirelessNetwork::default()
    };

    compare_order(not_known, known);
}

#[test]
fn test_known_higher_than_unknown_with_higher_signal() {
    let known = AnnotatedWirelessNetwork {
        essid: "Valparaiso_Guest_House 1".to_string(),
        service_identifier: NetworkServiceIdentifier::netctl_nw("some_id"),
        signal_strength: Some(-80),
        ..AnnotatedWirelessNetwork::default()
    };

    let not_known = AnnotatedWirelessNetwork {
        essid: "Valparaiso_Guest_House 1".to_string(),
        service_identifier: None,
        signal_strength: Some(-20),
        ..AnnotatedWirelessNetwork::default()
    };

    compare_order(not_known, known);
}

#[test]
fn test_unique_nw_name_sort() {
    let networks = vec![
        AnnotatedWirelessNetwork {
            essid: "DOOK".to_string(),
            signal_strength: Some(-5),
            ..AnnotatedWirelessNetwork::default()
        },
        AnnotatedWirelessNetwork {
            essid: "BOYS".to_string(),
            signal_strength: Some(-47),
            ..AnnotatedWirelessNetwork::default()
        },
        AnnotatedWirelessNetwork {
            essid: "DOOK".to_string(),
            signal_strength: Some(-49),
            ..AnnotatedWirelessNetwork::default()
        },
        AnnotatedWirelessNetwork {
            essid: "YES".to_string(),
            signal_strength: Some(-89),
            ..AnnotatedWirelessNetwork::default()
        },
    ];

    let expected_networks = vec![networks[0].clone(), networks[1].clone(), networks[3].clone()];

    let sorted_unique_networks = SortedFilteredNetworks::new(networks);
    assert_eq![expected_networks, sorted_unique_networks.get_networks()];
}

#[test]
fn sorting_puts_known_first_and_keeps_best_of_each_name() {
    let weak_known = AnnotatedWirelessNetwork {
        essid: "home".to_string(),
        signal_strength: Some(-80),
        service_identifier: NetworkServiceIdentifier::netctl_nw("home"),
        ..AnnotatedWirelessNetwork::default()
    };
    let strong_unknown = AnnotatedWirelessNetwork {
        essid: "cafe".to_string(),
        signal_strength: Some(-10),
        ..AnnotatedWirelessNetwork::default()
    };
    let no_signal = AnnotatedWirelessNetwork { essid: "quiet".to_string(), ..AnnotatedWirelessNetwork::default() };
    let weaker_cafe = AnnotatedWirelessNetwork {
        essid: "cafe".to_string(),
        signal_strength: Some(-70),
        ..AnnotatedWirelessNetwork::default()
    };
    let input = vec![no_signal.clone(), strong_unknown.clone(), weaker_cafe, weak_known.clone()];
    let sorted = SortedFilteredNetworks::new(input);
    assert_eq![sorted.get_networks(), &[weak_known, strong_unknown, no_signal][..]];
}

#[test]
fn equal_ranks_keep_later_networks_first() {
    let a = AnnotatedWirelessNetwork { essid: "a".to_string(), signal_strength: Some(-50), ..AnnotatedWirelessNetwork::default() };
    let b = AnnotatedWirelessNetwork { essid: "b".to_string(), signal_strength: Some(-50), ..AnnotatedWirelessNetwork::default() };
    let ranked = put_best_networks_first(&vec![a.clone(), b.clone()]);
    assert_eq![ranked, vec![b, a]];
}

fn verify_display_strength_and_tags(is_known: bool, is_open: bool, signal_strength: Option<i32>) {
    let essid = "YEEEEEEE".to_string();
    let service_identifier = if is_known {
        NetworkServiceIdentifier::netctl_nw("is_known_nw")
    } else {
        None
    };
    let nw = AnnotatedWirelessNetwork {
        essid: essid.clone(),
        is_encrypted: !is_open,
        signal_strength,
        service_identifier,
        ..AnnotatedWirelessNetwork::default()
    };
    let token = nw.get_display_string();
    let tags_string = nw.get_tags_string();
    let strength_string = nw.get_strenth_string();

    assert![token.starts_with(&strength_string)];
    assert![token.contains(&essid)];
    assert![token.ends_with(&tags_string)];

    assert_eq![is_known, tags_string.contains(KNOWN_TOKEN)];
    assert_eq![is_open, tags_string.contains(OPEN_TOKEN)];

    if let Some(st) = signal_strength {
        assert![strength_string.contains(&format!("{}", st))];
    } else {
        assert![strength_string.is_empty()];
    }
}

#[test]
fn test_display() {
    verify_display_strength_and_tags(true, true, None);
    verify_display_strength_and_tags(false, true, None);
    verify_display_strength_and_tags(true, false, Some(32));
    verify_display_strength_and_tags(false, false, Some(-90));
}

#[test]
fn display_string_exact() {
    let nw = AnnotatedWirelessNetwork {
        essid: "net".to_string(),
        is_encrypted: false,
        signal_strength: Some(-42),
        service_identifier: NetworkServiceIdentifier::netctl_nw("p"),
        ..AnnotatedWirelessNetwork::default()
    };
    assert_eq![nw.get_display_string(), "[-42] net [OK]"];
    let plain = AnnotatedWirelessNetwork { essid: "x".to_string(), is_encrypted: true, ..AnnotatedWirelessNetwork::default() };
    assert_eq![plain.get_display_string(), "x"];
}
