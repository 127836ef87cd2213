//! The steps of connecting to a wifi network, as a state machine.
//!
//! Each step names the outside work it needs (a scan, a prompt, writing a
//! configuration); whoever drives the machine does that work and hands its
//! outcome to [`WifiStep::exec`], which decides the next step.

use vstd::prelude::*;

use crate::enums::{AutoMode, SynchronousRescanType};
use crate::errors::{RuwiError, RuwiErrorKind};
use crate::interfaces::{AutoSelect, Global, Wifi, WifiConnect};
use crate::known::{
    annotate_networks, get_network_from_given_essid, known_identifier, KnownNetwork,
    WifiKnownNetworks,
};
use crate::options::RuwiCommand;
use crate::parse::{parse_error_desc, parse_result, scan_kind, scan_output_fits, scan_parse, NetworkFields};
use crate::retry::should_auto_retry_with_synchronous_scan;
use crate::sort_networks::{first_of_each_name, ranks, SortedFilteredNetworks};
use crate::structs::{opt_chars, AnnotatedWirelessNetwork, ScanResult};

verus! {

/// Networks marked with the configurations that know them, in scan order.
#[derive(Debug, Clone, PartialEq, Eq)]
pub struct AnnotatedNetworks {
    pub networks: Vec<AnnotatedWirelessNetwork>,
}

/// A step of connecting to a wifi network.
#[derive(Debug, PartialEq, Eq)]
pub enum WifiStep {
    /// The start: a network named on the command line is used as it is.
    ConnectionInit,
    /// Look up the known networks and scan.
    DataGatherer,
    /// Read the scan and mark the known networks.
    NetworkParserAndAnnotator { scan_result: ScanResult, known_network_names: WifiKnownNetworks },
    /// Scan again, waiting for fresh results.
    SynchronousRescan { rescan_type: SynchronousRescanType },
    /// Rank the networks and drop repeated names.
    NetworkSorter { annotated_networks: AnnotatedNetworks },
    /// Choose a network.
    NetworkSelector { sorted_networks: SortedFilteredNetworks },
    /// Get the key of the chosen network, if it needs one.
    PasswordAsker { selected_network: AnnotatedWirelessNetwork },
    /// Write the configuration of the chosen network.
    NetworkConfigurator { selected_network: AnnotatedWirelessNetwork, maybe_key: Option<String> },
    /// Connect to the chosen network.
    NetworkConnector { selected_network: AnnotatedWirelessNetwork, maybe_key: Option<String> },
    /// Check the connection.
    NetworkConnectionTester,
    /// A step that leads straight to the end, for checking the machine itself.
    BasicTestStep,
    /// The end.
    ConnectionSuccessful,
}

/// The outside work that a step needs before it can be decided.
#[derive(Debug, Clone, Copy, PartialEq, Eq, Structural)]
pub enum StepWork {
    NoWork,
    /// Look up the networks that configurations on the system know.
    FindKnownNetworks,
    /// Look up the known networks and scan; with a reason, the scan waits for fresh results.
    GatherData(Option<SynchronousRescanType>),
    /// Choose among the sorted networks of the step.
    SelectNetwork,
    /// Get the key of the chosen network, if it needs one.
    GetEncryptionKey,
    /// Write the configuration of the chosen network.
    ConfigureNetwork,
    /// Connect to the chosen network.
    ConnectToNetwork,
}

/// What the outside work of a step gave.
#[derive(Debug)]
pub enum StepOutcome {
    NoWork,
    KnownNetworks(Result<WifiKnownNetworks, RuwiError>),
    Gathered(Result<(WifiKnownNetworks, ScanResult), RuwiError>),
    Selected(Result<AnnotatedWirelessNetwork, RuwiError>),
    Key(Result<Option<String>, RuwiError>),
    Finished(Result<(), RuwiError>),
}

/// The outside work of `step`, when a network name was given on the command line or not.
pub open spec fn step_work(step: WifiStep, essid_given: bool) -> StepWork {
    match step {
        WifiStep::ConnectionInit => if essid_given {
            StepWork::FindKnownNetworks
        } else {
            StepWork::NoWork
        },
        WifiStep::DataGatherer => StepWork::GatherData(None),
        WifiStep::SynchronousRescan { rescan_type } => StepWork::GatherData(Some(rescan_type)),
        WifiStep::NetworkSelector { .. } => StepWork::SelectNetwork,
        WifiStep::PasswordAsker { .. } => StepWork::GetEncryptionKey,
        WifiStep::NetworkConfigurator { .. } => StepWork::ConfigureNetwork,
        WifiStep::NetworkConnector { .. } => StepWork::ConnectToNetwork,
        _ => StepWork::NoWork,
    }
}

/// Whether `outcome` is what the work `work` gives.
pub open spec fn answers(work: StepWork, outcome: StepOutcome) -> bool {
    match work {
        StepWork::NoWork => outcome is NoWork,
        StepWork::FindKnownNetworks => outcome is KnownNetworks,
        StepWork::GatherData(_) => outcome is Gathered,
        StepWork::SelectNetwork => outcome is Selected,
        StepWork::GetEncryptionKey => outcome is Key,
        StepWork::ConfigureNetwork | StepWork::ConnectToNetwork => outcome is Finished,
    }
}

/// The content of a marked network, without its mark.
pub open spec fn fields_of(a: AnnotatedWirelessNetwork) -> NetworkFields {
    NetworkFields {
        essid: a.essid@,
        is_encrypted: a.is_encrypted,
        bssid: opt_chars(a.bssid),
        signal_strength: a.signal_strength,
        channel_utilisation: opt_chars(a.channel_utilisation),
    }
}

/// `out` is the networks `seen`, in order, each marked with its configuration in `known`.
pub open spec fn marks_scan(
    out: Seq<AnnotatedWirelessNetwork>,
    seen: Seq<NetworkFields>,
    known: Seq<KnownNetwork>,
) -> bool {
    &&& out.len() == seen.len()
    &&& forall|i: int|
        0 <= i < out.len() ==> fields_of(#[trigger] out[i]) == seen[i] && out[i].service_identifier
            == known_identifier(known, seen[i].essid)
}

/// Whether a scan that saw `seen` asks, on its own accord, for a blocking rescan:
/// nothing was seen, or the mode looks for a known network and none was seen.
pub open spec fn scan_wants_rescan(mode: AutoMode, seen: Seq<NetworkFields>, known: Seq<KnownNetwork>) -> bool {
    seen.len() == 0 || match mode {
        AutoMode::KnownOrAsk | AutoMode::KnownOrFail => !exists|i: int|
            0 <= i < seen.len() && (#[trigger] known_identifier(known, seen[i].essid)) is Some,
        AutoMode::First | AutoMode::Ask => false,
    }
}

/// What a step becomes, given the options (the auto mode, the network name and
/// key given on the command line), the interface's name and the outcome of the
/// step's work.
pub open spec fn step_result(
    step: WifiStep,
    mode: AutoMode,
    given_essid: Option<String>,
    given_key: Option<String>,
    interface_name: Seq<char>,
    outcome: StepOutcome,
    r: Result<WifiStep, RuwiError>,
) -> bool {
    match step {
        WifiStep::ConnectionInit => match given_essid {
            None => r == Ok::<WifiStep, RuwiError>(WifiStep::DataGatherer),
            Some(essid) => match outcome {
                StepOutcome::KnownNetworks(Err(e)) => r == Err::<WifiStep, RuwiError>(e),
                StepOutcome::KnownNetworks(Ok(k)) => r matches Ok(
                    WifiStep::PasswordAsker { selected_network: n },
                ) && n.essid@ == essid@ && n.is_encrypted == given_key is Some && n.bssid is None
                    && n.signal_strength is None && n.channel_utilisation is None
                    && n.service_identifier == known_identifier(k.networks@, essid@),
                _ => false,
            },
        },
        WifiStep::DataGatherer | WifiStep::SynchronousRescan { .. } => match outcome {
            StepOutcome::Gathered(Err(e)) => r == Err::<WifiStep, RuwiError>(e),
            StepOutcome::Gathered(Ok((k, s))) => r == Ok::<WifiStep, RuwiError>(
                WifiStep::NetworkParserAndAnnotator { scan_result: s, known_network_names: k },
            ),
            _ => false,
        },
        WifiStep::NetworkParserAndAnnotator { scan_result, known_network_names } => match scan_parse(
            scan_result.scan_type,
            scan_result.scan_output@,
        ) {
            Err(kind) => r matches Err(e) && e.kind == kind && e.desc@ == parse_error_desc(
                interface_name,
                kind,
            ),
            Ok(p) => if scan_wants_rescan(mode, p.seen_networks, known_network_names.networks@) {
                r == Ok::<WifiStep, RuwiError>(
                    WifiStep::SynchronousRescan { rescan_type: SynchronousRescanType::Automatic },
                )
            } else {
                r matches Ok(WifiStep::NetworkSorter { annotated_networks: a }) && marks_scan(
                    a.networks@,
                    p.seen_networks,
                    known_network_names.networks@,
                )
            },
        },
        WifiStep::NetworkSorter { annotated_networks } => r matches Ok(
            WifiStep::NetworkSelector { sorted_networks: s },
        ) && exists|sorted: Seq<AnnotatedWirelessNetwork>|
            ranks(annotated_networks.networks@, sorted) && s@ == first_of_each_name(sorted),
        WifiStep::NetworkSelector { .. } => match outcome {
            StepOutcome::Selected(Ok(n)) => r == Ok::<WifiStep, RuwiError>(
                WifiStep::PasswordAsker { selected_network: n },
            ),
            StepOutcome::Selected(Err(e)) => if e.kind == RuwiErrorKind::RefreshRequested {
                r == Ok::<WifiStep, RuwiError>(
                    WifiStep::SynchronousRescan {
                        rescan_type: SynchronousRescanType::ManuallyRequested,
                    },
                )
            } else {
                r == Err::<WifiStep, RuwiError>(e)
            },
            _ => false,
        },
        WifiStep::PasswordAsker { selected_network } => match outcome {
            StepOutcome::Key(Ok(k)) => r == Ok::<WifiStep, RuwiError>(
                WifiStep::NetworkConfigurator { selected_network, maybe_key: k },
            ),
            StepOutcome::Key(Err(e)) => r == Err::<WifiStep, RuwiError>(e),
            _ => false,
        },
        WifiStep::NetworkConfigurator { selected_network, maybe_key } => match outcome {
            StepOutcome::Finished(Ok(_)) => r == Ok::<WifiStep, RuwiError>(
                WifiStep::NetworkConnector { selected_network, maybe_key },
            ),
            StepOutcome::Finished(Err(e)) => r == Err::<WifiStep, RuwiError>(e),
            _ => false,
        },
        WifiStep::NetworkConnector { .. } => match outcome {
            StepOutcome::Finished(Ok(_)) => r == Ok::<WifiStep, RuwiError>(
                WifiStep::NetworkConnectionTester,
            ),
            StepOutcome::Finished(Err(e)) => r == Err::<WifiStep, RuwiError>(e),
            _ => false,
        },
        WifiStep::NetworkConnectionTester => r == Ok::<WifiStep, RuwiError>(
            WifiStep::ConnectionSuccessful,
        ),
        WifiStep::BasicTestStep => r == Ok::<WifiStep, RuwiError>(WifiStep::ConnectionSuccessful),
        WifiStep::ConnectionSuccessful => r matches Err(e) && e.kind == RuwiErrorKind::UsedTerminalStep
            && e.desc@ == "Used terminal step!"@,
    }
}

/// The error of stepping past the end.
pub fn term_step() -> (r: Result<WifiStep, RuwiError>)
    ensures
        r matches Err(e) && e.kind == RuwiErrorKind::UsedTerminalStep && e.desc@ == "Used terminal step!"@,
{
    Err(RuwiError::new(RuwiErrorKind::UsedTerminalStep, "Used terminal step!"))
}

impl StepOutcome {
    /// Whether this outcome is what the work `work` gives.
    pub fn answers(&self, work: &StepWork) -> (r: bool)
        ensures
            r == answers(*work, *self),
    {
        match work {
            StepWork::NoWork => matches!(self, StepOutcome::NoWork),
            StepWork::FindKnownNetworks => matches!(self, StepOutcome::KnownNetworks(_)),
            StepWork::GatherData(_) => matches!(self, StepOutcome::Gathered(_)),
            StepWork::SelectNetwork => matches!(self, StepOutcome::Selected(_)),
            StepWork::GetEncryptionKey => matches!(self, StepOutcome::Key(_)),
            StepWork::ConfigureNetwork | StepWork::ConnectToNetwork => matches!(
                self,
                StepOutcome::Finished(_)
            ),
        }
    }
}

proof fn lemma_rescan_wanted(
    mode: AutoMode,
    out: Seq<AnnotatedWirelessNetwork>,
    seen: Seq<NetworkFields>,
    known: Seq<KnownNetwork>,
)
    requires
        marks_scan(out, seen, known),
    ensures
        crate::retry::retry_wanted(mode, out, None) == scan_wants_rescan(mode, seen, known),
{
    if exists|i: int| 0 <= i < seen.len() && (#[trigger] known_identifier(known, seen[i].essid)) is Some {
        let i = choose|i: int|
            0 <= i < seen.len() && (#[trigger] known_identifier(known, seen[i].essid)) is Some;
        assert(fields_of(out[i]) == seen[i]);
        assert(out[i].service_identifier is Some);
    }
    if crate::retry::any_known(out) {
        let i = choose|i: int| 0 <= i < out.len() && (#[trigger] out[i]).service_identifier is Some;
        assert(fields_of(out[i]) == seen[i]);
        assert(known_identifier(known, seen[i].essid) is Some);
    }
}

impl WifiStep {
    /// The outside work this step needs.
    pub fn work<O: WifiConnect>(&self, options: &O) -> (r: StepWork)
        ensures
            r == step_work(*self, options.given_essid_of() is Some),
    {
        match self {
            WifiStep::ConnectionInit => if options.get_given_essid().is_some() {
                StepWork::FindKnownNetworks
            } else {
                StepWork::NoWork
            },
            WifiStep::DataGatherer => StepWork::GatherData(None),
            WifiStep::SynchronousRescan { rescan_type } => StepWork::GatherData(Some(*rescan_type)),
            WifiStep::NetworkSelector { .. } => StepWork::SelectNetwork,
            WifiStep::PasswordAsker { .. } => StepWork::GetEncryptionKey,
            WifiStep::NetworkConfigurator { .. } => StepWork::ConfigureNetwork,
            WifiStep::NetworkConnector { .. } => StepWork::ConnectToNetwork,
            _ => StepWork::NoWork,
        }
    }

    /// The next step, given the outcome of this step's work.
    pub fn exec<O>(
        self,
        command: &RuwiCommand,
        options: &O,
        interface_name: &str,
        outcome: StepOutcome,
    ) -> (r: Result<WifiStep, RuwiError>) where O: Global + Wifi + WifiConnect + AutoSelect
        requires
            answers(step_work(self, options.given_essid_of() is Some), outcome),
            self matches WifiStep::NetworkParserAndAnnotator { scan_result, .. } ==> scan_output_fits(
                scan_kind(scan_result.scan_type),
                scan_result.scan_output@,
            ),
        ensures
            step_result(
                self,
                options.auto_mode_of(),
                options.given_essid_of(),
                options.given_encryption_key_of(),
                interface_name@,
                outcome,
                r,
            ),
    {
        match self {
            WifiStep::ConnectionInit => {
                match options.get_given_essid() {
                    Some(essid) => match outcome {
                        StepOutcome::KnownNetworks(Ok(known)) => {
                            let selected_network = get_network_from_given_essid(
                                options,
                                essid.as_str(),
                                &known,
                            );
                            Ok(WifiStep::PasswordAsker { selected_network })
                        },
                        StepOutcome::KnownNetworks(Err(e)) => Err(e),
                        _ => vstd::pervasive::unreached(),
                    },
                    None => Ok(WifiStep::DataGatherer),
                }
            },
            WifiStep::DataGatherer | WifiStep::SynchronousRescan { .. } => match outcome {
                StepOutcome::Gathered(Ok((known_network_names, scan_result))) => Ok(
                    WifiStep::NetworkParserAndAnnotator { scan_result, known_network_names },
                ),
                StepOutcome::Gathered(Err(e)) => Err(e),
                _ => vstd::pervasive::unreached(),
            },
            WifiStep::NetworkParserAndAnnotator { scan_result, known_network_names } => {
                let parse_results = match parse_result(interface_name, &scan_result) {
                    Ok(p) => p,
                    Err(e) => {
                        return Err(e);
                    },
                };
                let networks = annotate_networks(
                    options,
                    parse_results.seen_networks.as_slice(),
                    &known_network_names,
                );
                proof {
                    lemma_rescan_wanted(
                        options.auto_mode_of(),
                        networks@,
                        parse_results@.seen_networks,
                        known_network_names.networks@,
                    );
                }
                if should_auto_retry_with_synchronous_scan(options, networks.as_slice(), &None) {
                    Ok(WifiStep::SynchronousRescan { rescan_type: SynchronousRescanType::Automatic })
                } else {
                    Ok(WifiStep::NetworkSorter { annotated_networks: AnnotatedNetworks { networks } })
                }
            },
            WifiStep::NetworkSorter { annotated_networks } => {
                let sorted_networks = SortedFilteredNetworks::new(annotated_networks.networks);
                Ok(WifiStep::NetworkSelector { sorted_networks })
            },
            WifiStep::NetworkSelector { .. } => match outcome {
                StepOutcome::Selected(Ok(selected_network)) => Ok(
                    WifiStep::PasswordAsker { selected_network },
                ),
                StepOutcome::Selected(Err(err)) => if err.kind == RuwiErrorKind::RefreshRequested {
                    Ok(
                        WifiStep::SynchronousRescan {
                            rescan_type: SynchronousRescanType::ManuallyRequested,
                        },
                    )
                } else {
                    Err(err)
                },
                _ => vstd::pervasive::unreached(),
            },
            WifiStep::PasswordAsker { selected_network } => match outcome {
                StepOutcome::Key(Ok(maybe_key)) => Ok(
                    WifiStep::NetworkConfigurator { selected_network, maybe_key },
                ),
                StepOutcome::Key(Err(e)) => Err(e),
                _ => vstd::pervasive::unreached(),
            },
            WifiStep::NetworkConfigurator { selected_network, maybe_key } => match outcome {
                StepOutcome::Finished(Ok(())) => Ok(
                    WifiStep::NetworkConnector { selected_network, maybe_key },
                ),
                StepOutcome::Finished(Err(e)) => Err(e),
                _ => vstd::pervasive::unreached(),
            },
            WifiStep::NetworkConnector { .. } => match outcome {
                StepOutcome::Finished(Ok(())) => Ok(WifiStep::NetworkConnectionTester),
                StepOutcome::Finished(Err(e)) => Err(e),
                _ => vstd::pervasive::unreached(),
            },
            WifiStep::NetworkConnectionTester => Ok(WifiStep::ConnectionSuccessful),
            WifiStep::ConnectionSuccessful => term_step(),
            WifiStep::BasicTestStep => Ok(WifiStep::ConnectionSuccessful),
        }
    }
}

} // verus!
