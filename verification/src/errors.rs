//! The error type of the library: a kind to match on and a description for people.

use vstd::prelude::*;

verus! {

/// What went wrong.
#[derive(Debug, Clone, Copy, PartialEq, Eq, Structural)]
pub enum RuwiErrorKind {
    BinaryWritableByNonRootWhenRunningAsRoot,
    CommandNotFound,
    CommandNotInstalled,
    FailedToParseSelectedLine,
    FailedToReadScanResultsFromFile,
    FailedToReadScanResultsFromStdin,
    FailedToRunBluetoothCtlPowerOn,
    FailedToRunCommand,
    FailedToRunIWScanAbort,
    FailedToRunIWScanDump,
    FailedToRunIWScanSynchronous,
    FailedToRunIWScanTrigger,
    FailedToRunNmcliScan,
    FailedToRunNmcliScanSynchronous,
    FailedToScanWithWPACli,
    FailedToSpawnThread,
    FailedToStartBluetoothService,
    FailedToStartNetctl,
    FailedToStartNetworkManager,
    FailedToStartWpaSupplicant,
    FailedToStopNetctl,
    FailedToStopNetworkManager,
    FailedToStopWpaSupplicant,
    InvalidScanTypeAndMethod,
    IWSynchronousScanFailed,
    IWSynchronousScanRanOutOfRetries,
    LoopProtectionMaxExceeded,
    MalformedIWOutput,
    NoKnownNetworksFound,
    NoNetworksFoundMatchingSelectionResult,
    NoNetworksFoundWhenLookingForFirst,
    NoNetworksSeenWithIWScanDump,
    NoNetworksSeenWithWPACliScanResults,
    NotImplementedError,
    PromptCommandFailed,
    PromptCommandSpawnFailed,
    RefreshRequested,
    SingleLinePromptFailed,
    TestNoNetworksFoundWhenLookingForLast,
    TestShouldNeverBeSeen,
    TestUsedManualWhenNotExpected,
    UnableToReadMetadataForBinary,
    UsedTerminalStep,
    WPACliHeaderMalformedOrMissing,
}

/// An error: its kind and a description of it.
#[derive(Debug, Clone, PartialEq, Eq)]
pub struct RuwiError {
    pub kind: RuwiErrorKind,
    pub desc: String,
}

impl RuwiError {
    /// An error of `kind` described by `desc`.
    pub fn new(kind: RuwiErrorKind, desc: &str) -> (r: RuwiError)
        ensures
            r.kind == kind,
            r.desc@ == desc@,
    {
        RuwiError { kind, desc: desc.to_owned() }
    }

    /// An error of `kind` described by `desc`.
    pub fn with_desc(kind: RuwiErrorKind, desc: String) -> (r: RuwiError)
        ensures
            r.kind == kind,
            r.desc@ == desc@,
    {
        RuwiError { kind, desc }
    }

    /// The text that describes this error to a person.
    pub fn description(&self) -> (r: String)
        ensures
            r@ == self.desc@,
    {
        self.desc.clone()
    }
}

/// `a` followed by `b`.
pub fn concat(a: &str, b: &str) -> (r: String)
    ensures
        r@ == a@ + b@,
{
    let mut r = a.to_owned();
    r.append(b);
    r
}

} // verus!
