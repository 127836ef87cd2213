//! Getting wifi scan results: where they come from, the scanner commands, and
//! the waiting and retrying around a blocking `iw` scan.

use vstd::prelude::*;

use crate::enums::{ScanMethod, SynchronousRescanType, WifiScanType};
use crate::errors::{concat, RuwiError, RuwiErrorKind};
use crate::interfaces::{Global, Wifi};

verus! {

/// How many times a blocking `iw` scan is tried while the interface is busy.
pub const ALLOWED_SYNCHRONOUS_RETRIES: u32 = 101;

/// How long to wait, in milliseconds, before trying a busy interface again.
pub const SYNCHRONOUS_RETRY_DELAY_MILLIS: u64 = 200;

/// The exit code by which `iw` says that the interface is busy.
pub const DEVICE_OR_RESOURCE_BUSY_EXIT_CODE: i32 = 240;

/// Waiting through every retry takes more than four seconds, long enough for a
/// scan already running on the interface to finish.
pub proof fn lemma_enough_time_to_retry()
    ensures
        ALLOWED_SYNCHRONOUS_RETRIES as int * SYNCHRONOUS_RETRY_DELAY_MILLIS as int > 4000,
{
}

/// The characters of a list of strings.
pub open spec fn strs_view(v: Seq<String>) -> Seq<Seq<char>> {
    Seq::new(v.len(), |i: int| v[i]@)
}

/// A system command to run, and the error to report when it fails.
#[derive(Debug, Clone, PartialEq, Eq)]
pub struct SystemCommand {
    pub cmd_name: String,
    pub args: Vec<String>,
    pub err_kind: RuwiErrorKind,
    pub err_msg: String,
}

/// A list of owned strings with the characters of `parts`.
pub fn owned_strings(parts: &[&str]) -> (r: Vec<String>)
    ensures
        r@.len() == parts@.len(),
        forall|i: int| 0 <= i < parts@.len() ==> #[trigger] r@[i]@ == parts@[i]@,
{
    let mut r: Vec<String> = Vec::new();
    let mut i: usize = 0;
    while i < parts.len()
        invariant
            i <= parts.len(),
            r@.len() == i,
            forall|j: int| 0 <= j < i ==> #[trigger] r@[j]@ == parts@[j]@,
        decreases parts.len() - i,
    {
        r.push(parts[i].to_owned());
        i += 1;
    }
    r
}

/// The message when `nmcli` cannot list networks.
pub open spec fn nmcli_scan_err_msg() -> Seq<char> {
    "Failed to load cached list of seen networks with `nmcli`. Is it installed? You can also select a different scanning method with wifi -s (try `wpa_cli` or `iw`), or you can manually specify an essid with wifi -e."@
}

/// The message when a blocking `iw` scan fails.
pub open spec fn iw_scan_sync_err_msg() -> Seq<char> {
    "Failed to scan with `iw`. Is it installed? You can also select a different scanning method with -s (try 'wpa_cli' or 'iwlist'), or you can manually specify an essid with -e."@
}

/// The message when `iw` cannot list the networks it has seen.
pub open spec fn iw_scan_dump_err_msg() -> Seq<char> {
    "Failed to load cached list of seen networks with `iw`. Is it installed? You can also select a different scanning method with -s (try 'wpa_cli' or 'iwlist'), or you can manually specify an essid with -e."@
}

/// The message when `wpa_cli` cannot list networks.
pub open spec fn wpa_cli_scan_err_msg() -> Seq<char> {
    "Failed to scan with `wpa_cli scan_results`. Is wpa_supplicant running? Is it installed? You can also select a different scanning method with -s (try 'iw' or 'iwlist'), or you can manually specify an essid with -e."@
}

/// Whether a scan must wait for fresh results: the options force it, or a rescan was asked for.
pub open spec fn scan_is_synchronous(force: bool, synchronous_rescan: Option<SynchronousRescanType>) -> bool {
    force || synchronous_rescan is Some
}

/// A scan waits for fresh results whenever a rescan was asked for, whether the
/// loop asked on its own accord or the user did, and whenever the options force
/// it; it reads the cached results only when neither holds.
pub proof fn lemma_rescans_wait_for_fresh_results(force: bool, synchronous_rescan: Option<SynchronousRescanType>)
    ensures
        synchronous_rescan == Some(SynchronousRescanType::Automatic) ==> scan_is_synchronous(
            force,
            synchronous_rescan,
        ),
        synchronous_rescan == Some(SynchronousRescanType::ManuallyRequested) ==> scan_is_synchronous(
            force,
            synchronous_rescan,
        ),
        force ==> scan_is_synchronous(force, synchronous_rescan),
        !force && synchronous_rescan == None::<SynchronousRescanType> ==> !scan_is_synchronous(
            force,
            synchronous_rescan,
        ),
{
}

/// Whether the scan waits for fresh results.
pub fn wants_synchronous_scan<O: Wifi>(
    options: &O,
    synchronous_rescan: &Option<SynchronousRescanType>,
) -> (r: bool)
    ensures
        r == scan_is_synchronous(options.force_synchronous_scan_of(), *synchronous_rescan),
        synchronous_rescan.is_some() ==> r,
{
    options.get_force_synchronous_scan() || synchronous_rescan.is_some()
}

/// The `nmcli` command that lists the networks, rescanning first when `synchronous`.
pub fn nmcli_scan_command(synchronous: bool) -> (r: SystemCommand)
    ensures
        r.cmd_name@ == "nmcli"@,
        synchronous ==> strs_view(r.args@) == seq![
            "--escape"@,
            "no"@,
            "--color"@,
            "no"@,
            "-g"@,
            "SECURITY,SIGNAL,SSID"@,
            "device"@,
            "wifi"@,
            "list"@,
            "--rescan"@,
            "yes"@,
        ],
        !synchronous ==> strs_view(r.args@) == seq![
            "--escape"@,
            "no"@,
            "--color"@,
            "no"@,
            "-g"@,
            "SECURITY,SIGNAL,SSID"@,
            "device"@,
            "wifi"@,
            "list"@,
        ],
        r.err_kind == (if synchronous {
            RuwiErrorKind::FailedToRunNmcliScanSynchronous
        } else {
            RuwiErrorKind::FailedToRunNmcliScan
        }),
        r.err_msg@ == nmcli_scan_err_msg(),
{
    let args = if synchronous {
        owned_strings(
            &[
                "--escape",
                "no",
                "--color",
                "no",
                "-g",
                "SECURITY,SIGNAL,SSID",
                "device",
                "wifi",
                "list",
                "--rescan",
                "yes",
            ],
        )
    } else {
        owned_strings(
            &["--escape", "no", "--color", "no", "-g", "SECURITY,SIGNAL,SSID", "device", "wifi", "list"],
        )
    };
    assert(strs_view(args@) =~= if synchronous {
        seq![
            "--escape"@,
            "no"@,
            "--color"@,
            "no"@,
            "-g"@,
            "SECURITY,SIGNAL,SSID"@,
            "device"@,
            "wifi"@,
            "list"@,
            "--rescan"@,
            "yes"@,
        ]
    } else {
        seq![
            "--escape"@,
            "no"@,
            "--color"@,
            "no"@,
            "-g"@,
            "SECURITY,SIGNAL,SSID"@,
            "device"@,
            "wifi"@,
            "list"@,
        ]
    });
    SystemCommand {
        cmd_name: "nmcli".to_owned(),
        args,
        err_kind: if synchronous {
            RuwiErrorKind::FailedToRunNmcliScanSynchronous
        } else {
            RuwiErrorKind::FailedToRunNmcliScan
        },
        err_msg: "Failed to load cached list of seen networks with `nmcli`. Is it installed? You can also select a different scanning method with wifi -s (try `wpa_cli` or `iw`), or you can manually specify an essid with wifi -e.".to_owned(),
    }
}

/// The `wpa_cli` command that lists the networks it has seen.
pub fn wpa_cli_scan_command() -> (r: SystemCommand)
    ensures
        r.cmd_name@ == "wpa_cli"@,
        strs_view(r.args@) == seq!["scan_results"@],
        r.err_kind == RuwiErrorKind::FailedToScanWithWPACli,
        r.err_msg@ == wpa_cli_scan_err_msg(),
{
    let args = owned_strings(&["scan_results"]);
    assert(strs_view(args@) =~= seq!["scan_results"@]);
    SystemCommand {
        cmd_name: "wpa_cli".to_owned(),
        args,
        err_kind: RuwiErrorKind::FailedToScanWithWPACli,
        err_msg: "Failed to scan with `wpa_cli scan_results`. Is wpa_supplicant running? Is it installed? You can also select a different scanning method with -s (try 'iw' or 'iwlist'), or you can manually specify an essid with -e.".to_owned(),
    }
}

/// The `iw` scan commands.
#[derive(Debug, Clone, Copy, PartialEq, Eq, Structural)]
pub enum IwScanKind {
    /// Scan and wait for the results.
    Synchronous,
    /// List the networks seen by earlier scans.
    Dump,
    /// Start a scan and return at once.
    Trigger,
    /// Stop a running scan.
    Abort,
}

/// The `iw` command of `kind` on the interface `ifname`.
pub fn iw_scan_command(ifname: &str, kind: IwScanKind) -> (r: SystemCommand)
    ensures
        r.cmd_name@ == "iw"@,
        strs_view(r.args@) == match kind {
            IwScanKind::Synchronous => seq![ifname@, "scan"@],
            IwScanKind::Dump => seq![ifname@, "scan"@, "dump"@],
            IwScanKind::Trigger => seq![ifname@, "scan"@, "trigger"@],
            IwScanKind::Abort => seq![ifname@, "scan"@, "abort"@],
        },
        r.err_kind == match kind {
            IwScanKind::Synchronous => RuwiErrorKind::FailedToRunIWScanSynchronous,
            IwScanKind::Dump => RuwiErrorKind::FailedToRunIWScanDump,
            IwScanKind::Trigger => RuwiErrorKind::FailedToRunIWScanTrigger,
            IwScanKind::Abort => RuwiErrorKind::FailedToRunIWScanAbort,
        },
        r.err_msg@ == match kind {
            IwScanKind::Synchronous => iw_scan_sync_err_msg(),
            IwScanKind::Dump => iw_scan_dump_err_msg(),
            IwScanKind::Trigger => "Triggering scan with iw failed. This should be ignored."@,
            IwScanKind::Abort => "Aborting iw scan iw failed. This should be ignored."@,
        },
{
    let mut args: Vec<String> = Vec::new();
    args.push(ifname.to_owned());
    args.push("scan".to_owned());
    match kind {
        IwScanKind::Synchronous => {},
        IwScanKind::Dump => args.push("dump".to_owned()),
        IwScanKind::Trigger => args.push("trigger".to_owned()),
        IwScanKind::Abort => args.push("abort".to_owned()),
    }
    assert(strs_view(args@) =~= match kind {
        IwScanKind::Synchronous => seq![ifname@, "scan"@],
        IwScanKind::Dump => seq![ifname@, "scan"@, "dump"@],
        IwScanKind::Trigger => seq![ifname@, "scan"@, "trigger"@],
        IwScanKind::Abort => seq![ifname@, "scan"@, "abort"@],
    });
    let (err_kind, err_msg) = match kind {
        IwScanKind::Synchronous => (
            RuwiErrorKind::FailedToRunIWScanSynchronous,
            "Failed to scan with `iw`. Is it installed? You can also select a different scanning method with -s (try 'wpa_cli' or 'iwlist'), or you can manually specify an essid with -e.",
        ),
        IwScanKind::Dump => (
            RuwiErrorKind::FailedToRunIWScanDump,
            "Failed to load cached list of seen networks with `iw`. Is it installed? You can also select a different scanning method with -s (try 'wpa_cli' or 'iwlist'), or you can manually specify an essid with -e.",
        ),
        IwScanKind::Trigger => (
            RuwiErrorKind::FailedToRunIWScanTrigger,
            "Triggering scan with iw failed. This should be ignored.",
        ),
        IwScanKind::Abort => (
            RuwiErrorKind::FailedToRunIWScanAbort,
            "Aborting iw scan iw failed. This should be ignored.",
        ),
    };
    SystemCommand { cmd_name: "iw".to_owned(), args, err_kind, err_msg: err_msg.to_owned() }
}

/// What to do after `iw` listed the networks seen by earlier scans.
#[derive(Debug, Clone, PartialEq, Eq)]
pub enum IwDumpFollowup {
    /// Nothing was listed: scan and wait for the results.
    ScanSynchronously,
    /// Use what was listed, and start a scan for next time.
    UseDumpAndTrigger(String),
}

/// What to do with the output of `iw <interface> scan dump`.
pub fn iw_dump_followup(dump_output: String) -> (r: IwDumpFollowup)
    ensures
        dump_output@.len() == 0 ==> r == IwDumpFollowup::ScanSynchronously,
        dump_output@.len() > 0 ==> r == IwDumpFollowup::UseDumpAndTrigger(dump_output),
{
    if dump_output.as_str().is_empty() {
        IwDumpFollowup::ScanSynchronously
    } else {
        IwDumpFollowup::UseDumpAndTrigger(dump_output)
    }
}

/// How one run of the blocking `iw` scan ended.
#[derive(Debug, Clone, PartialEq, Eq)]
pub enum ScanAttempt {
    /// It succeeded and printed this.
    Succeeded(String),
    /// It failed with this exit code, or was stopped by a signal.
    ExitedWith(Option<i32>),
}

/// What to do after a run of the blocking `iw` scan.
#[derive(Debug, Clone, PartialEq, Eq)]
pub enum SyncScanNext {
    /// The scan gave this output.
    Done(String),
    /// The interface is busy: wait, then try again; the first time, say that it is busy.
    Wait { give_busy_notice: bool },
}

/// How many more tries a blocking `iw` scan has, and whether the user was told
/// that the interface is busy.
#[derive(Debug, Clone, Copy, PartialEq, Eq, Structural)]
pub struct SyncScanRetries {
    pub retries: u32,
    pub have_given_busy_notice: bool,
}

/// The description of the error when a busy interface never became free.
pub open spec fn out_of_retries_desc(ifname: Seq<char>) -> Seq<char> {
    "Ran out of retries waiting for "@ + ifname
        + " to become available for scanning with `iw`. Is NetworkManager or another service running?"@
}

/// The state after a busy run that leaves another try.
pub open spec fn after_busy(s: SyncScanRetries) -> SyncScanRetries {
    SyncScanRetries { retries: (s.retries - 1) as u32, have_given_busy_notice: true }
}

/// How many times a run of busy answers is waited on from `s` before the scan gives up.
pub open spec fn busy_waits(s: SyncScanRetries) -> nat
    decreases s.retries,
{
    if s.retries > 1 {
        1 + busy_waits(after_busy(s))
    } else {
        0
    }
}

/// A busy interface is waited on one time fewer than the tries that are left,
/// and not at all when one or none is left; from the start, the blocking scan
/// therefore runs at most `ALLOWED_SYNCHRONOUS_RETRIES` times.
pub proof fn lemma_busy_interface_gives_up(s: SyncScanRetries)
    ensures
        busy_waits(s) == (if s.retries > 1 {
            s.retries - 1
        } else {
            0
        }),
    decreases s.retries,
{
    if s.retries > 1 {
        lemma_busy_interface_gives_up(after_busy(s));
    }
}

impl SyncScanRetries {
    /// The state before the first try.
    pub fn new() -> (r: SyncScanRetries)
        ensures
            r.retries == ALLOWED_SYNCHRONOUS_RETRIES,
            !r.have_given_busy_notice,
    {
        SyncScanRetries { retries: ALLOWED_SYNCHRONOUS_RETRIES, have_given_busy_notice: false }
    }

    /// Decides what follows one run of the blocking scan on `ifname`: its output
    /// on success; on a busy interface, another try while tries are left (the
    /// count goes down by one); otherwise an error.
    pub fn next(&mut self, attempt: ScanAttempt, ifname: &str) -> (r: Result<SyncScanNext, RuwiError>)
        ensures
            match attempt {
                ScanAttempt::Succeeded(out) => r == Ok::<SyncScanNext, RuwiError>(
                    SyncScanNext::Done(out),
                ) && *final(self) == *old(self),
                ScanAttempt::ExitedWith(code) => if code == Some(DEVICE_OR_RESOURCE_BUSY_EXIT_CODE) {
                    if old(self).retries > 1 {
                        &&& r == Ok::<SyncScanNext, RuwiError>(
                            SyncScanNext::Wait { give_busy_notice: !old(self).have_given_busy_notice },
                        )
                        &&& *final(self) == after_busy(*old(self))
                    } else {
                        &&& r matches Err(e)
                        &&& e.kind == RuwiErrorKind::IWSynchronousScanRanOutOfRetries
                        &&& e.desc@ == out_of_retries_desc(ifname@)
                        &&& final(self).retries == 0
                        &&& final(self).have_given_busy_notice == old(self).have_given_busy_notice
                    }
                } else {
                    &&& r matches Err(e)
                    &&& e.kind == RuwiErrorKind::IWSynchronousScanFailed
                    &&& e.desc@ == iw_scan_sync_err_msg()
                    &&& *final(self) == *old(self)
                },
            },
            forall|rest: Seq<ScanAttempt>|
                #[trigger] sync_scan_end(old(self).retries as nat, seq![attempt].add(rest)) == match r {
                    Ok(SyncScanNext::Done(out)) => Some(Ok::<Seq<char>, RuwiErrorKind>(out@)),
                    Ok(SyncScanNext::Wait { .. }) => sync_scan_end(final(self).retries as nat, rest),
                    Err(e) => Some(Err::<Seq<char>, RuwiErrorKind>(e.kind)),
                },
    {
        proof {
            assert forall|rest: Seq<ScanAttempt>| #[trigger]
                seq![attempt].add(rest).drop_first() == rest by {
                assert(seq![attempt].add(rest).drop_first() =~= rest);
            }
        }
        match attempt {
            ScanAttempt::Succeeded(out) => Ok(SyncScanNext::Done(out)),
            ScanAttempt::ExitedWith(code) => {
                let busy = match code {
                    Some(c) => c == DEVICE_OR_RESOURCE_BUSY_EXIT_CODE,
                    None => false,
                };
                if busy {
                    if self.retries > 1 {
                        self.retries = self.retries - 1;
                        let give_busy_notice = !self.have_given_busy_notice;
                        self.have_given_busy_notice = true;
                        Ok(SyncScanNext::Wait { give_busy_notice })
                    } else {
                        self.retries = 0;
                        let mut desc = concat("Ran out of retries waiting for ", ifname);
                        desc.append(
                            " to become available for scanning with `iw`. Is NetworkManager or another service running?",
                        );
                        Err(RuwiError::with_desc(RuwiErrorKind::IWSynchronousScanRanOutOfRetries, desc))
                    }
                } else {
                    Err(
                        RuwiError::new(
                            RuwiErrorKind::IWSynchronousScanFailed,
                            "Failed to scan with `iw`. Is it installed? You can also select a different scanning method with -s (try 'wpa_cli' or 'iwlist'), or you can manually specify an essid with -e.",
                        ),
                    )
                }
            },
        }
    }
}

/// Where the scan results come from, and how they are obtained.
#[derive(Debug, Clone, PartialEq, Eq)]
pub enum ScanPlan {
    /// Run `nmcli`, rescanning first when `synchronous`.
    RunNmcli { synchronous: bool },
    /// Run `wpa_cli scan_results`.
    RunWpaCli,
    /// Run `iw`, waiting for fresh results when `synchronous`.
    RunIw { synchronous: bool },
    /// Read the results of `scan_type` from the file `filename`.
    ReadFile { scan_type: WifiScanType, filename: String },
    /// Read the results of `scan_type` from standard input.
    ReadStdin { scan_type: WifiScanType },
}

/// The description of the error for running a scanner that does not exist.
pub open spec fn no_json_scanner_desc() -> Seq<char> {
    "There is currently no binary for providing JSON results, you must format them yourself and pass in via stdin or from a file."@
}

/// How the scan results are to be obtained, by the options' scan method and type.
pub fn scan_plan<O: Global + Wifi>(
    options: &O,
    synchronous_rescan: &Option<SynchronousRescanType>,
) -> (r: Result<ScanPlan, RuwiError>)
    ensures
        match options.scan_method_of() {
            ScanMethod::ByRunning => {
                let synchronous = scan_is_synchronous(
                    options.force_synchronous_scan_of(),
                    *synchronous_rescan,
                );
                match options.scan_type_of() {
                    WifiScanType::Nmcli => r == Ok::<ScanPlan, RuwiError>(
                        ScanPlan::RunNmcli { synchronous },
                    ),
                    WifiScanType::WpaCli => r == Ok::<ScanPlan, RuwiError>(ScanPlan::RunWpaCli),
                    WifiScanType::IW => r == Ok::<ScanPlan, RuwiError>(
                        ScanPlan::RunIw { synchronous },
                    ),
                    WifiScanType::RuwiJSON => r matches Err(e) && e.kind
                        == RuwiErrorKind::InvalidScanTypeAndMethod && e.desc@
                        == no_json_scanner_desc(),
                }
            },
            ScanMethod::FromFile(filename) => r matches Ok(ScanPlan::ReadFile { scan_type, filename: f })
                && scan_type == options.scan_type_of() && f@ == filename@,
            ScanMethod::FromStdin => r == Ok::<ScanPlan, RuwiError>(
                ScanPlan::ReadStdin { scan_type: options.scan_type_of() },
            ),
        },
{
    let st = *options.get_scan_type();
    match options.get_scan_method() {
        ScanMethod::ByRunning => {
            let synchronous = wants_synchronous_scan(options, synchronous_rescan);
            match st {
                WifiScanType::Nmcli => Ok(ScanPlan::RunNmcli { synchronous }),
                WifiScanType::WpaCli => Ok(ScanPlan::RunWpaCli),
                WifiScanType::IW => Ok(ScanPlan::RunIw { synchronous }),
                WifiScanType::RuwiJSON => Err(
                    RuwiError::new(
                        RuwiErrorKind::InvalidScanTypeAndMethod,
                        "There is currently no binary for providing JSON results, you must format them yourself and pass in via stdin or from a file.",
                    ),
                ),
            }
        },
        ScanMethod::FromFile(filename) => Ok(
            ScanPlan::ReadFile { scan_type: st, filename: filename.clone() },
        ),
        ScanMethod::FromStdin => Ok(ScanPlan::ReadStdin { scan_type: st }),
    }
}

/// The error when the scan results file `filename` cannot be read.
pub fn scan_file_read_error(filename: &str) -> (r: RuwiError)
    ensures
        r.kind == RuwiErrorKind::FailedToReadScanResultsFromFile,
        r.desc@ == "Failed to read scan contents from `"@ + filename@ + "`. Does that file exist?"@,
{
    let mut desc = concat("Failed to read scan contents from `", filename);
    desc.append("`. Does that file exist?");
    RuwiError::with_desc(RuwiErrorKind::FailedToReadScanResultsFromFile, desc)
}

/// The error when the scan results cannot be read from standard input.
pub fn scan_stdin_read_error() -> (r: RuwiError)
    ensures
        r.kind == RuwiErrorKind::FailedToReadScanResultsFromStdin,
        r.desc@ == "Failed to get scan results from stdin!"@,
{
    RuwiError::new(RuwiErrorKind::FailedToReadScanResultsFromStdin, "Failed to get scan results from stdin!")
}

/// Whether a run of the blocking scan found the interface busy.
pub open spec fn is_busy(a: ScanAttempt) -> bool {
    a == ScanAttempt::ExitedWith(Some(DEVICE_OR_RESOURCE_BUSY_EXIT_CODE))
}

/// How the blocking scan ends, with `tries` tries left, when its runs end as
/// `attempts` in turn (none when the attempts run out first): the output of a
/// run that succeeds; another run after a busy one while more than one try is
/// left; the out-of-retries error after a busy run on the last try; the scan
/// error after any other failure. These are the steps of [`SyncScanRetries::next`].
pub open spec fn sync_scan_end(tries: nat, attempts: Seq<ScanAttempt>) -> Option<Result<Seq<char>, RuwiErrorKind>>
    decreases attempts.len(),
{
    if attempts.len() == 0 {
        None
    } else {
        match attempts[0] {
            ScanAttempt::Succeeded(out) => Some(Ok(out@)),
            ScanAttempt::ExitedWith(code) => if code == Some(DEVICE_OR_RESOURCE_BUSY_EXIT_CODE) {
                if tries > 1 {
                    sync_scan_end((tries - 1) as nat, attempts.drop_first())
                } else {
                    Some(Err(RuwiErrorKind::IWSynchronousScanRanOutOfRetries))
                }
            } else {
                Some(Err(RuwiErrorKind::IWSynchronousScanFailed))
            },
        }
    }
}

/// How a run that is not busy ends the blocking scan.
pub open spec fn attempt_end(a: ScanAttempt) -> Result<Seq<char>, RuwiErrorKind> {
    match a {
        ScanAttempt::Succeeded(out) => Ok(out@),
        ScanAttempt::ExitedWith(_) => Err(RuwiErrorKind::IWSynchronousScanFailed),
    }
}

/// The blocking scan runs at most `tries` times: it ends with the first run
/// that is not busy, when one comes within `tries` runs (its output on success,
/// the scan error on any other failure), and otherwise with the out-of-retries
/// error after exactly `tries` busy runs.
pub proof fn lemma_sync_scan(tries: nat, attempts: Seq<ScanAttempt>)
    requires
        tries >= 1,
    ensures
        forall|j: int|
            0 <= j < attempts.len() && j < tries && !is_busy(#[trigger] attempts[j]) && (forall|i: int|
                0 <= i < j ==> is_busy(#[trigger] attempts[i])) ==> sync_scan_end(tries, attempts)
                == Some(attempt_end(attempts[j])),
        (forall|i: int| 0 <= i < attempts.len() && i < tries ==> is_busy(#[trigger] attempts[i]))
            ==> sync_scan_end(tries, attempts) == (if attempts.len() >= tries {
            Some(Err::<Seq<char>, RuwiErrorKind>(RuwiErrorKind::IWSynchronousScanRanOutOfRetries))
        } else {
            None::<Result<Seq<char>, RuwiErrorKind>>
        }),
    decreases attempts.len(),
{
    if attempts.len() > 0 {
        let rest = attempts.drop_first();
        if tries > 1 {
            lemma_sync_scan((tries - 1) as nat, rest);
        }
        assert forall|j: int|
            0 <= j < attempts.len() && j < tries && !is_busy(#[trigger] attempts[j]) && (forall|i: int|
                0 <= i < j ==> is_busy(#[trigger] attempts[i])) implies sync_scan_end(tries, attempts)
            == Some(attempt_end(attempts[j])) by {
            if j > 0 {
                assert(is_busy(attempts[0]));
                assert(rest[j - 1] == attempts[j]);
                assert forall|i: int| 0 <= i < j - 1 implies is_busy(#[trigger] rest[i]) by {
                    assert(rest[i] == attempts[i + 1]);
                }
            }
        }
        if forall|i: int| 0 <= i < attempts.len() && i < tries ==> is_busy(#[trigger] attempts[i]) {
            assert(is_busy(attempts[0]));
            if tries > 1 {
                assert forall|i: int| 0 <= i < rest.len() && i < tries - 1 implies is_busy(
                    #[trigger] rest[i],
                ) by {
                    assert(rest[i] == attempts[i + 1]);
                }
            }
        }
    }
}

} // verus!
