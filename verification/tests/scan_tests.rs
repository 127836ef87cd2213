use ruwi::enums::{ScanMethod, SynchronousRescanType, WifiScanType};
use ruwi::errors::{RuwiError, RuwiErrorKind};
use ruwi::options::{WifiConnectOptions, WifiOptions};
use ruwi::scan::{
    iw_dump_followup, iw_scan_command, nmcli_scan_command, scan_file_read_error, scan_plan,
    wpa_cli_scan_command, IwDumpFollowup, IwScanKind, ScanAttempt, ScanPlan, SyncScanNext,
    SyncScanRetries, ALLOWED_SYNCHRONOUS_RETRIES, DEVICE_OR_RESOURCE_BUSY_EXIT_CODE,
    SYNCHRONOUS_RETRY_DELAY_MILLIS,
};

const FAKE_OUTPUT: &str = "LOLWUTFAKEIWLOL";

fn command_fail_with_exitcode(code: i32) -> ScanAttempt {
    ScanAttempt::ExitedWith(Some(code))
}

fn command_pass() -> ScanAttempt {
    ScanAttempt::Succeeded(format!("{}\n", FAKE_OUTPUT))
}

fn run_iw_scan_synchronous_impl<F: FnMut() -> ScanAttempt>(mut attempt: F) -> Result<String, RuwiError> {
    let mut retries = SyncScanRetries::new();
    loop {
        match retries.next(attempt(), "wlan0")? {
            SyncScanNext::Done(output) => return Ok(output),
            SyncScanNext::Wait { .. } => continue,
        }
    }
}

fn check_synchronous_scan_pass() {
    let res = run_iw_scan_synchronous_impl(command_pass);
    assert_eq![res.ok().unwrap().trim(), FAKE_OUTPUT];
}

fn check_synchronous_scan_failed() {
    let res = run_iw_scan_synchronous_impl(|| command_fail_with_exitcode(1));
    assert_eq![res.err().unwrap().kind, RuwiErrorKind::IWSynchronousScanFailed];
}

fn check_synchronous_scan_ran_out_of_retries() {
    let res = run_iw_scan_synchronous_impl(|| command_fail_with_exitcode(DEVICE_OR_RESOURCE_BUSY_EXIT_CODE));
    assert_eq![res.err().unwrap().kind, RuwiErrorKind::IWSynchronousScanRanOutOfRetries];
}

fn check_synchronous_scan_retried_successfully() {
    let mut allowed_retries = 2;
    let res = run_iw_scan_synchronous_impl(|| {
        allowed_retries -= 1;
        if allowed_retries > 0 {
            command_fail_with_exitcode(DEVICE_OR_RESOURCE_BUSY_EXIT_CODE)
        } else {
            command_pass()
        }
    });
    assert_eq![res.ok().unwrap().trim(), FAKE_OUTPUT];
}

fn check_synchronous_scan_ran_out_of_retries_explicit() {
    let mut allowed_retries = ALLOWED_SYNCHRONOUS_RETRIES + 1;
    let res = run_iw_scan_synchronous_impl(|| {
        allowed_retries -= 1;
        if allowed_retries > 0 {
            command_fail_with_exitcode(DEVICE_OR_RESOURCE_BUSY_EXIT_CODE)
        } else {
            command_pass()
        }
    });
    assert_eq![res.err().unwrap().kind, RuwiErrorKind::IWSynchronousScanRanOutOfRetries];
}

#[test]
fn iw_scan_test_synchronous_scan_pass() {
    check_synchronous_scan_pass();
}

#[test]
fn iw_scan_test_synchronous_scan_failed() {
    check_synchronous_scan_failed();
}

#[test]
fn iw_scan_test_synchronous_scan_ran_out_of_retries() {
    check_synchronous_scan_ran_out_of_retries();
}

#[test]
fn iw_scan_test_synchronous_scan_retried_successfully() {
    check_synchronous_scan_retried_successfully();
}

#[test]
fn iw_scan_test_synchronous_scan_ran_out_of_retries_explicit() {
    check_synchronous_scan_ran_out_of_retries_explicit();
}

#[test]
fn scan_test_synchronous_scan_pass() {
    check_synchronous_scan_pass();
}

#[test]
fn scan_test_synchronous_scan_failed() {
    check_synchronous_scan_failed();
}

#[test]
fn scan_test_synchronous_scan_ran_out_of_retries() {
    check_synchronous_scan_ran_out_of_retries();
}

#[test]
fn scan_test_synchronous_scan_retried_successfully() {
    check_synchronous_scan_retried_successfully();
}

#[test]
fn scan_test_synchronous_scan_ran_out_of_retries_explicit() {
    check_synchronous_scan_ran_out_of_retries_explicit();
}

fn check_enough_time_to_retry() {
    let expected_min_secs_needed_to_abort_scan = 4.0;
    let delay_secs = SYNCHRONOUS_RETRY_DELAY_MILLIS as f64 / 1000.0;
    assert![f64::from(ALLOWED_SYNCHRONOUS_RETRIES) * delay_secs > expected_min_secs_needed_to_abort_scan];
}

#[test]
fn scan_test_enough_time_to_retry() {
    check_enough_time_to_retry();
}

#[test]
fn mod_test_enough_time_to_retry() {
    check_enough_time_to_retry();
}

#[test]
fn busy_notice_is_given_once_and_retries_count_down() {
    let mut retries = SyncScanRetries::new();
    let first = retries.next(command_fail_with_exitcode(DEVICE_OR_RESOURCE_BUSY_EXIT_CODE), "wlan0").unwrap();
    assert_eq![first, SyncScanNext::Wait { give_busy_notice: true }];
    let second = retries.next(command_fail_with_exitcode(DEVICE_OR_RESOURCE_BUSY_EXIT_CODE), "wlan0").unwrap();
    assert_eq![second, SyncScanNext::Wait { give_busy_notice: false }];
    assert_eq![retries.retries, ALLOWED_SYNCHRONOUS_RETRIES - 2];
    let stopped = retries.next(ScanAttempt::ExitedWith(None), "wlan0").unwrap_err();
    assert_eq![stopped.kind, RuwiErrorKind::IWSynchronousScanFailed];
    let mut last = SyncScanRetries { retries: 1, have_given_busy_notice: true };
    let err = last.next(command_fail_with_exitcode(DEVICE_OR_RESOURCE_BUSY_EXIT_CODE), "wlp2s0").unwrap_err();
    assert_eq![
        err.desc,
        "Ran out of retries waiting for wlp2s0 to become available for scanning with `iw`. Is NetworkManager or another service running?"
    ];
    assert_eq![last.retries, 0];
}

#[test]
fn scanner_commands() {
    let nm = nmcli_scan_command(true);
    assert_eq![nm.cmd_name, "nmcli"];
    assert_eq![nm.args.last().unwrap(), "yes"];
    assert_eq![nm.err_kind, RuwiErrorKind::FailedToRunNmcliScanSynchronous];
    let nm_cached = nmcli_scan_command(false);
    assert_eq![nm_cached.args.len(), 9];
    assert_eq![nm_cached.err_kind, RuwiErrorKind::FailedToRunNmcliScan];
    let wpa = wpa_cli_scan_command();
    assert_eq![wpa.args, vec!["scan_results".to_string()]];
    let dump = iw_scan_command("wlan0", IwScanKind::Dump);
    assert_eq![dump.args, vec!["wlan0".to_string(), "scan".to_string(), "dump".to_string()]];
    assert_eq![dump.err_kind, RuwiErrorKind::FailedToRunIWScanDump];
    let sync = iw_scan_command("wlan0", IwScanKind::Synchronous);
    assert_eq![sync.args, vec!["wlan0".to_string(), "scan".to_string()]];
}

#[test]
fn dump_followup() {
    assert_eq![iw_dump_followup(String::new()), IwDumpFollowup::ScanSynchronously];
    assert_eq![
        iw_dump_followup("BSS x".to_string()),
        IwDumpFollowup::UseDumpAndTrigger("BSS x".to_string())
    ];
}

#[test]
fn plans_follow_scan_method_and_type() {
    let mut wifi = WifiOptions::default();
    wifi.scan_type = WifiScanType::Nmcli;
    wifi.scan_method = ScanMethod::ByRunning;
    wifi.force_synchronous_scan = false;
    let options = WifiConnectOptions::builder().wifi(wifi.clone()).build();
    assert_eq![scan_plan(&options, &None).unwrap(), ScanPlan::RunNmcli { synchronous: false }];
    assert_eq![
        scan_plan(&options, &Some(SynchronousRescanType::ManuallyRequested)).unwrap(),
        ScanPlan::RunNmcli { synchronous: true }
    ];
    wifi.scan_type = WifiScanType::RuwiJSON;
    let json = WifiConnectOptions::builder().wifi(wifi.clone()).build();
    assert_eq![scan_plan(&json, &None).unwrap_err().kind, RuwiErrorKind::InvalidScanTypeAndMethod];
    wifi.scan_method = ScanMethod::FromFile("/tmp/scan.txt".to_string());
    let file = WifiConnectOptions::builder().wifi(wifi.clone()).build();
    assert_eq![
        scan_plan(&file, &None).unwrap(),
        ScanPlan::ReadFile { scan_type: WifiScanType::RuwiJSON, filename: "/tmp/scan.txt".to_string() }
    ];
    assert_eq![
        scan_file_read_error("f.txt").desc,
        "Failed to read scan contents from `f.txt`. Does that file exist?"
    ];
}

#[test]
fn busy_interface_is_tried_at_most_the_allowed_times() {
    let mut runs: u32 = 0;
    let res = run_iw_scan_synchronous_impl(|| {
        runs += 1;
        command_fail_with_exitcode(DEVICE_OR_RESOURCE_BUSY_EXIT_CODE)
    });
    assert_eq![res.unwrap_err().kind, RuwiErrorKind::IWSynchronousScanRanOutOfRetries];
    assert_eq![runs, ALLOWED_SYNCHRONOUS_RETRIES];
    let mut runs: u32 = 0;
    let res = run_iw_scan_synchronous_impl(|| {
        runs += 1;
        if runs < 3 { command_fail_with_exitcode(DEVICE_OR_RESOURCE_BUSY_EXIT_CODE) } else { command_pass() }
    });
    assert_eq![res.unwrap().trim(), FAKE_OUTPUT];
    assert_eq![runs, 3];
}
