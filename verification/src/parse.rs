//! Reading the output of wifi scanners into networks.
//!
//! Each scanner's output is read line by line (or, for `iw`, block by block).
//! What can be read becomes a network; what cannot is kept, with the reason,
//! beside the networks.

mod iw;
mod nmcli;
mod wpa_cli;

pub use iw::{
    break_iw_output_into_chunks_per_network, err_iw_malformed_output, err_iw_no_networks_seen,
    iw_bss_header_match, iw_chunk_network, iw_chunk_text, iw_chunks, iw_lines, iw_parse,
    parse_iw_chunk_into_network, parse_iw_scan, unescaped,
};
pub use nmcli::{get_network_from_nmcli_line, nmcli_line_network, nmcli_parse, parse_nmcli_scan};
pub use wpa_cli::{
    err_wpa_cli_no_networks_seen, missing_wpa_cli_header, parse_wpa_cli_scan,
    parse_wpa_line_into_network, wpa_cli_parse, wpa_line_fits, wpa_line_network,
};

use vstd::prelude::*;

use crate::enums::{ScanType, WifiScanType};
use crate::errors::{RuwiError, RuwiErrorKind};
use crate::structs::{opt_chars, IndividualParseError, ParseResult, ScanResult, WirelessNetwork};

verus! {

/// The content of a scanned network.
pub struct NetworkFields {
    pub essid: Seq<char>,
    pub is_encrypted: bool,
    pub bssid: Option<Seq<char>>,
    pub signal_strength: Option<i32>,
    pub channel_utilisation: Option<Seq<char>>,
}

impl View for WirelessNetwork {
    type V = NetworkFields;

    open spec fn view(&self) -> NetworkFields {
        NetworkFields {
            essid: self.essid@,
            is_encrypted: self.is_encrypted,
            bssid: opt_chars(self.bssid),
            signal_strength: self.signal_strength,
            channel_utilisation: opt_chars(self.channel_utilisation),
        }
    }
}

/// What a parse gives: the networks and the pieces of output that were not networks.
pub struct ParsedScan {
    pub scan_type: ScanType,
    pub seen_networks: Seq<NetworkFields>,
    pub line_parse_errors: Seq<(Seq<char>, IndividualParseError)>,
}

/// The content of a list of networks.
pub open spec fn networks_view(v: Seq<WirelessNetwork>) -> Seq<NetworkFields> {
    Seq::new(v.len(), |i: int| v[i]@)
}

/// The content of a list of unread pieces and reasons.
pub open spec fn errors_view(v: Seq<(String, IndividualParseError)>) -> Seq<
    (Seq<char>, IndividualParseError),
> {
    Seq::new(v.len(), |i: int| (v[i].0@, v[i].1))
}

impl View for ParseResult {
    type V = ParsedScan;

    open spec fn view(&self) -> ParsedScan {
        ParsedScan {
            scan_type: self.scan_type,
            seen_networks: networks_view(self.seen_networks@),
            line_parse_errors: errors_view(self.line_parse_errors@),
        }
    }
}

/// The successful results among `rs`, in order.
pub open spec fn oks(rs: Seq<Result<NetworkFields, IndividualParseError>>) -> Seq<NetworkFields>
    decreases rs.len(),
{
    if rs.len() == 0 {
        Seq::empty()
    } else {
        let r = oks(rs.drop_last());
        match rs.last() {
            Ok(n) => r.push(n),
            Err(_) => r,
        }
    }
}

/// The pieces whose result is an error, each with its error, in order.
pub open spec fn failures(
    pieces: Seq<Seq<char>>,
    rs: Seq<Result<NetworkFields, IndividualParseError>>,
) -> Seq<(Seq<char>, IndividualParseError)>
    decreases rs.len(),
{
    if rs.len() == 0 || pieces.len() != rs.len() {
        Seq::empty()
    } else {
        let r = failures(pieces.drop_last(), rs.drop_last());
        match rs.last() {
            Ok(_) => r,
            Err(e) => r.push((pieces.last(), e)),
        }
    }
}

/// What `parse_result` gives for a scan made by `scan_type` that printed `output`.
pub open spec fn scan_parse(scan_type: ScanType, output: Seq<char>) -> Result<
    ParsedScan,
    RuwiErrorKind,
> {
    match scan_kind(scan_type) {
        WifiScanType::Nmcli => Ok(nmcli_parse(scan_type, output)),
        WifiScanType::WpaCli => wpa_cli_parse(scan_type, output),
        WifiScanType::IW => iw_parse(scan_type, output),
        WifiScanType::RuwiJSON => Err(RuwiErrorKind::NotImplementedError),
    }
}

/// The inputs that the parsers read without an arithmetic overflow: a signal
/// level that they read is at most `i32::MAX - 90`. Only the lines read as
/// networks count: for `wpa_cli`, those after the two header lines.
pub open spec fn scan_output_fits(scan_type: WifiScanType, output: Seq<char>) -> bool {
    match scan_type {
        WifiScanType::WpaCli => forall|i: int|
            0 <= i < wpa_cli::wpa_result_lines(output).len() ==> wpa_line_fits(
                #[trigger] wpa_cli::wpa_result_lines(output)[i],
            ),
        WifiScanType::IW => iw::iw_output_fits(output),
        _ => true,
    }
}

/// Reads the output of the scan in `scan_result`.
pub fn parse_result(interface_name: &str, scan_result: &ScanResult) -> (r: Result<
    ParseResult,
    RuwiError,
>)
    requires
        scan_output_fits(scan_kind(scan_result.scan_type), scan_result.scan_output@),
    ensures
        match scan_parse(scan_result.scan_type, scan_result.scan_output@) {
            Ok(p) => r matches Ok(res) && res@ == p,
            Err(k) => r matches Err(e) && e.kind == k,
        },
        r matches Err(e) ==> e.desc@ == parse_error_desc(interface_name@, e.kind),
{
    let st = scan_result.scan_type;
    match st {
        ScanType::Wifi(WifiScanType::Nmcli) => Ok(parse_nmcli_scan(&scan_result.scan_output, st)),
        ScanType::Wifi(WifiScanType::WpaCli) => parse_wpa_cli_scan(&scan_result.scan_output, st),
        ScanType::Wifi(WifiScanType::IW) => parse_iw_scan(
            interface_name,
            &scan_result.scan_output,
            st,
        ),
        ScanType::Wifi(WifiScanType::RuwiJSON) => Err(
            RuwiError::new(RuwiErrorKind::NotImplementedError, "JSON support is coming soon!"),
        ),
    }
}

/// The wifi scanner of a scan type.
pub open spec fn scan_kind(t: ScanType) -> WifiScanType {
    match t {
        ScanType::Wifi(w) => w,
    }
}

/// The description of a parse error of `kind`.
pub open spec fn parse_error_desc(interface_name: Seq<char>, kind: RuwiErrorKind) -> Seq<char> {
    match kind {
        RuwiErrorKind::NotImplementedError => "JSON support is coming soon!"@,
        RuwiErrorKind::MalformedIWOutput => iw::iw_malformed_desc(interface_name),
        RuwiErrorKind::NoNetworksSeenWithIWScanDump => iw::iw_no_networks_desc(interface_name),
        RuwiErrorKind::NoNetworksSeenWithWPACliScanResults => wpa_cli::wpa_no_networks_desc(),
        RuwiErrorKind::WPACliHeaderMalformedOrMissing => wpa_cli::wpa_header_desc(),
        _ => Seq::empty(),
    }
}

/// Whether the output of the scan in `scan_result` can be read without overflow.
pub fn scan_output_readable(scan_result: &ScanResult) -> (r: bool)
    ensures
        r == scan_output_fits(scan_kind(scan_result.scan_type), scan_result.scan_output@),
{
    match scan_result.scan_type {
        ScanType::Wifi(WifiScanType::WpaCli) => wpa_cli::wpa_output_readable(
            scan_result.scan_output.as_str(),
        ),
        ScanType::Wifi(WifiScanType::IW) => {
            let text = crate::text::chars_of(scan_result.scan_output.as_str());
            iw::iw_output_readable(text.as_slice())
        },
        ScanType::Wifi(WifiScanType::Nmcli) => true,
        ScanType::Wifi(WifiScanType::RuwiJSON) => true,
    }
}

/// Every piece gives either a network or an error: together they are as many as the pieces.
pub proof fn lemma_every_piece_accounted(
    pieces: Seq<Seq<char>>,
    rs: Seq<Result<NetworkFields, IndividualParseError>>,
)
    requires
        pieces.len() == rs.len(),
    ensures
        oks(rs).len() + failures(pieces, rs).len() == rs.len(),
    decreases rs.len(),
{
    if rs.len() > 0 {
        lemma_every_piece_accounted(pieces.drop_last(), rs.drop_last());
    }
}

/// Every result line of `wpa_cli` output, and every block of `iw` output, gives
/// either a network or an error; for `nmcli`, every line does. Output that
/// cannot be read at all (a missing header, no blocks) fails as a whole instead.
pub proof fn lemma_parse_accounts_for_every_piece(scan_type: ScanType, output: Seq<char>)
    ensures
        scan_parse(scan_type, output) matches Ok(p) ==> p.seen_networks.len() + p.line_parse_errors.len()
            == match scan_kind(scan_type) {
            WifiScanType::WpaCli => wpa_cli::wpa_result_lines(output).len(),
            WifiScanType::IW => match iw_chunks(output) {
                Ok(cs) => cs.len(),
                Err(_) => 0,
            },
            _ => crate::text::lines_of(crate::text::trim_ws(output)).len(),
        },
{
    match scan_kind(scan_type) {
        WifiScanType::WpaCli => {
            let ls = crate::text::lines_of(crate::text::trim_ws(output));
            if ls.len() >= 2 {
                let body = ls.skip(2);
                let rs = body.map_values(|l: Seq<char>| wpa_line_network(l));
                lemma_every_piece_accounted(body, rs);
            }
        },
        WifiScanType::IW => {
            if let Ok(cs) = iw_chunks(output) {
                let rs = cs.map_values(|c: Seq<Seq<char>>| iw_chunk_network(c));
                lemma_every_piece_accounted(cs.map_values(|c: Seq<Seq<char>>| iw_chunk_text(c)), rs);
            }
        },
        WifiScanType::Nmcli => {
            let ls = crate::text::lines_of(crate::text::trim_ws(output));
            let rs = ls.map_values(|l: Seq<char>| nmcli_line_network(l));
            lemma_every_piece_accounted(ls, rs);
        },
        WifiScanType::RuwiJSON => {},
    }
}

} // verus!
