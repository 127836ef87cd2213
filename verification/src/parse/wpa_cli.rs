//! Output of `wpa_cli scan_results`: two header lines, then one network per line,
//! as white-space separated fields `bssid frequency signal flags ssid...`.

use vstd::prelude::*;

use super::{failures, networks_view, errors_view, oks, NetworkFields, ParsedScan};
use crate::enums::ScanType;
use crate::errors::{RuwiError, RuwiErrorKind};
use crate::number::{parse_i32, parsed_i32};
use crate::structs::{IndividualParseError, ParseResult, WirelessNetwork};
use crate::text::{
    chars_of, contains, has_infix, has_prefix, join_from, join_with, lines, lines_of, string_of, trim,
    trim_ws, vviews, words, words_of,
};

verus! {

/// The network that one result line describes, or why it describes none.
pub open spec fn wpa_line_network(line: Seq<char>) -> Result<NetworkFields, IndividualParseError> {
    let f = words_of(line);
    if f.len() < 4 {
        Err(IndividualParseError::MissingWpaCliResultField)
    } else {
        match parsed_i32(f[2]) {
            None => Err(IndividualParseError::FailedToParseSignalLevel),
            Some(level) => Ok(
                NetworkFields {
                    essid: join_with(f.skip(4), ' '),
                    is_encrypted: has_infix(f[3], "WPA"@),
                    bssid: Some(f[0]),
                    signal_strength: Some((level + 90) as i32),
                    channel_utilisation: None,
                },
            ),
        }
    }
}

/// A result line whose signal level, when it is read, leaves room for the +90 offset.
pub open spec fn wpa_line_fits(line: Seq<char>) -> bool {
    let f = words_of(line);
    f.len() >= 4 ==> match parsed_i32(f[2]) {
        Some(level) => level + 90 <= i32::MAX,
        None => true,
    }
}

/// The result lines of an output: its lines after the two header lines.
pub open spec fn wpa_result_lines(output: Seq<char>) -> Seq<Seq<char>> {
    let ls = lines_of(trim_ws(output));
    if ls.len() < 2 {
        Seq::empty()
    } else {
        ls.skip(2)
    }
}

/// What a parse of `wpa_cli scan_results` output gives.
pub open spec fn wpa_cli_parse(scan_type: ScanType, output: Seq<char>) -> Result<ParsedScan, RuwiErrorKind> {
    let ls = lines_of(trim_ws(output));
    if ls.len() < 2 {
        Err(RuwiErrorKind::WPACliHeaderMalformedOrMissing)
    } else {
        let body = ls.skip(2);
        let rs = body.map_values(|l: Seq<char>| wpa_line_network(l));
        if oks(rs).len() == 0 {
            Err(RuwiErrorKind::NoNetworksSeenWithWPACliScanResults)
        } else {
            Ok(ParsedScan { scan_type, seen_networks: oks(rs), line_parse_errors: failures(body, rs) })
        }
    }
}

/// The description of the error for output without networks.
pub open spec fn wpa_no_networks_desc() -> Seq<char> {
    "No networks seen by `sudo wpa_cli scan_results`. Are you near wireless networks? Try running `sudo wpa_cli scan`."@
}

/// The description of the error for output without its header.
pub open spec fn wpa_header_desc() -> Seq<char> {
    "`wpa_cli scan_results` header malformed or missing"@
}

/// The error for output that holds no network.
pub fn err_wpa_cli_no_networks_seen() -> (r: RuwiError)
    ensures
        r.kind == RuwiErrorKind::NoNetworksSeenWithWPACliScanResults,
        r.desc@ == wpa_no_networks_desc(),
{
    RuwiError::new(
        RuwiErrorKind::NoNetworksSeenWithWPACliScanResults,
        "No networks seen by `sudo wpa_cli scan_results`. Are you near wireless networks? Try running `sudo wpa_cli scan`.",
    )
}

/// The error for output without its two header lines.
pub fn missing_wpa_cli_header() -> (r: RuwiError)
    ensures
        r.kind == RuwiErrorKind::WPACliHeaderMalformedOrMissing,
        r.desc@ == wpa_header_desc(),
{
    RuwiError::new(
        RuwiErrorKind::WPACliHeaderMalformedOrMissing,
        "`wpa_cli scan_results` header malformed or missing",
    )
}

/// Reads one result line into a network.
pub fn parse_wpa_line_into_network(line: &[char]) -> (r: Result<WirelessNetwork, IndividualParseError>)
    requires
        wpa_line_fits(line@),
    ensures
        match wpa_line_network(line@) {
            Ok(n) => r matches Ok(nw) && nw@ == n,
            Err(e) => r == Err::<WirelessNetwork, IndividualParseError>(e),
        },
{
    let fields = words(line);
    if fields.len() < 4 {
        return Err(IndividualParseError::MissingWpaCliResultField);
    }
    let ghost f = vviews(fields@);
    assert(f[2] == fields@[2]@);
    let signal_level = match parse_i32(fields[2].as_slice()) {
        Some(v) => v,
        None => {
            return Err(IndividualParseError::FailedToParseSignalLevel);
        },
    };
    let essid = string_of(join_from(&fields, 4, ' ').as_slice());
    let wpa = chars_of("WPA");
    let is_encrypted = contains(fields[3].as_slice(), wpa.as_slice());
    let bssid = string_of(fields[0].as_slice());
    assert(vviews(fields@).skip(4) =~= f.skip(4));
    Ok(
        WirelessNetwork {
            essid,
            is_encrypted,
            bssid: Some(bssid),
            signal_strength: Some(signal_level + 90),
            channel_utilisation: None,
        },
    )
}

/// Reads `wpa_cli scan_results` output.
pub fn parse_wpa_cli_scan(output: &String, scan_type: ScanType) -> (r: Result<ParseResult, RuwiError>)
    requires
        forall|i: int|
            0 <= i < wpa_result_lines(output@).len() ==> wpa_line_fits(
                #[trigger] wpa_result_lines(output@)[i],
            ),
    ensures
        match wpa_cli_parse(scan_type, output@) {
            Ok(p) => r matches Ok(res) && res@ == p,
            Err(k) => r matches Err(e) && e.kind == k && e.desc@ == (if k
                == RuwiErrorKind::WPACliHeaderMalformedOrMissing {
                wpa_header_desc()
            } else {
                wpa_no_networks_desc()
            }),
        },
{
    let text = chars_of(output.as_str());
    let ls = lines(trim(text.as_slice()).as_slice());
    if ls.len() < 2 {
        return Err(missing_wpa_cli_header());
    }
    let ghost all = vviews(ls@);
    let ghost body = all.skip(2);
    assert(body == wpa_result_lines(output@));
    let ghost rs = body.map_values(|l: Seq<char>| wpa_line_network(l));
    let mut networks: Vec<WirelessNetwork> = Vec::new();
    let mut line_parse_errors: Vec<(String, IndividualParseError)> = Vec::new();
    let mut i: usize = 2;
    while i < ls.len()
        invariant
            2 <= i <= ls.len(),
            all == vviews(ls@),
            all == lines_of(trim_ws(output@)),
            body == all.skip(2),
            rs == body.map_values(|l: Seq<char>| wpa_line_network(l)),
            forall|j: int| 0 <= j < body.len() ==> wpa_line_fits(#[trigger] body[j]),
            networks_view(networks@) == oks(rs.take(i - 2)),
            errors_view(line_parse_errors@) == failures(body.take(i - 2), rs.take(i - 2)),
        decreases ls.len() - i,
    {
        let ghost k = i - 2;
        assert(rs.take(k + 1).drop_last() =~= rs.take(k));
        assert(body.take(k + 1).drop_last() =~= body.take(k));
        assert(rs.take(k + 1).last() == wpa_line_network(all[i as int]));
        assert(body.take(k + 1).last() == all[i as int]);
        assert(body[k] == all[i as int]);
        assert(wpa_line_fits(body[k]));
        match parse_wpa_line_into_network(ls[i].as_slice()) {
            Ok(nw) => {
                let ghost before = networks_view(networks@);
                networks.push(nw);
                assert(networks_view(networks@) =~= before.push(nw@));
            },
            Err(err) => {
                let ghost before = errors_view(line_parse_errors@);
                let line = string_of(ls[i].as_slice());
                line_parse_errors.push((line, err));
                assert(errors_view(line_parse_errors@) =~= before.push((all[i as int], err)));
            },
        }
        i += 1;
    }
    assert(rs.take(ls.len() - 2) =~= rs);
    assert(body.take(ls.len() - 2) =~= body);
    if networks.len() == 0 {
        Err(err_wpa_cli_no_networks_seen())
    } else {
        Ok(ParseResult { scan_type, seen_networks: networks, line_parse_errors })
    }
}

/// Whether the signal level of one result line, when it is read, leaves room for the +90 offset.
pub fn wpa_line_readable(line: &[char]) -> (r: bool)
    ensures
        r == wpa_line_fits(line@),
{
    let fields = words(line);
    if fields.len() < 4 {
        return true;
    }
    let ghost f = vviews(fields@);
    assert(f[2] == fields@[2]@);
    match parse_i32(fields[2].as_slice()) {
        Some(level) => level <= i32::MAX - 90,
        None => true,
    }
}

/// Whether every result line of `wpa_cli scan_results` output (the lines after
/// the two header lines) can be read without overflow.
pub fn wpa_output_readable(output: &str) -> (r: bool)
    ensures
        r == forall|i: int|
            0 <= i < wpa_result_lines(output@).len() ==> wpa_line_fits(
                #[trigger] wpa_result_lines(output@)[i],
            ),
{
    let text = chars_of(output);
    let ls = lines(trim(text.as_slice()).as_slice());
    let ghost all = vviews(ls@);
    let ghost body = wpa_result_lines(output@);
    if ls.len() <= 2 {
        return true;
    }
    assert(body == all.skip(2));
    let mut i: usize = 2;
    while i < ls.len()
        invariant
            2 <= i <= ls.len(),
            all == vviews(ls@),
            body == all.skip(2),
            body == wpa_result_lines(output@),
            body.len() == ls.len() - 2,
            forall|j: int| 0 <= j < i - 2 ==> wpa_line_fits(#[trigger] body[j]),
        decreases ls.len() - i,
    {
        if !wpa_line_readable(ls[i].as_slice()) {
            assert(body[i - 2] == all[i as int]);
            assert(!wpa_line_fits(body[i - 2]));
            return false;
        }
        assert(body[i - 2] == all[i as int]);
        i += 1;
    }
    true
}

/// Whether the letters `W`, `P`, `A` stand next to each other somewhere in `flags`.
pub open spec fn mentions_wpa(flags: Seq<char>) -> bool {
    exists|i: int|
        0 <= i && i + 3 <= flags.len() && #[trigger] flags[i] == 'W' && flags[i + 1] == 'P'
            && flags[i + 2] == 'A'
}

/// A result line that describes a network describes an encrypted one exactly
/// when its flags field (the fourth field) mentions `WPA`, whatever else the
/// flags say (`[WPA2-EAP-CCMP]` and `[WPA-PSK-TKIP]` alike); its name is the
/// fifth field on, its address the first, and its strength the signal level
/// (third field) plus 90.
pub proof fn lemma_wpa_line_encryption(line: Seq<char>)
    ensures
        wpa_line_network(line) matches Ok(n) ==> {
            let f = words_of(line);
            &&& f.len() >= 4
            &&& (n.is_encrypted <==> mentions_wpa(f[3]))
            &&& n.bssid == Some(f[0])
            &&& parsed_i32(f[2]) matches Some(level) && n.signal_strength == Some(
                (level + 90) as i32,
            )
        },
{
    let f = words_of(line);
    if wpa_line_network(line) is Ok {
        let flags = f[3];
        reveal_strlit("WPA");
        let w = "WPA"@;
        assert(w.len() == 3 && w[0] == 'W' && w[1] == 'P' && w[2] == 'A');
        if has_infix(flags, w) {
            let i = choose|i: int| 0 <= i <= flags.len() && #[trigger] has_prefix(flags.skip(i), w);
            assert(flags.skip(i).take(3)[0] == flags[i]);
            assert(flags.skip(i).take(3)[1] == flags[i + 1]);
            assert(flags.skip(i).take(3)[2] == flags[i + 2]);
            assert(mentions_wpa(flags));
        }
        if mentions_wpa(flags) {
            let i = choose|i: int|
                0 <= i && i + 3 <= flags.len() && #[trigger] flags[i] == 'W' && flags[i + 1] == 'P'
                    && flags[i + 2] == 'A';
            assert(flags.skip(i).take(3) =~= w);
            assert(has_prefix(flags.skip(i), w));
            assert(has_infix(flags, w));
        }
    }
}

} // verus!
