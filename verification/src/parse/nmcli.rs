//! Output of `nmcli -g SECURITY,SIGNAL,SSID device wifi list`: one network per line,
//! as `security:signal:ssid`, where the SSID may itself hold colons.

use vstd::prelude::*;

use super::{errors_view, failures, networks_view, oks, NetworkFields, ParsedScan};
use crate::enums::ScanType;
use crate::number::{parse_i32, parsed_i32};
use crate::structs::{IndividualParseError, ParseResult, WirelessNetwork};
use crate::text::{
    chars_of, join_from, join_with, lines, lines_of, split, split_by, string_of, trim, trim_ws,
    vviews, Sep,
};

verus! {

/// The network that one line describes, or why it describes none.
pub open spec fn nmcli_line_network(line: Seq<char>) -> Result<NetworkFields, IndividualParseError> {
    let p = split_by(line, Sep::Char(':'));
    if p.len() < 3 {
        Err(IndividualParseError::MissingNmcliSeparator)
    } else {
        Ok(
            NetworkFields {
                essid: join_with(p.skip(2), ':'),
                is_encrypted: p[0].len() > 0,
                bssid: None,
                signal_strength: parsed_i32(p[1]),
                channel_utilisation: None,
            },
        )
    }
}

/// What a parse of nmcli output gives.
pub open spec fn nmcli_parse(scan_type: ScanType, output: Seq<char>) -> ParsedScan {
    let ls = lines_of(trim_ws(output));
    let rs = ls.map_values(|l: Seq<char>| nmcli_line_network(l));
    ParsedScan { scan_type, seen_networks: oks(rs), line_parse_errors: failures(ls, rs) }
}

/// Reads one nmcli line into a network.
pub fn get_network_from_nmcli_line(line: &[char]) -> (r: Result<WirelessNetwork, IndividualParseError>)
    ensures
        match nmcli_line_network(line@) {
            Ok(n) => r matches Ok(nw) && nw@ == n,
            Err(e) => r == Err::<WirelessNetwork, IndividualParseError>(e),
        },
{
    let tokens = split(line, Sep::Char(':'));
    if tokens.len() < 3 {
        return Err(IndividualParseError::MissingNmcliSeparator);
    }
    let ghost p = vviews(tokens@);
    assert(p[0] == tokens@[0]@ && p[1] == tokens@[1]@);
    let is_encrypted = tokens[0].len() > 0;
    let signal_strength = parse_i32(tokens[1].as_slice());
    let essid = string_of(join_from(&tokens, 2, ':').as_slice());
    Ok(
        WirelessNetwork {
            essid,
            is_encrypted,
            bssid: None,
            signal_strength,
            channel_utilisation: None,
        },
    )
}

/// Reads nmcli output.
pub fn parse_nmcli_scan(output: &String, scan_type: ScanType) -> (r: ParseResult)
    ensures
        r@ == nmcli_parse(scan_type, output@),
{
    let text = chars_of(output.as_str());
    let ls = lines(trim(text.as_slice()).as_slice());
    let ghost all = vviews(ls@);
    let ghost rs = all.map_values(|l: Seq<char>| nmcli_line_network(l));
    let mut seen_networks: Vec<WirelessNetwork> = Vec::new();
    let mut line_parse_errors: Vec<(String, IndividualParseError)> = Vec::new();
    let mut i: usize = 0;
    while i < ls.len()
        invariant
            i <= ls.len(),
            all == vviews(ls@),
            all == lines_of(trim_ws(output@)),
            rs == all.map_values(|l: Seq<char>| nmcli_line_network(l)),
            networks_view(seen_networks@) == oks(rs.take(i as int)),
            errors_view(line_parse_errors@) == failures(all.take(i as int), rs.take(i as int)),
        decreases ls.len() - i,
    {
        assert(rs.take(i + 1).drop_last() =~= rs.take(i as int));
        assert(all.take(i + 1).drop_last() =~= all.take(i as int));
        assert(rs.take(i + 1).last() == nmcli_line_network(all[i as int]));
        match get_network_from_nmcli_line(ls[i].as_slice()) {
            Ok(nw) => {
                let ghost before = networks_view(seen_networks@);
                seen_networks.push(nw);
                assert(networks_view(seen_networks@) =~= before.push(nw@));
            },
            Err(err) => {
                let ghost before = errors_view(line_parse_errors@);
                let line = string_of(ls[i].as_slice());
                line_parse_errors.push((line, err));
                assert(errors_view(line_parse_errors@) =~= before.push((all[i as int], err)));
            },
        }
        i += 1;
    }
    assert(rs.take(ls.len() as int) =~= rs);
    assert(all.take(ls.len() as int) =~= all);
    ParseResult { scan_type, seen_networks, line_parse_errors }
}

} // verus!
