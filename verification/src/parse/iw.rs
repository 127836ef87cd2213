//! Output of `iw <interface> scan dump`: one block per network, each opening with a
//! `BSS <address>` line and holding `SSID: `, `capability:` and `signal: ` lines.

use vstd::prelude::*;

use super::{errors_view, failures, networks_view, oks, NetworkFields, ParsedScan};
use crate::enums::ScanType;
use crate::errors::{concat, RuwiError, RuwiErrorKind};
use crate::number::{parse_i32, parsed_i32};
use crate::structs::{opt_chars, IndividualParseError, ParseResult, WirelessNetwork};
use crate::text::{
    chars_of, has_prefix, join_from, join_with, lines, lines_of, same_chars, slice_chars, split,
    split_by, starts_with, string_of, strip_leading, strip_trailing, trim, trim_end_matches,
    trim_start_matches, trim_ws, vviews, words, words_of, Sep,
};

verus! {

/// Whether `^BSS ((\w\w:){5}\w\w)` matches `line` under the `regex` crate.
pub uninterp spec fn iw_bss_header_match(line: Seq<char>) -> bool;

/// Whether `c` is an ASCII letter, digit or underscore: a word character in every regex flavour.
pub open spec fn is_ascii_word_char(c: char) -> bool {
    ('a' <= c && c <= 'z') || ('A' <= c && c <= 'Z') || ('0' <= c && c <= '9') || c == '_'
}

/// Whether `line` opens with `BSS ` and six colon-separated pairs of ASCII word characters.
pub open spec fn is_plain_bss_header(line: Seq<char>) -> bool {
    &&& line.len() >= 21
    &&& has_prefix(line, "BSS "@)
    &&& forall|i: int|
        4 <= i < 21 ==> (if (i - 4) % 3 == 2 {
            line[i] == ':'
        } else {
            is_ascii_word_char(#[trigger] line[i])
        })
}

/// Whether `line` opens an `iw` network block: `regex::Regex::is_match` for the
/// pattern `^BSS ((\w\w:){5}\w\w)`. Its result is named; the contract adds what the
/// pattern plainly shows: a match begins with `BSS `, and a header written with ASCII
/// word characters matches. Which other characters `\w` accepts (the Unicode tables
/// of the crate) is left unsaid.
#[verifier::external_body]
fn is_iw_bss_header(line: &str) -> (r: bool)
    ensures
        r == iw_bss_header_match(line@),
        r ==> has_prefix(line@, "BSS "@),
        is_plain_bss_header(line@) ==> r,
{
    regex::Regex::new(r"^BSS ((\w\w:){5}\w\w)").expect(
        "Failure creating regex for iw parsing...",
    ).is_match(line)
}

/// What `unescape::unescape` gives for `s`: `s` with its backslash escapes decoded,
/// or `None` for a malformed escape.
pub uninterp spec fn unescaped(s: Seq<char>) -> Option<Seq<char>>;

/// `unescape::unescape`. Its result is named; the contract adds what its source
/// plainly shows: text without a backslash comes back unchanged.
#[verifier::external_body]
fn unescape_text(s: &str) -> (r: Option<String>)
    ensures
        opt_chars(r) == unescaped(s@),
        (forall|i: int| 0 <= i < s@.len() ==> s@[i] != '\\') ==> opt_chars(r) == Some(s@),
{
    unescape::unescape(s)
}

/// The lines of the output, each without surrounding white space.
pub open spec fn iw_lines(output: Seq<char>) -> Seq<Seq<char>> {
    lines_of(trim_ws(output)).map_values(|l: Seq<char>| trim_ws(l))
}

/// The lines grouped into blocks: each header line opens a new block.
pub open spec fn group_lines(ls: Seq<Seq<char>>) -> Seq<Seq<Seq<char>>>
    decreases ls.len(),
{
    if ls.len() <= 1 {
        seq![ls]
    } else {
        let g = group_lines(ls.drop_last());
        if iw_bss_header_match(ls.last()) {
            g.push(seq![ls.last()])
        } else {
            g.update(g.len() - 1, g.last().push(ls.last()))
        }
    }
}

/// The blocks of the output, or the error when it is empty or does not open with a header.
pub open spec fn iw_chunks(output: Seq<char>) -> Result<Seq<Seq<Seq<char>>>, RuwiErrorKind> {
    let ls = iw_lines(output);
    if ls.len() == 0 {
        Err(RuwiErrorKind::NoNetworksSeenWithIWScanDump)
    } else if !iw_bss_header_match(ls[0]) {
        Err(RuwiErrorKind::MalformedIWOutput)
    } else {
        Ok(group_lines(ls))
    }
}

/// The first of `ls` that begins with `p`.
pub open spec fn first_with_prefix(ls: Seq<Seq<char>>, p: Seq<char>) -> Option<Seq<char>>
    decreases ls.len(),
{
    if ls.len() == 0 {
        None
    } else if has_prefix(ls[0], p) {
        Some(ls[0])
    } else {
        first_with_prefix(ls.drop_first(), p)
    }
}

/// The signal level that a `signal: ` line states, in whole dBm, if it can be read.
pub open spec fn signal_reading(line: Seq<char>) -> Option<i32> {
    parsed_i32(
        split_by(trim_end_matches(trim_start_matches(line, "signal: "@), " dBm"@), Sep::Char('.'))[0],
    )
}

/// The first signal level of a block that can be read.
pub open spec fn first_signal(ls: Seq<Seq<char>>) -> Option<i32>
    decreases ls.len(),
{
    if ls.len() == 0 {
        None
    } else if has_prefix(ls[0], "signal: "@) && signal_reading(ls[0]) is Some {
        signal_reading(ls[0])
    } else {
        first_signal(ls.drop_first())
    }
}

/// The network that a block describes, or why it describes none.
pub open spec fn iw_chunk_network(chunk: Seq<Seq<char>>) -> Result<NetworkFields, IndividualParseError> {
    match first_with_prefix(chunk, "SSID: "@) {
        None => Err(IndividualParseError::MissingIWSSIDField),
        Some(ssid_line) => match unescaped(trim_start_matches(ssid_line, "SSID: "@)) {
            None => Err(IndividualParseError::FailedToUnescapeSSIDField),
            Some(essid) => match first_with_prefix(chunk, "capability:"@) {
                None => Err(IndividualParseError::MissingIWCapabilityField),
                Some(cap) => if chunk.len() == 0 {
                    Err(IndividualParseError::ZeroLengthIWChunk)
                } else {
                    Ok(
                        NetworkFields {
                            essid,
                            is_encrypted: words_of(cap).contains("Privacy"@),
                            bssid: Some(
                                split_by(trim_start_matches(chunk[0], "BSS "@), Sep::Char('('))[0],
                            ),
                            signal_strength: match first_signal(chunk) {
                                Some(level) => Some((level + 90) as i32),
                                None => None,
                            },
                            channel_utilisation: None,
                        },
                    )
                },
            },
        },
    }
}

/// A block whose signal level, when it is read, leaves room for the +90 offset.
pub open spec fn iw_chunk_fits(chunk: Seq<Seq<char>>) -> bool {
    first_signal(chunk) matches Some(level) ==> level + 90 <= i32::MAX
}

/// Output whose blocks all fit.
pub open spec fn iw_output_fits(output: Seq<char>) -> bool {
    iw_chunks(output) matches Ok(cs) ==> forall|i: int|
        0 <= i < cs.len() ==> iw_chunk_fits(#[trigger] cs[i])
}

/// How a block that is not a network is reported: its lines joined.
pub open spec fn iw_chunk_text(chunk: Seq<Seq<char>>) -> Seq<char> {
    join_with(chunk, '\n')
}

/// What a parse of `iw` output gives.
pub open spec fn iw_parse(scan_type: ScanType, output: Seq<char>) -> Result<ParsedScan, RuwiErrorKind> {
    match iw_chunks(output) {
        Err(k) => Err(k),
        Ok(cs) => {
            let rs = cs.map_values(|c: Seq<Seq<char>>| iw_chunk_network(c));
            Ok(
                ParsedScan {
                    scan_type,
                    seen_networks: oks(rs),
                    line_parse_errors: failures(
                        cs.map_values(|c: Seq<Seq<char>>| iw_chunk_text(c)),
                        rs,
                    ),
                },
            )
        },
    }
}

/// The description of the error for output that does not open with a header.
pub open spec fn iw_malformed_desc(interface_name: Seq<char>) -> Seq<char> {
    "Malformed output returned by `sudo iw "@ + interface_name
        + " scan dump`. Try running it manually."@
}

/// The description of the error for empty output.
pub open spec fn iw_no_networks_desc(interface_name: Seq<char>) -> Seq<char> {
    "No networks seen by `sudo iw "@ + interface_name
        + " scan dump`. Are you near wireless networks? Try running `sudo iw "@ + interface_name
        + " scan`."@
}

/// The error for output that does not open with a header.
pub fn err_iw_malformed_output(interface_name: &str) -> (r: RuwiError)
    ensures
        r.kind == RuwiErrorKind::MalformedIWOutput,
        r.desc@ == iw_malformed_desc(interface_name@),
{
    let mut desc = concat("Malformed output returned by `sudo iw ", interface_name);
    desc.append(" scan dump`. Try running it manually.");
    RuwiError::with_desc(RuwiErrorKind::MalformedIWOutput, desc)
}

/// The error for empty output.
pub fn err_iw_no_networks_seen(interface_name: &str) -> (r: RuwiError)
    ensures
        r.kind == RuwiErrorKind::NoNetworksSeenWithIWScanDump,
        r.desc@ == iw_no_networks_desc(interface_name@),
{
    let mut desc = concat("No networks seen by `sudo iw ", interface_name);
    desc.append(" scan dump`. Are you near wireless networks? Try running `sudo iw ");
    desc.append(interface_name);
    desc.append(" scan`.");
    RuwiError::with_desc(RuwiErrorKind::NoNetworksSeenWithIWScanDump, desc)
}

/// The character sequences of a list of blocks.
pub open spec fn blocks_view(v: Seq<Vec<Vec<char>>>) -> Seq<Seq<Seq<char>>> {
    Seq::new(v.len(), |i: int| vviews(v[i]@))
}

fn header_line(line: &[char]) -> (r: bool)
    ensures
        r == iw_bss_header_match(line@),
{
    let s = string_of(line);
    is_iw_bss_header(s.as_str())
}

/// Splits `iw` output into blocks of trimmed lines, one block per network.
pub fn break_iw_output_into_chunks_per_network(interface_name: &str, output: &[char]) -> (r: Result<
    Vec<Vec<Vec<char>>>,
    RuwiError,
>)
    ensures
        match iw_chunks(output@) {
            Ok(cs) => r matches Ok(v) && blocks_view(v@) == cs,
            Err(k) => r matches Err(e) && e.kind == k && e.desc@ == (if k
                == RuwiErrorKind::MalformedIWOutput {
                iw_malformed_desc(interface_name@)
            } else {
                iw_no_networks_desc(interface_name@)
            }),
        },
{
    let raw = lines(trim(output).as_slice());
    let mut ls: Vec<Vec<char>> = Vec::new();
    let mut k: usize = 0;
    while k < raw.len()
        invariant
            k <= raw.len(),
            vviews(raw@) == lines_of(trim_ws(output@)),
            vviews(ls@) == vviews(raw@).take(k as int).map_values(|l: Seq<char>| trim_ws(l)),
        decreases raw.len() - k,
    {
        let t = trim(raw[k].as_slice());
        let ghost before = vviews(ls@);
        ls.push(t);
        assert(vviews(ls@) =~= before.push(t@));
        assert(vviews(raw@).take(k + 1).map_values(|l: Seq<char>| trim_ws(l)) =~= vviews(
            raw@,
        ).take(k as int).map_values(|l: Seq<char>| trim_ws(l)).push(trim_ws(raw@[k as int]@)));
        k += 1;
    }
    assert(vviews(raw@).take(raw.len() as int) =~= vviews(raw@));
    let ghost all = vviews(ls@);
    assert(all == iw_lines(output@));
    if ls.len() == 0 {
        return Err(err_iw_no_networks_seen(interface_name));
    }
    if !header_line(ls[0].as_slice()) {
        return Err(err_iw_malformed_output(interface_name));
    }
    let mut groups: Vec<Vec<Vec<char>>> = Vec::new();
    let mut cur: Vec<Vec<char>> = Vec::new();
    let first = slice_chars(ls[0].as_slice(), 0, ls[0].len());
    assert(first@ =~= all[0]);
    cur.push(first);
    assert(all.take(1) =~= seq![all[0]]);
    assert(vviews(cur@) =~= seq![all[0]]);
    let mut i: usize = 1;
    while i < ls.len()
        invariant
            1 <= i <= ls.len(),
            all == vviews(ls@),
            group_lines(all.take(i as int)) == blocks_view(groups@).push(vviews(cur@)),
        decreases ls.len() - i,
    {
        let ghost prev = all.take(i as int);
        assert(all.take(i + 1).drop_last() =~= prev);
        assert(all.take(i + 1).last() == all[i as int]);
        let line = slice_chars(ls[i].as_slice(), 0, ls[i].len());
        assert(line@ =~= all[i as int]);
        if header_line(ls[i].as_slice()) {
            let ghost g = blocks_view(groups@);
            let ghost c = vviews(cur@);
            groups.push(cur);
            cur = Vec::new();
            cur.push(line);
            assert(blocks_view(groups@) =~= g.push(c));
            assert(vviews(cur@) =~= seq![all[i as int]]);
        } else {
            let ghost g = blocks_view(groups@);
            let ghost c = vviews(cur@);
            cur.push(line);
            assert(vviews(cur@) =~= c.push(all[i as int]));
            assert(blocks_view(groups@).push(vviews(cur@)) =~= (g.push(c)).update(
                g.len() as int,
                c.push(all[i as int]),
            ));
        }
        i += 1;
    }
    assert(all.take(ls.len() as int) =~= all);
    let ghost g = blocks_view(groups@);
    let ghost c = vviews(cur@);
    groups.push(cur);
    assert(blocks_view(groups@) =~= g.push(c));
    Ok(groups)
}

/// The first of `ls` that begins with `p`, by position.
fn find_with_prefix(ls: &Vec<Vec<char>>, p: &[char]) -> (r: Option<usize>)
    ensures
        match first_with_prefix(vviews(ls@), p@) {
            Some(l) => r matches Some(i) && i < ls.len() && ls@[i as int]@ == l,
            None => r is None,
        },
{
    let ghost all = vviews(ls@);
    let mut i: usize = 0;
    assert(all.skip(0) =~= all);
    while i < ls.len()
        invariant
            i <= ls.len(),
            all == vviews(ls@),
            first_with_prefix(all, p@) == first_with_prefix(all.skip(i as int), p@),
        decreases ls.len() - i,
    {
        assert(all.skip(i as int)[0] == ls@[i as int]@);
        if starts_with(ls[i].as_slice(), p) {
            return Some(i);
        }
        assert(all.skip(i as int).drop_first() =~= all.skip(i + 1));
        i += 1;
    }
    None
}

/// The signal level that a `signal: ` line states, if it can be read.
fn read_signal(line: &[char]) -> (r: Option<i32>)
    ensures
        r == signal_reading(line@),
{
    let prefix = chars_of("signal: ");
    let suffix = chars_of(" dBm");
    let a = strip_leading(line, prefix.as_slice());
    let b = strip_trailing(a.as_slice(), suffix.as_slice());
    let parts = split(b.as_slice(), Sep::Char('.'));
    proof {
        crate::text::lemma_split_by_nonempty(b@, Sep::Char('.'));
    }
    assert(vviews(parts@)[0] == parts@[0]@);
    parse_i32(parts[0].as_slice())
}

/// The first signal level of a block that can be read.
fn find_signal(ls: &Vec<Vec<char>>) -> (r: Option<i32>)
    ensures
        r == first_signal(vviews(ls@)),
{
    let ghost all = vviews(ls@);
    let prefix = chars_of("signal: ");
    let mut i: usize = 0;
    assert(all.skip(0) =~= all);
    while i < ls.len()
        invariant
            i <= ls.len(),
            all == vviews(ls@),
            prefix@ == "signal: "@,
            first_signal(all) == first_signal(all.skip(i as int)),
        decreases ls.len() - i,
    {
        assert(all.skip(i as int)[0] == ls@[i as int]@);
        if starts_with(ls[i].as_slice(), prefix.as_slice()) {
            let v = read_signal(ls[i].as_slice());
            if v.is_some() {
                return v;
            }
        }
        assert(all.skip(i as int).drop_first() =~= all.skip(i + 1));
        i += 1;
    }
    None
}

/// Whether one of `ws` is `w`.
fn has_word(ws: &Vec<Vec<char>>, w: &[char]) -> (r: bool)
    ensures
        r == vviews(ws@).contains(w@),
{
    let mut i: usize = 0;
    while i < ws.len()
        invariant
            i <= ws.len(),
            forall|j: int| 0 <= j < i ==> vviews(ws@)[j] != w@,
        decreases ws.len() - i,
    {
        if same_chars(ws[i].as_slice(), w) {
            assert(vviews(ws@)[i as int] == w@);
            return true;
        }
        i += 1;
    }
    false
}

/// Reads one block of `iw` output into a network.
pub fn parse_iw_chunk_into_network(chunk: &Vec<Vec<char>>) -> (r: Result<WirelessNetwork, IndividualParseError>)
    requires
        iw_chunk_fits(vviews(chunk@)),
    ensures
        match iw_chunk_network(vviews(chunk@)) {
            Ok(n) => r matches Ok(nw) && nw@ == n,
            Err(e) => r == Err::<WirelessNetwork, IndividualParseError>(e),
        },
{
    let ssid_prefix = chars_of("SSID: ");
    let ssid_at = match find_with_prefix(chunk, ssid_prefix.as_slice()) {
        Some(i) => i,
        None => {
            return Err(IndividualParseError::MissingIWSSIDField);
        },
    };
    let raw_ssid = string_of(strip_leading(chunk[ssid_at].as_slice(), ssid_prefix.as_slice()).as_slice());
    let essid = match unescape_text(raw_ssid.as_str()) {
        Some(e) => e,
        None => {
            return Err(IndividualParseError::FailedToUnescapeSSIDField);
        },
    };
    let cap_prefix = chars_of("capability:");
    let cap_at = match find_with_prefix(chunk, cap_prefix.as_slice()) {
        Some(i) => i,
        None => {
            return Err(IndividualParseError::MissingIWCapabilityField);
        },
    };
    let privacy = chars_of("Privacy");
    let is_encrypted = has_word(&words(chunk[cap_at].as_slice()), privacy.as_slice());
    if chunk.len() == 0 {
        return Err(IndividualParseError::ZeroLengthIWChunk);
    }
    let bss_prefix = chars_of("BSS ");
    let addr = strip_leading(chunk[0].as_slice(), bss_prefix.as_slice());
    let addr_parts = split(addr.as_slice(), Sep::Char('('));
    proof {
        crate::text::lemma_split_by_nonempty(addr@, Sep::Char('('));
    }
    assert(vviews(addr_parts@)[0] == addr_parts@[0]@);
    let bssid = string_of(addr_parts[0].as_slice());
    let signal_strength = match find_signal(chunk) {
        Some(level) => Some(level + 90),
        None => None,
    };
    assert(vviews(chunk@)[0] == chunk@[0]@);
    Ok(
        WirelessNetwork {
            essid,
            is_encrypted,
            bssid: Some(bssid),
            signal_strength,
            channel_utilisation: None,
        },
    )
}

/// Reads `iw` output.
pub fn parse_iw_scan(interface_name: &str, output: &String, scan_type: ScanType) -> (r: Result<
    ParseResult,
    RuwiError,
>)
    requires
        iw_output_fits(output@),
    ensures
        match iw_parse(scan_type, output@) {
            Ok(p) => r matches Ok(res) && res@ == p,
            Err(k) => r matches Err(e) && e.kind == k && e.desc@ == (if k
                == RuwiErrorKind::MalformedIWOutput {
                iw_malformed_desc(interface_name@)
            } else {
                iw_no_networks_desc(interface_name@)
            }),
        },
{
    let text = chars_of(output.as_str());
    let chunks = match break_iw_output_into_chunks_per_network(interface_name, text.as_slice()) {
        Ok(c) => c,
        Err(e) => {
            return Err(e);
        },
    };
    let ghost cs = blocks_view(chunks@);
    let ghost rs = cs.map_values(|c: Seq<Seq<char>>| iw_chunk_network(c));
    let ghost texts = cs.map_values(|c: Seq<Seq<char>>| iw_chunk_text(c));
    let mut seen_networks: Vec<WirelessNetwork> = Vec::new();
    let mut line_parse_errors: Vec<(String, IndividualParseError)> = Vec::new();
    let mut i: usize = 0;
    assert(iw_chunks(output@) matches Ok(c) && c == cs);
    assert(forall|j: int| 0 <= j < cs.len() ==> iw_chunk_fits(#[trigger] cs[j]));
    while i < chunks.len()
        invariant
            i <= chunks.len(),
            iw_chunks(output@) matches Ok(c2) && c2 == cs,
            cs == blocks_view(chunks@),
            forall|j: int| 0 <= j < cs.len() ==> iw_chunk_fits(#[trigger] cs[j]),
            rs == cs.map_values(|c: Seq<Seq<char>>| iw_chunk_network(c)),
            texts == cs.map_values(|c: Seq<Seq<char>>| iw_chunk_text(c)),
            networks_view(seen_networks@) == oks(rs.take(i as int)),
            errors_view(line_parse_errors@) == failures(texts.take(i as int), rs.take(i as int)),
        decreases chunks.len() - i,
    {
        assert(rs.take(i + 1).drop_last() =~= rs.take(i as int));
        assert(texts.take(i + 1).drop_last() =~= texts.take(i as int));
        assert(cs[i as int] == vviews(chunks@[i as int]@));
        assert(cs.len() == chunks.len());
        assert(iw_chunk_fits(cs[i as int]));
        match parse_iw_chunk_into_network(&chunks[i]) {
            Ok(nw) => {
                let ghost before = networks_view(seen_networks@);
                seen_networks.push(nw);
                assert(networks_view(seen_networks@) =~= before.push(nw@));
            },
            Err(err) => {
                let ghost before = errors_view(line_parse_errors@);
                let joined = join_from(&chunks[i], 0, '\n');
                assert(vviews(chunks@[i as int]@).skip(0) =~= cs[i as int]);
                let line = string_of(joined.as_slice());
                line_parse_errors.push((line, err));
                assert(errors_view(line_parse_errors@) =~= before.push((texts[i as int], err)));
            },
        }
        i += 1;
    }
    assert(rs.take(chunks.len() as int) =~= rs);
    assert(texts.take(chunks.len() as int) =~= texts);
    Ok(ParseResult { scan_type, seen_networks, line_parse_errors })
}

/// Whether every signal level of `iw` output, when it is read, leaves room for the +90 offset.
pub fn iw_output_readable(output: &[char]) -> (r: bool)
    ensures
        r == iw_output_fits(output@),
{
    let blocks = match break_iw_output_into_chunks_per_network("", output) {
        Ok(b) => b,
        Err(_) => {
            return true;
        },
    };
    let ghost cs = blocks_view(blocks@);
    let mut i: usize = 0;
    while i < blocks.len()
        invariant
            i <= blocks.len(),
            cs == blocks_view(blocks@),
            cs.len() == blocks.len(),
            iw_chunks(output@) matches Ok(c2) && c2 == cs,
            forall|j: int| 0 <= j < i ==> iw_chunk_fits(#[trigger] cs[j]),
        decreases blocks.len() - i,
    {
        assert(cs[i as int] == vviews(blocks@[i as int]@));
        match find_signal(&blocks[i]) {
            Some(level) => {
                if level > i32::MAX - 90 {
                    assert(!iw_chunk_fits(cs[i as int]));
                    assert(iw_chunks(output@) matches Ok(c2) && c2 == cs);
                    return false;
                }
            },
            None => {},
        }
        i += 1;
    }
    true
}

/// How many of `ls` open a network block.
pub open spec fn header_count(ls: Seq<Seq<char>>) -> nat
    decreases ls.len(),
{
    if ls.len() == 0 {
        0
    } else {
        header_count(ls.drop_last()) + if iw_bss_header_match(ls.last()) {
            1nat
        } else {
            0nat
        }
    }
}

/// Whether each block of `g` is non-empty, opens with a header line, and holds no other.
pub open spec fn blocks_well_formed(g: Seq<Seq<Seq<char>>>) -> bool {
    forall|i: int|
        0 <= i < g.len() ==> (#[trigger] g[i]).len() > 0 && iw_bss_header_match(g[i][0]) && forall|j: int|
            1 <= j < g[i].len() ==> !iw_bss_header_match(#[trigger] g[i][j])
}

proof fn lemma_group_lines(ls: Seq<Seq<char>>)
    requires
        ls.len() >= 1,
        iw_bss_header_match(ls[0]),
    ensures
        group_lines(ls).len() >= 1,
        group_lines(ls).flatten_alt() == ls,
        group_lines(ls).len() == header_count(ls),
        blocks_well_formed(group_lines(ls)),
    decreases ls.len(),
{
    let g = group_lines(ls);
    if ls.len() == 1 {
        assert(g == seq![ls]);
        assert(g.drop_last() =~= Seq::<Seq<Seq<char>>>::empty());
        assert(g.drop_last().flatten_alt() == Seq::<Seq<char>>::empty());
        assert(g.last() == ls);
        assert(g.flatten_alt() == g.drop_last().flatten_alt() + g.last());
        assert(g.flatten_alt() =~= ls);
        assert(ls.drop_last() =~= Seq::<Seq<char>>::empty());
        assert(header_count(ls.drop_last()) == 0);
        assert(ls.last() == ls[0]);
    } else {
        let p = ls.drop_last();
        assert(p[0] == ls[0]);
        lemma_group_lines(p);
        let gp = group_lines(p);
        let last = ls.last();
        assert(p.push(last) =~= ls);
        if iw_bss_header_match(last) {
            assert(g == gp.push(seq![last]));
            assert(g.drop_last() =~= gp);
            assert(g.flatten_alt() =~= gp.flatten_alt() + seq![last]);
            assert forall|i: int| 0 <= i < g.len() implies (#[trigger] g[i]).len() > 0
                && iw_bss_header_match(g[i][0]) && forall|j: int|
                1 <= j < g[i].len() ==> !iw_bss_header_match(#[trigger] g[i][j]) by {
                if i < gp.len() {
                    assert(g[i] == gp[i]);
                }
            }
        } else {
            let n = gp.len() - 1;
            assert(g == gp.update(n, gp.last().push(last)));
            assert(g.drop_last() =~= gp.drop_last());
            assert(gp.flatten_alt() == gp.drop_last().flatten_alt() + gp.last());
            assert(g.flatten_alt() == g.drop_last().flatten_alt() + g.last());
            assert(g.flatten_alt() =~= ls);
            assert forall|i: int| 0 <= i < g.len() implies (#[trigger] g[i]).len() > 0
                && iw_bss_header_match(g[i][0]) && forall|j: int|
                1 <= j < g[i].len() ==> !iw_bss_header_match(#[trigger] g[i][j]) by {
                if i < n {
                    assert(g[i] == gp[i]);
                } else {
                    assert(g[i] == gp[n].push(last));
                    assert(gp[n].len() > 0);
                    assert forall|j: int| 1 <= j < g[i].len() implies !iw_bss_header_match(
                        #[trigger] g[i][j],
                    ) by {
                        if j < gp[n].len() {
                            assert(g[i][j] == gp[n][j]);
                        }
                    }
                }
            }
        }
    }
}

/// The blocks of `iw` output, joined back together, are its trimmed lines; each
/// block is non-empty, opens with a `BSS` header line and holds no other header
/// line; and there are as many blocks as header lines.
pub proof fn lemma_iw_blocks(output: Seq<char>)
    ensures
        iw_chunks(output) matches Ok(cs) ==> {
            &&& cs.flatten() == iw_lines(output)
            &&& cs.len() == header_count(iw_lines(output))
            &&& blocks_well_formed(cs)
        },
{
    let ls = iw_lines(output);
    if iw_chunks(output) is Ok {
        lemma_group_lines(ls);
        group_lines(ls).lemma_flatten_and_flatten_alt_are_equivalent();
    }
}

} // verus!
