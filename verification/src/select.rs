//! Choosing a network: the list shown to the user, reading back the user's
//! choice, and the automatic choices.

use vstd::prelude::*;

use crate::display::display_text;
use crate::enums::{AutoMode, SelectionMethod};
use crate::errors::{concat, RuwiError, RuwiErrorKind};
use crate::interfaces::AutoSelect;
use crate::number::{
    decimal, is_digit, lemma_decimal_digits, lemma_parse_usize_decimal, parse_usize, parsed_usize,
    usize_text,
};
use crate::sort_networks::{
    first_of_each_name, holds_name, holds_network, lemma_sorted_filtered, rank, ranks, signal_rank,
    SortedFilteredNetworks,
};
use crate::structs::AnnotatedWirelessNetwork;
use crate::text::{
    before_pattern, chars_of, has_prefix, is_unicode_whitespace, prefix_before, push_str,
    same_chars, string_of, trim, trim_end_ws, trim_start_ws, trim_ws,
};

verus! {

/// A choice that the user can make besides a network.
#[derive(Debug, Clone, Copy, PartialEq, Eq, Structural)]
pub enum SelectionOption {
    /// Scan again.
    Refresh,
}

impl SelectionOption {
    /// The text by which the user makes this choice.
    pub fn as_static(&self) -> (r: &'static str)
        ensures
            r@ == "refresh"@,
    {
        "refresh"
    }

    /// The choice whose text is `s`, if any.
    pub fn from_name(s: &[char]) -> (r: Option<SelectionOption>)
        ensures
            r is Some <==> s@ == "refresh"@,
            r matches Some(o) ==> o == SelectionOption::Refresh,
    {
        let name = chars_of("refresh");
        if same_chars(s, name.as_slice()) {
            Some(SelectionOption::Refresh)
        } else {
            None
        }
    }
}

/// The texts of the choices besides networks.
pub fn get_possible_selection_options_as_strings() -> (r: Vec<String>)
    ensures
        r@.len() == 1,
        r@[0]@ == "refresh"@,
{
    let mut r = Vec::new();
    r.push(SelectionOption::Refresh.as_static().to_owned());
    r
}

/// How the network at `index` is listed: `index) ` and how it is shown.
pub open spec fn token_text(index: nat, n: AnnotatedWirelessNetwork) -> Seq<char> {
    decimal(index) + ") "@ + display_text(n)
}

/// The first known network of `s`.
pub open spec fn first_known(s: Seq<AnnotatedWirelessNetwork>) -> Option<AnnotatedWirelessNetwork>
    decreases s.len(),
{
    if s.len() == 0 {
        None
    } else if s[0].service_identifier is Some {
        Some(s[0])
    } else {
        first_known(s.drop_first())
    }
}

/// The index that a line read back from the selection program names.
pub open spec fn selected_index(line: Seq<char>) -> Result<usize, RuwiErrorKind> {
    let l = trim_ws(line);
    if l == "."@ || l == "refresh"@ {
        Err(RuwiErrorKind::RefreshRequested)
    } else if l.len() == 0 {
        Ok(0)
    } else {
        match parsed_usize(before_pattern(l, ") "@)) {
            Some(i) => Ok(i),
            None => Err(RuwiErrorKind::FailedToParseSelectedLine),
        }
    }
}

/// The error for a line that names no index.
pub fn get_line_parse_err(line: &str) -> (r: RuwiError)
    ensures
        r.kind == RuwiErrorKind::FailedToParseSelectedLine,
        r.desc@ == "Failed to parse line "@ + line@,
{
    RuwiError::with_desc(RuwiErrorKind::FailedToParseSelectedLine, concat("Failed to parse line ", line))
}

/// The error that asks for a new scan.
pub fn get_refresh_requested_err() -> (r: RuwiError)
    ensures
        r.kind == RuwiErrorKind::RefreshRequested,
        r.desc@ == "Refresh requested."@,
{
    RuwiError::new(RuwiErrorKind::RefreshRequested, "Refresh requested.")
}

/// The index that a line read back from the selection program names: an empty line
/// names the first entry, `refresh` or `.` asks for a new scan, and otherwise the
/// number before `) ` is read.
pub fn get_index_of_selected_item(line: &str) -> (r: Result<usize, RuwiError>)
    ensures
        match selected_index(line@) {
            Ok(i) => r == Ok::<usize, RuwiError>(i),
            Err(k) => r matches Err(e) && e.kind == k && e.desc@ == (if k
                == RuwiErrorKind::RefreshRequested {
                "Refresh requested."@
            } else {
                "Failed to parse line "@ + trim_ws(line@)
            }),
        },
{
    let text = chars_of(line);
    let l = trim(text.as_slice());
    let dot = chars_of(".");
    if same_chars(l.as_slice(), dot.as_slice()) {
        return Err(get_refresh_requested_err());
    }
    if SelectionOption::from_name(l.as_slice()).is_some() {
        return Err(get_refresh_requested_err());
    }
    if l.len() == 0 {
        return Ok(0);
    }
    let sep = chars_of(") ");
    let head = prefix_before(l.as_slice(), sep.as_slice());
    match parse_usize(head.as_slice()) {
        Some(i) => Ok(i),
        None => {
            let trimmed = string_of(l.as_slice());
            Err(get_line_parse_err(trimmed.as_str()))
        },
    }
}

impl SortedFilteredNetworks {
    /// How each network is listed, in order.
    pub fn get_network_tokens(&self) -> (r: Vec<String>)
        ensures
            r@.len() == self@.len(),
            forall|i: int| 0 <= i < r@.len() ==> #[trigger] r@[i]@ == token_text(i as nat, self@[i]),
    {
        let networks = self.get_networks();
        let mut r: Vec<String> = Vec::new();
        let mut i: usize = 0;
        while i < networks.len()
            invariant
                i <= networks.len(),
                networks@ == self@,
                r@.len() == i,
                forall|j: int| 0 <= j < i ==> #[trigger] r@[j]@ == token_text(j as nat, self@[j]),
            decreases networks.len() - i,
        {
            let mut v = usize_text(i);
            push_str(&mut v, ") ");
            let shown = networks[i].get_display_string();
            push_str(&mut v, shown.as_str());
            r.push(string_of(v.as_slice()));
            i += 1;
        }
        r
    }

    /// What the user chooses among: each network, then the other choices.
    pub fn get_tokens_for_selection(&self) -> (r: Vec<String>)
        ensures
            r@.len() == self@.len() + 1,
            forall|i: int| 0 <= i < self@.len() ==> #[trigger] r@[i]@ == token_text(i as nat, self@[i]),
            r@[self@.len() as int]@ == "refresh"@,
    {
        let mut r = self.get_network_tokens();
        let mut options = get_possible_selection_options_as_strings();
        let refresh = options.pop().unwrap();
        r.push(refresh);
        r
    }

    /// The first known network.
    pub fn select_first_known(&self) -> (r: Result<AnnotatedWirelessNetwork, RuwiError>)
        ensures
            match first_known(self@) {
                Some(n) => r == Ok::<AnnotatedWirelessNetwork, RuwiError>(n),
                None => r matches Err(e) && e.kind == RuwiErrorKind::NoKnownNetworksFound
                    && e.desc@ == "No known networks found!"@,
            },
    {
        let networks = self.get_networks();
        let mut i: usize = 0;
        assert(networks@.skip(0) =~= networks@);
        while i < networks.len()
            invariant
                i <= networks.len(),
                networks@ == self@,
                first_known(self@) == first_known(networks@.skip(i as int)),
            decreases networks.len() - i,
        {
            if networks[i].is_known() {
                return Ok(networks[i].duplicate());
            }
            assert(networks@.skip(i as int).drop_first() =~= networks@.skip(i + 1));
            i += 1;
        }
        Err(RuwiError::new(RuwiErrorKind::NoKnownNetworksFound, "No known networks found!"))
    }

    /// The first network.
    pub fn select_first(&self) -> (r: Result<AnnotatedWirelessNetwork, RuwiError>)
        ensures
            self@.len() > 0 ==> r == Ok::<AnnotatedWirelessNetwork, RuwiError>(self@[0]),
            self@.len() == 0 ==> (r matches Err(e) && e.kind
                == RuwiErrorKind::NoNetworksFoundWhenLookingForFirst && e.desc@
                == "No networks found!"@),
    {
        let networks = self.get_networks();
        if networks.len() > 0 {
            Ok(networks[0].duplicate())
        } else {
            Err(RuwiError::new(RuwiErrorKind::NoNetworksFoundWhenLookingForFirst, "No networks found!"))
        }
    }

    /// The last network.
    pub fn select_last(&self) -> (r: Result<AnnotatedWirelessNetwork, RuwiError>)
        ensures
            self@.len() > 0 ==> r == Ok::<AnnotatedWirelessNetwork, RuwiError>(self@.last()),
            self@.len() == 0 ==> (r matches Err(e) && e.kind
                == RuwiErrorKind::TestNoNetworksFoundWhenLookingForLast && e.desc@
                == "No networks found!"@),
    {
        let networks = self.get_networks();
        if networks.len() > 0 {
            Ok(networks[networks.len() - 1].duplicate())
        } else {
            Err(
                RuwiError::new(
                    RuwiErrorKind::TestNoNetworksFoundWhenLookingForLast,
                    "No networks found!",
                ),
            )
        }
    }

    /// The network that the line read back from the selection program names.
    pub fn network_for_selection(&self, selector_output: &str) -> (r: Result<
        AnnotatedWirelessNetwork,
        RuwiError,
    >)
        ensures
            match selected_index(selector_output@) {
                Ok(i) => if i < self@.len() {
                    r == Ok::<AnnotatedWirelessNetwork, RuwiError>(self@[i as int])
                } else {
                    r matches Err(e) && e.kind == RuwiErrorKind::NoNetworksFoundMatchingSelectionResult
                        && e.desc@ == "No network matching "@ + selector_output@ + " found."@
                },
                Err(k) => r matches Err(e) && e.kind == k,
            },
    {
        let index = match get_index_of_selected_item(selector_output) {
            Ok(i) => i,
            Err(e) => {
                return Err(e);
            },
        };
        let networks = self.get_networks();
        if index < networks.len() {
            Ok(networks[index].duplicate())
        } else {
            let mut desc = concat("No network matching ", selector_output);
            desc.append(" found.");
            Err(RuwiError::with_desc(RuwiErrorKind::NoNetworksFoundMatchingSelectionResult, desc))
        }
    }

    /// Chooses a network as `options` say: by asking (`manual_selector`), the first
    /// known one (asking when there is none, or failing), or the first one.
    pub fn select_network_impl<O, F>(&self, options: &O, manual_selector: F) -> (r: Result<
        AnnotatedWirelessNetwork,
        RuwiError,
    >) where O: AutoSelect, F: FnOnce(&SortedFilteredNetworks, &O) -> Result<AnnotatedWirelessNetwork, RuwiError>
        requires
            call_requires(manual_selector, (self, options)),
        ensures
            match options.auto_mode_of() {
                AutoMode::Ask => call_ensures(manual_selector, (self, options), r),
                AutoMode::KnownOrAsk => match first_known(self@) {
                    Some(n) => r == Ok::<AnnotatedWirelessNetwork, RuwiError>(n),
                    None => call_ensures(manual_selector, (self, options), r),
                },
                AutoMode::KnownOrFail => match first_known(self@) {
                    Some(n) => r == Ok::<AnnotatedWirelessNetwork, RuwiError>(n),
                    None => r matches Err(e) && e.kind == RuwiErrorKind::NoKnownNetworksFound,
                },
                AutoMode::First => if self@.len() > 0 {
                    r == Ok::<AnnotatedWirelessNetwork, RuwiError>(self@[0])
                } else {
                    r matches Err(e) && e.kind == RuwiErrorKind::NoNetworksFoundWhenLookingForFirst
                },
            },
    {
        match options.get_auto_mode() {
            AutoMode::Ask => manual_selector(self, options),
            AutoMode::KnownOrAsk => match self.select_first_known() {
                Ok(nw) => Ok(nw),
                Err(_) => manual_selector(self, options),
            },
            AutoMode::KnownOrFail => self.select_first_known(),
            AutoMode::First => self.select_first(),
        }
    }

    /// Shows the choices with `selector` and gives back what it read, without
    /// surrounding white space.
    pub fn run_manual_selector_impl<O, F>(&self, options: &O, selector: F) -> (r: Result<
        String,
        RuwiError,
    >) where F: FnOnce(&O, &Vec<String>) -> Result<String, RuwiError>
        requires
            forall|tokens: &Vec<String>| call_requires(selector, (options, tokens)),
        ensures
            exists|tokens: &Vec<String>, out: Result<String, RuwiError>|
                {
                    &&& tokens@.len() == self@.len() + 1
                    &&& forall|i: int|
                        0 <= i < self@.len() ==> #[trigger] tokens@[i]@ == token_text(
                            i as nat,
                            self@[i],
                        )
                    &&& tokens@[self@.len() as int]@ == "refresh"@
                    &&& call_ensures(selector, (options, tokens), out)
                    &&& match out {
                        Ok(s) => r matches Ok(t) && t@ == trim_ws(s@),
                        Err(e) => r == Err::<String, RuwiError>(e),
                    }
                },
    {
        let selection_tokens = self.get_tokens_for_selection();
        let out = selector(options, &selection_tokens);
        match out {
            Ok(s) => {
                let c = chars_of(s.as_str());
                let t = trim(c.as_slice());
                Ok(string_of(t.as_slice()))
            },
            Err(e) => Err(e),
        }
    }
}

/// What the selection program shows as its prompt.
pub fn selection_prompt(method: SelectionMethod) -> (r: &'static str)
    ensures
        r@ == match method {
            SelectionMethod::NoCurses => "Select a network (\"refresh\" or \".\" to rescan, Enter to select the top option): "@,
            SelectionMethod::Dmenu => "Select a network: "@,
            SelectionMethod::Fzf => "Select a network (ctrl-r or \"refresh\" to refresh results): "@,
        },
{
    match method {
        SelectionMethod::NoCurses => "Select a network (\"refresh\" or \".\" to rescan, Enter to select the top option): ",
        SelectionMethod::Dmenu => "Select a network: ",
        SelectionMethod::Fzf => "Select a network (ctrl-r or \"refresh\" to refresh results): ",
    }
}

/// The prompt that asks for the key of the network `network_name`.
pub fn password_prompt(network_name: &str) -> (r: String)
    ensures
        r@ == "Password for "@ + network_name@ + ": "@,
{
    let mut r = concat("Password for ", network_name);
    r.append(": ");
    r
}

/// The arguments for `dmenu` with the prompt `prompt`.
pub fn dmenu_args(prompt: &str) -> (r: Vec<String>)
    ensures
        r@.len() == 3,
        r@[0]@ == "-i"@,
        r@[1]@ == "-p"@,
        r@[2]@ == prompt@,
{
    let mut r = Vec::new();
    r.push("-i".to_owned());
    r.push("-p".to_owned());
    r.push(prompt.to_owned());
    r
}

/// The arguments for `fzf` with the prompt `prompt`, and a search to run at once, if any.
pub fn fzf_args(prompt: &str, search: Option<&str>) -> (r: Vec<String>)
    ensures
        r@.len() == (if search is Some {
            6int
        } else {
            5int
        }),
        r@[0]@ == "--layout"@,
        r@[1]@ == "reverse"@,
        r@[2]@ == "--prompt="@ + prompt@,
        r@[3]@ == "--bind"@,
        r@[4]@ == "ctrl-r:execute(echo refresh)+end-of-line+unix-line-discard+print-query"@,
        search matches Some(s) ==> r@[5]@ == "--filter="@ + s@,
{
    let mut r = Vec::new();
    r.push("--layout".to_owned());
    r.push("reverse".to_owned());
    r.push(concat("--prompt=", prompt));
    r.push("--bind".to_owned());
    r.push("ctrl-r:execute(echo refresh)+end-of-line+unix-line-discard+print-query".to_owned());
    match search {
        Some(s) => r.push(concat("--filter=", s)),
        None => {},
    }
    r
}

/// Trailing white space is trimmed within the last part only, when that part
/// holds something else.
proof fn lemma_trim_end_within(a: Seq<char>, b: Seq<char>)
    requires
        exists|k: int| 0 <= k < b.len() && !is_unicode_whitespace(#[trigger] b[k]),
    ensures
        trim_end_ws(a + b) == a + trim_end_ws(b),
    decreases b.len(),
{
    let k = choose|k: int| 0 <= k < b.len() && !is_unicode_whitespace(#[trigger] b[k]);
    if is_unicode_whitespace(b.last()) {
        assert(k < b.len() - 1);
        assert(b.drop_last()[k] == b[k]);
        assert((a + b).drop_last() =~= a + b.drop_last());
        lemma_trim_end_within(a, b.drop_last());
    }
}

/// The part before `) ` of digits followed by `) ` is the digits.
proof fn lemma_before_separator(d: Seq<char>, rest: Seq<char>)
    requires
        forall|k: int| 0 <= k < d.len() ==> is_digit(#[trigger] d[k]),
    ensures
        before_pattern(d + ") "@ + rest, ") "@) == d,
    decreases d.len(),
{
    reveal_strlit(") ");
    let s = d + ") "@ + rest;
    if d.len() == 0 {
        assert(s.take(2) =~= ") "@);
    } else {
        assert(s[0] == d[0]);
        assert(s.take(2)[0] == s[0]);
        assert(!has_prefix(s, ") "@));
        assert(s.drop_first() =~= d.drop_first() + ") "@ + rest);
        lemma_before_separator(d.drop_first(), rest);
        assert(d =~= seq![d[0]] + d.drop_first());
    }
}

/// Choosing the line by which the network at `index` is listed selects that
/// index again, whenever the network's shown text is not all white space.
pub proof fn lemma_token_selects_its_index(index: usize, n: AnnotatedWirelessNetwork)
    requires
        exists|k: int| 0 <= k < display_text(n).len() && !is_unicode_whitespace(#[trigger] display_text(n)[k]),
    ensures
        selected_index(token_text(index as nat, n)) == Ok::<usize, RuwiErrorKind>(index),
{
    reveal_strlit(") ");
    reveal_strlit(".");
    reveal_strlit("refresh");
    let d = decimal(index as nat);
    lemma_decimal_digits(index as nat);
    lemma_parse_usize_decimal(index);
    let t = token_text(index as nat, n);
    assert(t[0] == d[0]);
    assert(is_digit(d[0]));
    assert(trim_start_ws(t) == t);
    lemma_trim_end_within(d + ") "@, display_text(n));
    let l = trim_ws(t);
    assert(l == d + ") "@ + trim_end_ws(display_text(n)));
    assert(l[0] == d[0]);
    assert(l != "."@);
    assert(l != "refresh"@);
    assert forall|k: int| 0 <= k < d.len() implies is_digit(#[trigger] d[k]) by {
        assert(crate::number::all_digits(d));
    }
    lemma_before_separator(d, trim_end_ws(display_text(n)));
}

/// The first known network of `s` is the one at the first known position.
proof fn lemma_first_known_position(s: Seq<AnnotatedWirelessNetwork>)
    ensures
        first_known(s) is Some <==> exists|i: int|
            0 <= i < s.len() && (#[trigger] s[i]).service_identifier is Some,
        first_known(s) matches Some(n) ==> exists|j: int|
            0 <= j < s.len() && s[j] == n && n.service_identifier is Some && forall|i: int|
                0 <= i < j ==> (#[trigger] s[i]).service_identifier is None,
    decreases s.len(),
{
    if s.len() > 0 && s[0].service_identifier is None {
        let t = s.drop_first();
        lemma_first_known_position(t);
        if exists|i: int| 0 <= i < s.len() && (#[trigger] s[i]).service_identifier is Some {
            let i = choose|i: int| 0 <= i < s.len() && (#[trigger] s[i]).service_identifier is Some;
            assert(t[i - 1] == s[i]);
        }
        if first_known(t) is Some {
            let j = choose|j: int|
                0 <= j < t.len() && t[j] == first_known(t)->0 && first_known(t)->0.service_identifier
                    is Some && forall|i: int| 0 <= i < j ==> (#[trigger] t[i]).service_identifier is None;
            assert(s[j + 1] == t[j]);
            assert forall|i: int| 0 <= i < j + 1 implies (#[trigger] s[i]).service_identifier is None by {
                if i > 0 {
                    assert(s[i] == t[i - 1]);
                }
            }
        }
    }
}

/// In the modes that look for a known network, the network chosen without
/// asking is the strongest known network seen: when a known network was seen,
/// it is known, it is one of the networks seen, and no known network seen has a
/// stronger signal; when none was seen, no network is chosen without asking.
pub proof fn lemma_auto_choice_is_strongest_known(
    input: Seq<AnnotatedWirelessNetwork>,
    sorted: Seq<AnnotatedWirelessNetwork>,
)
    requires
        ranks(input, sorted),
    ensures
        (exists|k: int| 0 <= k < input.len() && (#[trigger] input[k]).service_identifier is Some) ==> (
        first_known(first_of_each_name(sorted)) matches Some(n) && n.service_identifier is Some
            && holds_network(input, n) && forall|k: int|
            0 <= k < input.len() && (#[trigger] input[k]).service_identifier is Some ==> signal_rank(
                input[k].signal_strength,
            ) <= signal_rank(n.signal_strength)),
        !(exists|k: int| 0 <= k < input.len() && (#[trigger] input[k]).service_identifier is Some)
            ==> first_known(first_of_each_name(sorted)) is None,
{
    lemma_sorted_filtered(input, sorted);
    let out = first_of_each_name(sorted);
    lemma_first_known_position(out);
    if exists|k: int| 0 <= k < input.len() && (#[trigger] input[k]).service_identifier is Some {
        let k0 = choose|k: int| 0 <= k < input.len() && (#[trigger] input[k]).service_identifier is Some;
        assert(holds_name(out, input[k0].essid@));
        let j0 = choose|j: int| 0 <= j < out.len() && out[j].essid@ == input[k0].essid@;
        assert(rank(input[k0]) <= rank(out[j0]));
        assert(out[j0].service_identifier is Some);
        let n = first_known(out)->0;
        let j = choose|j: int|
            0 <= j < out.len() && out[j] == n && n.service_identifier is Some && forall|i: int|
                0 <= i < j ==> (#[trigger] out[i]).service_identifier is None;
        assert(holds_network(input, out[j]));
        assert forall|k: int|
            0 <= k < input.len() && (#[trigger] input[k]).service_identifier is Some implies signal_rank(
            input[k].signal_strength,
        ) <= signal_rank(n.signal_strength) by {
            assert(holds_name(out, input[k].essid@));
            let jk = choose|jk: int| 0 <= jk < out.len() && out[jk].essid@ == input[k].essid@;
            assert(rank(input[k]) <= rank(out[jk]));
            assert(out[jk].service_identifier is Some);
            assert(j <= jk);
            if j < jk {
                assert(rank(out[j]) >= rank(out[jk]));
            }
        }
    } else {
        assert forall|i: int| 0 <= i < out.len() implies (#[trigger] out[i]).service_identifier is None by {
            assert(holds_network(input, out[i]));
            let k = choose|k: int| 0 <= k < input.len() && input[k] == out[i];
        }
    }
}

} // verus!
