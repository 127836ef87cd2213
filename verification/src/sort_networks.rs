//! Ranking the networks seen: known networks first, then by signal strength,
//! each name listed once.

use vstd::prelude::*;

use crate::structs::AnnotatedWirelessNetwork;

verus! {

/// The place of a signal strength in the ranking: unknown strength ranks lowest.
pub open spec fn signal_rank(s: Option<i32>) -> int {
    match s {
        Some(v) => v as int,
        None => i32::MIN as int - 1,
    }
}

/// The place of a network in the ranking: a known network above every unknown one,
/// then by signal strength.
pub open spec fn rank(n: AnnotatedWirelessNetwork) -> int {
    (if n.service_identifier is Some {
        0x2_0000_0000int
    } else {
        0int
    }) + signal_rank(n.signal_strength)
}

/// How two networks compare in the ranking.
#[derive(Debug, Clone, Copy, PartialEq, Eq, Structural)]
pub enum RankOrder {
    Less,
    Equal,
    Greater,
}

impl AnnotatedWirelessNetwork {
    /// How this network compares with `other` in the ranking.
    pub fn rank_order(&self, other: &AnnotatedWirelessNetwork) -> (r: RankOrder)
        ensures
            r == RankOrder::Less <==> rank(*self) < rank(*other),
            r == RankOrder::Equal <==> rank(*self) == rank(*other),
            r == RankOrder::Greater <==> rank(*self) > rank(*other),
    {
        let a = self.is_known();
        let b = other.is_known();
        if a && !b {
            return RankOrder::Greater;
        }
        if !a && b {
            return RankOrder::Less;
        }
        match (self.signal_strength, other.signal_strength) {
            (None, None) => RankOrder::Equal,
            (None, Some(_)) => RankOrder::Less,
            (Some(_), None) => RankOrder::Greater,
            (Some(x), Some(y)) => if x < y {
                RankOrder::Less
            } else if x == y {
                RankOrder::Equal
            } else {
                RankOrder::Greater
            },
        }
    }
}

/// Whether `input[i]` goes before `input[j]`: it ranks higher, or ranks the same
/// and came later (the order that a stable ascending sort, reversed, gives).
pub open spec fn ranked_before(input: Seq<AnnotatedWirelessNetwork>, i: int, j: int) -> bool {
    rank(input[i]) > rank(input[j]) || (rank(input[i]) == rank(input[j]) && i > j)
}

/// `out` is `input` put in ranked order, where `out[k]` is `input[perm[k]]`.
pub open spec fn is_ranking(
    input: Seq<AnnotatedWirelessNetwork>,
    out: Seq<AnnotatedWirelessNetwork>,
    perm: Seq<int>,
) -> bool {
    &&& perm.len() == input.len()
    &&& out.len() == input.len()
    &&& forall|k: int| 0 <= k < perm.len() ==> 0 <= #[trigger] perm[k] < input.len()
    &&& forall|k: int| 0 <= k < perm.len() ==> #[trigger] out[k] == input[perm[k]]
    &&& forall|k1: int, k2: int|
        0 <= k1 < k2 < perm.len() ==> ranked_before(input, #[trigger] perm[k1], #[trigger] perm[k2])
}

/// `out` is `input` put in ranked order.
pub open spec fn ranks(input: Seq<AnnotatedWirelessNetwork>, out: Seq<AnnotatedWirelessNetwork>) -> bool {
    exists|perm: Seq<int>| is_ranking(input, out, perm)
}

/// Whether the name of `s[i]` occurs before position `i`.
pub open spec fn name_seen_before(s: Seq<AnnotatedWirelessNetwork>, i: int) -> bool {
    exists|j: int| 0 <= j < i && #[trigger] s[j].essid@ == s[i].essid@
}

/// `s` with only the first network of each name kept.
pub open spec fn first_of_each_name(s: Seq<AnnotatedWirelessNetwork>) -> Seq<AnnotatedWirelessNetwork>
    decreases s.len(),
{
    if s.len() == 0 {
        s
    } else {
        let r = first_of_each_name(s.drop_last());
        if name_seen_before(s, s.len() - 1) {
            r
        } else {
            r.push(s.last())
        }
    }
}

proof fn lemma_insert_ranked(
    input: Seq<AnnotatedWirelessNetwork>,
    out: Seq<AnnotatedWirelessNetwork>,
    perm: Seq<int>,
    i: int,
    pos: int,
)
    requires
        0 <= i < input.len(),
        perm.len() == i,
        out.len() == i,
        0 <= pos <= i,
        forall|k: int| 0 <= k < perm.len() ==> 0 <= #[trigger] perm[k] < i,
        forall|k: int| 0 <= k < perm.len() ==> #[trigger] out[k] == input[perm[k]],
        forall|k1: int, k2: int|
            0 <= k1 < k2 < perm.len() ==> ranked_before(input, #[trigger] perm[k1], #[trigger] perm[k2]),
        forall|k: int| 0 <= k < pos ==> rank(#[trigger] out[k]) > rank(input[i]),
        pos < i ==> rank(out[pos]) <= rank(input[i]),
    ensures
        ({
            let p2 = perm.insert(pos, i);
            let o2 = out.insert(pos, input[i]);
            &&& p2.len() == i + 1
            &&& o2.len() == i + 1
            &&& forall|k: int| 0 <= k < p2.len() ==> 0 <= #[trigger] p2[k] < i + 1
            &&& forall|k: int| 0 <= k < p2.len() ==> #[trigger] o2[k] == input[p2[k]]
            &&& forall|k1: int, k2: int|
                0 <= k1 < k2 < p2.len() ==> ranked_before(input, #[trigger] p2[k1], #[trigger] p2[k2])
        }),
{
    let p2 = perm.insert(pos, i);
    let o2 = out.insert(pos, input[i]);
    assert forall|k: int| 0 <= k < p2.len() implies 0 <= #[trigger] p2[k] < i + 1 by {
        if k < pos {
            assert(p2[k] == perm[k]);
        } else if k > pos {
            assert(p2[k] == perm[k - 1]);
        }
    }
    assert forall|k: int| 0 <= k < p2.len() implies #[trigger] o2[k] == input[p2[k]] by {
        if k < pos {
            assert(p2[k] == perm[k]);
        } else if k > pos {
            assert(p2[k] == perm[k - 1]);
        }
    }
    assert forall|k1: int, k2: int| 0 <= k1 < k2 < p2.len() implies ranked_before(
        input,
        #[trigger] p2[k1],
        #[trigger] p2[k2],
    ) by {
        if k2 < pos {
            assert(p2[k1] == perm[k1] && p2[k2] == perm[k2]);
        } else if k2 == pos {
            assert(p2[k1] == perm[k1]);
            assert(rank(out[k1]) > rank(input[i]));
        } else if k1 < pos {
            assert(p2[k1] == perm[k1] && p2[k2] == perm[k2 - 1]);
            assert(ranked_before(input, perm[k1], perm[k2 - 1]));
        } else if k1 == pos {
            assert(p2[k2] == perm[k2 - 1]);
            if k2 - 1 > pos {
                assert(ranked_before(input, perm[pos], perm[k2 - 1]));
            }
            assert(rank(out[k2 - 1]) <= rank(out[pos]));
            assert(rank(input[perm[k2 - 1]]) <= rank(input[i]));
        } else {
            assert(p2[k1] == perm[k1 - 1] && p2[k2] == perm[k2 - 1]);
            assert(ranked_before(input, perm[k1 - 1], perm[k2 - 1]));
        }
    }
}

/// `networks` in ranked order: best first, later ones first among equals.
pub fn put_best_networks_first(networks: &Vec<AnnotatedWirelessNetwork>) -> (r: Vec<
    AnnotatedWirelessNetwork,
>)
    ensures
        ranks(networks@, r@),
{
    let ghost input = networks@;
    let mut out: Vec<AnnotatedWirelessNetwork> = Vec::new();
    let ghost mut perm: Seq<int> = Seq::empty();
    let mut i: usize = 0;
    while i < networks.len()
        invariant
            i <= networks.len(),
            input == networks@,
            perm.len() == i,
            out@.len() == i,
            forall|k: int| 0 <= k < perm.len() ==> 0 <= #[trigger] perm[k] < i,
            forall|k: int| 0 <= k < perm.len() ==> #[trigger] out@[k] == input[perm[k]],
            forall|k1: int, k2: int|
                0 <= k1 < k2 < perm.len() ==> ranked_before(input, #[trigger] perm[k1], #[trigger] perm[k2]),
        decreases networks.len() - i,
    {
        let x = networks[i].duplicate();
        let mut pos: usize = 0;
        while pos < out.len() && out[pos].rank_order(&x) == RankOrder::Greater
            invariant
                pos <= out@.len(),
                x == input[i as int],
                forall|k: int| 0 <= k < pos ==> rank(#[trigger] out@[k]) > rank(input[i as int]),
            decreases out@.len() - pos,
        {
            pos += 1;
        }
        proof {
            lemma_insert_ranked(input, out@, perm, i as int, pos as int);
            perm = perm.insert(pos as int, i as int);
        }
        out.insert(pos, x);
        i += 1;
    }
    assert(is_ranking(input, out@, perm));
    out
}

/// `networks` with only the first network of each name kept.
pub fn dedup_networks(networks: &Vec<AnnotatedWirelessNetwork>) -> (r: Vec<AnnotatedWirelessNetwork>)
    ensures
        r@ == first_of_each_name(networks@),
{
    let ghost s = networks@;
    let mut unique_networks: Vec<AnnotatedWirelessNetwork> = Vec::new();
    let mut i: usize = 0;
    while i < networks.len()
        invariant
            i <= networks.len(),
            s == networks@,
            unique_networks@ == first_of_each_name(s.take(i as int)),
        decreases networks.len() - i,
    {
        let mut seen = false;
        let mut j: usize = 0;
        while j < i
            invariant
                j <= i < networks.len(),
                s == networks@,
                seen <==> exists|k: int| 0 <= k < j && #[trigger] s[k].essid@ == s[i as int].essid@,
            decreases i - j,
        {
            if networks[j].essid == networks[i].essid {
                seen = true;
            }
            j += 1;
        }
        let ghost t = s.take(i + 1);
        assert(t.drop_last() =~= s.take(i as int));
        assert(t.last() == s[i as int]);
        assert(name_seen_before(t, i as int) == seen) by {
            if seen {
                let k = choose|k: int| 0 <= k < i && #[trigger] s[k].essid@ == s[i as int].essid@;
                assert(t[k] == s[k]);
            }
            if name_seen_before(t, i as int) {
                let k = choose|k: int| 0 <= k < i && #[trigger] t[k].essid@ == t[i as int].essid@;
                assert(t[k] == s[k]);
            }
        }
        if !seen {
            unique_networks.push(networks[i].duplicate());
        }
        i += 1;
    }
    assert(s.take(networks.len() as int) =~= s);
    unique_networks
}

/// The networks seen, best first, each name once.
#[derive(Debug, PartialEq, Eq)]
pub struct SortedFilteredNetworks {
    networks: Vec<AnnotatedWirelessNetwork>,
}

/// The same type, under the name that the selection code gives it.
pub type SortedUniqueNetworks = SortedFilteredNetworks;

impl View for SortedFilteredNetworks {
    type V = Seq<AnnotatedWirelessNetwork>;

    closed spec fn view(&self) -> Seq<AnnotatedWirelessNetwork> {
        self.networks@
    }
}

impl SortedFilteredNetworks {
    /// The networks, ranked, with each name kept once: the best-ranked network of that name.
    pub fn new(networks: Vec<AnnotatedWirelessNetwork>) -> (r: SortedFilteredNetworks)
        ensures
            exists|sorted: Seq<AnnotatedWirelessNetwork>|
                ranks(networks@, sorted) && r@ == first_of_each_name(sorted),
            names_unique(r@),
            rank_descending(r@),
            forall|j: int| 0 <= j < r@.len() ==> holds_network(networks@, #[trigger] r@[j]),
            forall|k: int| 0 <= k < networks@.len() ==> holds_name(r@, (#[trigger] networks@[k]).essid@),
            forall|j: int, k: int|
                0 <= j < r@.len() && 0 <= k < networks@.len() && (#[trigger] networks@[k]).essid@ == (
                #[trigger] r@[j]).essid@ ==> rank(networks@[k]) <= rank(r@[j]),
    {
        let sorted = put_best_networks_first(&networks);
        proof {
            lemma_sorted_filtered(networks@, sorted@);
        }
        let unique = dedup_networks(&sorted);
        SortedFilteredNetworks { networks: unique }
    }

    /// The networks, in order.
    pub fn get_networks(&self) -> (r: &[AnnotatedWirelessNetwork])
        ensures
            r@ == self@,
    {
        self.networks.as_slice()
    }

    /// The networks, in order, for changing them in place.
    pub fn get_networks_mut(&mut self) -> (r: &mut Vec<AnnotatedWirelessNetwork>)
        ensures
            r@ == old(self)@,
            final(self)@ == final(r)@,
    {
        &mut self.networks
    }
}

/// No network of `s` ranks above one before it.
pub open spec fn rank_descending(s: Seq<AnnotatedWirelessNetwork>) -> bool {
    forall|i: int, j: int| 0 <= i < j < s.len() ==> rank(#[trigger] s[i]) >= rank(#[trigger] s[j])
}

/// No two networks of `s` share a name.
pub open spec fn names_unique(s: Seq<AnnotatedWirelessNetwork>) -> bool {
    forall|i: int, j: int| 0 <= i < j < s.len() ==> (#[trigger] s[i]).essid@ != (#[trigger] s[j]).essid@
}

/// Whether `x` is one of `s`.
pub open spec fn holds_network(s: Seq<AnnotatedWirelessNetwork>, x: AnnotatedWirelessNetwork) -> bool {
    exists|k: int| 0 <= k < s.len() && s[k] == x
}

/// Whether a network of `s` is named `name`.
pub open spec fn holds_name(s: Seq<AnnotatedWirelessNetwork>, name: Seq<char>) -> bool {
    exists|k: int| 0 <= k < s.len() && s[k].essid@ == name
}

/// A ranking of `input` holds every network of `input`, and only those, and descends.
proof fn lemma_ranking_contents(input: Seq<AnnotatedWirelessNetwork>, out: Seq<AnnotatedWirelessNetwork>)
    requires
        ranks(input, out),
    ensures
        out.len() == input.len(),
        rank_descending(out),
        forall|j: int| 0 <= j < out.len() ==> holds_network(input, #[trigger] out[j]),
        forall|k: int| 0 <= k < input.len() ==> holds_network(out, #[trigger] input[k]),
{
    let perm = choose|perm: Seq<int>| is_ranking(input, out, perm);
    assert forall|i: int, j: int| 0 <= i < j < out.len() implies rank(#[trigger] out[i]) >= rank(
        #[trigger] out[j],
    ) by {
        assert(ranked_before(input, perm[i], perm[j]));
    }
    assert forall|j: int| 0 <= j < out.len() implies holds_network(input, #[trigger] out[j]) by {
        assert(out[j] == input[perm[j]]);
        assert(0 <= perm[j] < input.len());
    }
    assert(perm.no_duplicates()) by {
        assert forall|a: int, b: int| 0 <= a < perm.len() && 0 <= b < perm.len() && a != b implies perm[a]
            != perm[b] by {
            if a < b {
                assert(ranked_before(input, perm[a], perm[b]));
            } else {
                assert(ranked_before(input, perm[b], perm[a]));
            }
        }
    }
    perm.unique_seq_to_set();
    vstd::set_lib::lemma_int_range(0, input.len() as int);
    let range = vstd::set_lib::set_int_range(0, input.len() as int);
    assert(perm.to_set().subset_of(range)) by {
        assert forall|x: int| perm.to_set().contains(x) implies range.contains(x) by {
            let k = choose|k: int| 0 <= k < perm.len() && perm[k] == x;
            assert(0 <= perm[k] < input.len());
        }
    }
    vstd::seq_lib::seq_to_set_is_finite(perm);
    vstd::set_lib::lemma_subset_equality(perm.to_set(), range);
    assert forall|k: int| 0 <= k < input.len() implies holds_network(out, #[trigger] input[k]) by {
        assert(range.contains(k));
        assert(perm.to_set().contains(k));
        let j = choose|j: int| 0 <= j < perm.len() && perm[j] == k;
        assert(out[j] == input[perm[j]]);
    }
}

/// The first network of the name of `s[k]`.
proof fn lemma_first_occurrence(s: Seq<AnnotatedWirelessNetwork>, k: int) -> (m: int)
    requires
        0 <= k < s.len(),
    ensures
        0 <= m <= k,
        s[m].essid@ == s[k].essid@,
        !name_seen_before(s, m),
    decreases k,
{
    if name_seen_before(s, k) {
        let j = choose|j: int| 0 <= j < k && #[trigger] s[j].essid@ == s[k].essid@;
        lemma_first_occurrence(s, j)
    } else {
        k
    }
}

/// Where each kept network stands in `s`: in order, each the first of its name,
/// and every first of a name kept.
proof fn lemma_kept_indices(s: Seq<AnnotatedWirelessNetwork>) -> (idx: Seq<int>)
    ensures
        idx.len() == first_of_each_name(s).len(),
        forall|j: int|
            0 <= j < idx.len() ==> 0 <= #[trigger] idx[j] < s.len() && first_of_each_name(s)[j]
                == s[idx[j]] && !name_seen_before(s, idx[j]),
        forall|i: int, j: int| 0 <= i < j < idx.len() ==> #[trigger] idx[i] < #[trigger] idx[j],
        forall|k: int|
            0 <= k < s.len() && !name_seen_before(s, k) ==> exists|j: int|
                0 <= j < idx.len() && #[trigger] idx[j] == k,
    decreases s.len(),
{
    if s.len() == 0 {
        Seq::empty()
    } else {
        let p = s.drop_last();
        let ip = lemma_kept_indices(p);
        assert forall|k: int| 0 <= k < p.len() implies name_seen_before(s, k) == name_seen_before(
            p,
            k,
        ) by {
            if name_seen_before(s, k) {
                let j = choose|j: int| 0 <= j < k && #[trigger] s[j].essid@ == s[k].essid@;
                assert(p[j] == s[j]);
            }
            if name_seen_before(p, k) {
                let j = choose|j: int| 0 <= j < k && #[trigger] p[j].essid@ == p[k].essid@;
                assert(p[j] == s[j]);
            }
        }
        let last = s.len() - 1;
        if name_seen_before(s, last) {
            assert forall|k: int| 0 <= k < s.len() && !name_seen_before(s, k) implies exists|j: int|
                0 <= j < ip.len() && #[trigger] ip[j] == k by {
                assert(k < p.len());
                assert(!name_seen_before(p, k));
            }
            ip
        } else {
            let idx = ip.push(last);
            assert forall|j: int|
                0 <= j < idx.len() implies 0 <= #[trigger] idx[j] < s.len() && first_of_each_name(s)[j]
                == s[idx[j]] && !name_seen_before(s, idx[j]) by {
                if j < ip.len() {
                    assert(idx[j] == ip[j]);
                    assert(first_of_each_name(s)[j] == first_of_each_name(p)[j]);
                }
            }
            assert forall|k: int| 0 <= k < s.len() && !name_seen_before(s, k) implies exists|j: int|
                0 <= j < idx.len() && #[trigger] idx[j] == k by {
                if k < p.len() {
                    assert(!name_seen_before(p, k));
                    let j = choose|j: int| 0 <= j < ip.len() && #[trigger] ip[j] == k;
                    assert(idx[j] == ip[j]);
                } else {
                    assert(idx[ip.len() as int] == k);
                }
            }
            idx
        }
    }
}

/// Dropping repeated names from a ranked list keeps the names unique and the order descending.
proof fn lemma_kept_order(sorted: Seq<AnnotatedWirelessNetwork>)
    requires
        rank_descending(sorted),
    ensures
        names_unique(first_of_each_name(sorted)),
        rank_descending(first_of_each_name(sorted)),
        forall|j: int|
            0 <= j < first_of_each_name(sorted).len() ==> holds_network(
                sorted,
                #[trigger] first_of_each_name(sorted)[j],
            ),
{
    let out = first_of_each_name(sorted);
    let idx = lemma_kept_indices(sorted);
    assert forall|i: int, j: int| 0 <= i < j < out.len() implies (#[trigger] out[i]).essid@ != (
    #[trigger] out[j]).essid@ by {
        assert(idx[i] < idx[j]);
        assert(!name_seen_before(sorted, idx[j]));
        assert(out[i] == sorted[idx[i]]);
    }
    assert forall|i: int, j: int| 0 <= i < j < out.len() implies rank(#[trigger] out[i]) >= rank(
        #[trigger] out[j],
    ) by {
        assert(idx[i] < idx[j]);
        assert(rank(sorted[idx[i]]) >= rank(sorted[idx[j]]));
    }
    assert forall|j: int| 0 <= j < out.len() implies holds_network(sorted, #[trigger] out[j]) by {
        assert(out[j] == sorted[idx[j]]);
    }
}

/// Dropping repeated names from a ranked list keeps every name, through its best-ranked network.
proof fn lemma_kept_names(sorted: Seq<AnnotatedWirelessNetwork>)
    requires
        rank_descending(sorted),
    ensures
        forall|p: int|
            0 <= p < sorted.len() ==> holds_name(first_of_each_name(sorted), (#[trigger] sorted[p]).essid@),
        forall|j: int, p: int|
            0 <= j < first_of_each_name(sorted).len() && 0 <= p < sorted.len() && (#[trigger] sorted[p]).essid@
                == (#[trigger] first_of_each_name(sorted)[j]).essid@ ==> rank(sorted[p]) <= rank(
                first_of_each_name(sorted)[j],
            ),
{
    let out = first_of_each_name(sorted);
    let idx = lemma_kept_indices(sorted);
    assert forall|p: int| 0 <= p < sorted.len() implies holds_name(out, (#[trigger] sorted[p]).essid@) by {
        let m = lemma_first_occurrence(sorted, p);
        let j = choose|j: int| 0 <= j < idx.len() && #[trigger] idx[j] == m;
        assert(out[j] == sorted[idx[j]]);
    }
    assert forall|j: int, p: int|
        0 <= j < out.len() && 0 <= p < sorted.len() && (#[trigger] sorted[p]).essid@ == (
        #[trigger] out[j]).essid@ implies rank(sorted[p]) <= rank(out[j]) by {
        assert(out[j] == sorted[idx[j]]);
        if p < idx[j] {
            assert(sorted[p].essid@ == sorted[idx[j]].essid@);
            assert(name_seen_before(sorted, idx[j]));
        } else if p > idx[j] {
            assert(rank(sorted[idx[j]]) >= rank(sorted[p]));
        }
    }
}

/// What ranking `input` and dropping repeated names gives: the names are
/// unique; the order descends by rank (known networks first, then by signal);
/// each network kept is one of `input`; every name of `input` is kept; and the
/// network kept for a name ranks at least as high as every network of that name
/// in `input`.
pub proof fn lemma_sorted_filtered(input: Seq<AnnotatedWirelessNetwork>, sorted: Seq<AnnotatedWirelessNetwork>)
    requires
        ranks(input, sorted),
    ensures
        names_unique(first_of_each_name(sorted)),
        rank_descending(first_of_each_name(sorted)),
        forall|j: int|
            0 <= j < first_of_each_name(sorted).len() ==> holds_network(
                input,
                #[trigger] first_of_each_name(sorted)[j],
            ),
        forall|k: int|
            0 <= k < input.len() ==> holds_name(first_of_each_name(sorted), (#[trigger] input[k]).essid@),
        forall|j: int, k: int|
            0 <= j < first_of_each_name(sorted).len() && 0 <= k < input.len() && (#[trigger] input[k]).essid@
                == (#[trigger] first_of_each_name(sorted)[j]).essid@ ==> rank(input[k]) <= rank(
                first_of_each_name(sorted)[j],
            ),
{
    lemma_ranking_contents(input, sorted);
    lemma_kept_order(sorted);
    lemma_kept_names(sorted);
    let out = first_of_each_name(sorted);
    assert forall|j: int| 0 <= j < out.len() implies holds_network(input, #[trigger] out[j]) by {
        assert(holds_network(sorted, out[j]));
        let p = choose|p: int| 0 <= p < sorted.len() && sorted[p] == out[j];
        assert(holds_network(input, sorted[p]));
    }
    assert forall|k: int| 0 <= k < input.len() implies holds_name(out, (#[trigger] input[k]).essid@) by {
        assert(holds_network(sorted, input[k]));
        let p = choose|p: int| 0 <= p < sorted.len() && sorted[p] == input[k];
        assert(holds_name(out, sorted[p].essid@));
    }
    assert forall|j: int, k: int|
        0 <= j < out.len() && 0 <= k < input.len() && (#[trigger] input[k]).essid@ == (
        #[trigger] out[j]).essid@ implies rank(input[k]) <= rank(out[j]) by {
        assert(holds_network(sorted, input[k]));
        let p = choose|p: int| 0 <= p < sorted.len() && sorted[p] == input[k];
        assert(sorted[p].essid@ == out[j].essid@);
    }
}

} // verus!
