//! Networks that configurations on the system already know, and marking the
//! scanned networks with them.

use vstd::prelude::*;

use crate::enums::NetworkServiceIdentifier;
use crate::interfaces::{Global, WifiConnect};
use crate::structs::{AnnotatedWirelessNetwork, WirelessNetwork};
use crate::text::{chars_of, same_chars};

verus! {

/// A network name and the configuration that knows it.
#[derive(Debug, Clone, PartialEq, Eq)]
pub struct KnownNetwork {
    pub essid: String,
    pub service_identifier: NetworkServiceIdentifier,
}

/// The networks known on the system, in the order in which they were found.
#[derive(Debug, Clone, PartialEq, Eq, Default)]
pub struct WifiKnownNetworks {
    pub networks: Vec<KnownNetwork>,
}

/// The configuration of the first entry of `known` named `essid`, if any.
pub open spec fn known_identifier(known: Seq<KnownNetwork>, essid: Seq<char>) -> Option<
    NetworkServiceIdentifier,
>
    decreases known.len(),
{
    if known.len() == 0 {
        None
    } else if known[0].essid@ == essid {
        Some(known[0].service_identifier)
    } else {
        known_identifier(known.drop_first(), essid)
    }
}

/// The lookup of one name, by induction on the entries.
proof fn lemma_first_named(known: Seq<KnownNetwork>, essid: Seq<char>)
    ensures
        (known_identifier(known, essid) is None) <==> (forall|k: int|
            0 <= k < known.len() ==> (#[trigger] known[k]).essid@ != essid),
        known_identifier(known, essid) matches Some(id) ==> exists|k: int|
            0 <= k < known.len() && (#[trigger] known[k]).essid@ == essid
                && known[k].service_identifier == id && forall|j: int|
                0 <= j < k ==> (#[trigger] known[j]).essid@ != essid,
    decreases known.len(),
{
    if known.len() > 0 {
        let rest = known.drop_first();
        lemma_first_named(rest, essid);
        assert forall|k: int| 1 <= k < known.len() implies known[k] == #[trigger] rest[k - 1] by {}
        if known[0].essid@ == essid {
            assert(known_identifier(known, essid) == Some(known[0].service_identifier));
        } else {
            if known_identifier(rest, essid) is None {
                assert forall|k: int| 0 <= k < known.len() implies (#[trigger] known[k]).essid@ != essid by {
                    if k > 0 {
                        assert(known[k] == rest[k - 1]);
                    }
                }
            } else {
                let id = known_identifier(rest, essid)->0;
                let k = choose|k: int|
                    0 <= k < rest.len() && (#[trigger] rest[k]).essid@ == essid
                        && rest[k].service_identifier == id && forall|j: int|
                        0 <= j < k ==> (#[trigger] rest[j]).essid@ != essid;
                assert(known[k + 1] == rest[k]);
                assert forall|j: int| 0 <= j < k + 1 implies (#[trigger] known[j]).essid@ != essid by {
                    if j > 0 {
                        assert(known[j] == rest[j - 1]);
                    }
                }
                assert(!(forall|k: int| 0 <= k < known.len() ==> (#[trigger] known[k]).essid@ != essid)) by {
                    assert(known[k + 1].essid@ == essid);
                }
            }
        }
    }
}

/// Looking a name up in the known networks: it is found exactly when some entry
/// has that name, and then what is found is the configuration of the first
/// such entry. In particular every known entry's own name is found.
pub proof fn lemma_known_lookup(known: Seq<KnownNetwork>, essid: Seq<char>)
    ensures
        (known_identifier(known, essid) is None) <==> (forall|k: int|
            0 <= k < known.len() ==> (#[trigger] known[k]).essid@ != essid),
        known_identifier(known, essid) matches Some(id) ==> exists|k: int|
            0 <= k < known.len() && (#[trigger] known[k]).essid@ == essid
                && known[k].service_identifier == id && forall|j: int|
                0 <= j < k ==> (#[trigger] known[j]).essid@ != essid,
        forall|k: int|
            0 <= k < known.len() ==> (known_identifier(known, (#[trigger] known[k]).essid@) is Some),
{
    lemma_first_named(known, essid);
    assert forall|k: int| 0 <= k < known.len() implies (known_identifier(
        known,
        (#[trigger] known[k]).essid@,
    ) is Some) by {
        lemma_first_named(known, known[k].essid@);
    }
}

/// The scanned network `nw`, marked with the configuration `id`.
pub open spec fn annotated(nw: WirelessNetwork, id: Option<NetworkServiceIdentifier>) -> AnnotatedWirelessNetwork {
    AnnotatedWirelessNetwork {
        essid: nw.essid,
        is_encrypted: nw.is_encrypted,
        bssid: nw.bssid,
        signal_strength: nw.signal_strength,
        channel_utilisation: nw.channel_utilisation,
        service_identifier: id,
    }
}

impl WifiKnownNetworks {
    /// The configuration that knows the network named `essid`, if any.
    pub fn get_service_identifier_for_essid(&self, essid: &str) -> (r: Option<
        NetworkServiceIdentifier,
    >)
        ensures
            r == known_identifier(self.networks@, essid@),
    {
        let name = chars_of(essid);
        let mut i: usize = 0;
        assert(self.networks@.skip(0) =~= self.networks@);
        while i < self.networks.len()
            invariant
                i <= self.networks.len(),
                name@ == essid@,
                known_identifier(self.networks@, essid@) == known_identifier(
                    self.networks@.skip(i as int),
                    essid@,
                ),
            decreases self.networks.len() - i,
        {
            let candidate = chars_of(self.networks[i].essid.as_str());
            if same_chars(candidate.as_slice(), name.as_slice()) {
                return Some(self.networks[i].service_identifier.duplicate());
            }
            assert(self.networks@.skip(i as int).drop_first() =~= self.networks@.skip(i + 1));
            i += 1;
        }
        None
    }
}

/// Each scanned network, marked with the configuration that knows it.
pub fn annotate_networks<O: Global>(
    options: &O,
    networks: &[WirelessNetwork],
    known_networks: &WifiKnownNetworks,
) -> (r: Vec<AnnotatedWirelessNetwork>)
    ensures
        r@.len() == networks@.len(),
        forall|i: int|
            0 <= i < networks@.len() ==> #[trigger] r@[i] == annotated(
                networks@[i],
                known_identifier(known_networks.networks@, networks@[i].essid@),
            ),
{
    let mut r: Vec<AnnotatedWirelessNetwork> = Vec::new();
    let mut i: usize = 0;
    while i < networks.len()
        invariant
            i <= networks.len(),
            r@.len() == i,
            forall|j: int|
                0 <= j < i ==> #[trigger] r@[j] == annotated(
                    networks@[j],
                    known_identifier(known_networks.networks@, networks@[j].essid@),
                ),
        decreases networks.len() - i,
    {
        let id = known_networks.get_service_identifier_for_essid(networks[i].essid.as_str());
        let nw = networks[i].duplicate();
        let marked = match &id {
            Some(x) => AnnotatedWirelessNetwork::from_nw(nw, Some(x)),
            None => AnnotatedWirelessNetwork::from_nw(nw, None),
        };
        r.push(marked);
        i += 1;
    }
    r
}

/// The network named on the command line: known if a configuration names it,
/// and encrypted if a key was given.
pub fn get_network_from_given_essid<O: Global + WifiConnect>(
    options: &O,
    essid: &str,
    known_networks: &WifiKnownNetworks,
) -> (r: AnnotatedWirelessNetwork)
    ensures
        r.essid@ == essid@,
        r.is_encrypted == options.given_encryption_key_of() is Some,
        r.bssid is None,
        r.signal_strength is None,
        r.channel_utilisation is None,
        r.service_identifier == known_identifier(known_networks.networks@, essid@),
{
    let existing_network_identifier = known_networks.get_service_identifier_for_essid(essid);
    let is_encrypted = options.get_given_encryption_key().is_some();
    AnnotatedWirelessNetwork::from_essid(essid.to_owned(), existing_network_identifier, is_encrypted)
}

} // verus!
