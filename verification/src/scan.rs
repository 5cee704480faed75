//! What a scan reports, and which of the networks it saw is joined.

use crate::config::{AuthMethod, ConfigurationModel, RadioConfiguration, Ssid};
use vstd::prelude::*;
use vstd::seq_lib::to_multiset_contains;

verus! {

/// Records that one scan can return.
pub const SCAN_CAPACITY: usize = 20;

/// One network that a scan saw.
#[derive(Debug, PartialEq, Eq)]
pub struct ScanRecord {
    pub ssid: Ssid,
    pub channel: u8,
    /// Received signal strength in dBm: the higher, the stronger.
    pub signal_strength: i8,
    /// How the network authenticates, where the scan could tell.
    pub auth_method: Option<AuthMethod>,
}

/// A `ScanRecord` with its name as a sequence of characters.
pub struct Network {
    pub ssid: Seq<char>,
    pub channel: u8,
    pub signal_strength: i8,
    pub auth_method: Option<AuthMethod>,
}

impl View for ScanRecord {
    type V = Network;

    open spec fn view(&self) -> Network {
        Network {
            ssid: self.ssid@,
            channel: self.channel,
            signal_strength: self.signal_strength,
            auth_method: self.auth_method,
        }
    }
}

impl Clone for ScanRecord {
    fn clone(&self) -> (copy: Self)
        ensures
            copy@ == self@,
    {
        ScanRecord {
            ssid: self.ssid.clone(),
            channel: self.channel,
            signal_strength: self.signal_strength,
            auth_method: self.auth_method,
        }
    }
}

/// `heapless::Vec`, a vector that keeps at most `N` items in place. Nothing
/// is known of a value but what `networks` tells.
#[verifier::external_type_specification]
#[verifier::external_body]
#[verifier::reject_recursive_types(T)]
pub struct ExBoundedVec<T, const N: usize>(heapless::Vec<T, N>);

/// The records of one scan, in the order in which the radio reported them.
pub type ScanResults = heapless::Vec<ScanRecord, SCAN_CAPACITY>;

/// The networks that a scan's records describe, in the records' order.
pub uninterp spec fn networks(results: ScanResults) -> Seq<Network>;

/// Borrows the records through `heapless::Vec::as_slice`, which returns the
/// initialised front of the vector's buffer: one element for each record that
/// the vector holds, in the vector's order.
#[verifier::external_body]
fn records(results: &ScanResults) -> (slice: &[ScanRecord])
    ensures
        slice@.len() == networks(*results).len(),
        forall|i: int| 0 <= i < slice@.len() ==> (#[trigger] slice@[i])@ == networks(*results)[i],
{
    results.as_slice()
}

impl Network {
    /// Whether the scan saw that the network asks for no authentication.
    pub open spec fn is_open(self) -> bool {
        self.auth_method == Some(AuthMethod::Open)
    }

    /// The configuration that joins this network as an open one.
    pub open spec fn as_discovered(self) -> ConfigurationModel {
        ConfigurationModel::Discovered { ssid: self.ssid, channel: self.channel }
    }
}

/// Whether `index` is the place of the open network to join: no open network
/// is stronger, and of those as strong it was reported first.
pub open spec fn is_strongest_open(networks: Seq<Network>, index: int) -> bool {
    &&& 0 <= index < networks.len()
    &&& networks[index].is_open()
    &&& forall|j: int|
        0 <= j < networks.len() && (#[trigger] networks[j]).is_open()
            ==> networks[j].signal_strength <= networks[index].signal_strength
    &&& forall|j: int|
        0 <= j < index && (#[trigger] networks[j]).is_open() ==> networks[j].signal_strength
            < networks[index].signal_strength
}

/// Whether a scan saw an open network at all.
pub open spec fn has_open(networks: Seq<Network>) -> bool {
    exists|j: int| 0 <= j < networks.len() && (#[trigger] networks[j]).is_open()
}

/// The place of the open network to join, if the scan saw an open one.
pub open spec fn strongest_open(networks: Seq<Network>) -> Option<int> {
    if has_open(networks) {
        Some(choose|index: int| is_strongest_open(networks, index))
    } else {
        None
    }
}

/// The configuration that a scan leads to, if it saw an open network.
pub open spec fn discovered(networks: Seq<Network>) -> Option<ConfigurationModel> {
    match strongest_open(networks) {
        Some(index) => Some(networks[index].as_discovered()),
        None => None,
    }
}

/// At most one place is that of the open network to join.
pub proof fn lemma_strongest_open_unique(networks: Seq<Network>, first: int, second: int)
    requires
        is_strongest_open(networks, first),
        is_strongest_open(networks, second),
    ensures
        first == second,
{
    if first < second {
        assert(networks[first].is_open());
    } else if second < first {
        assert(networks[second].is_open());
    }
}

/// Sorting first gives the same strength: in any rearrangement of a scan that
/// runs from the strongest network to the weakest, the first open network is
/// an open network of the scan, and as strong as the one to join.
pub proof fn lemma_first_open_of_sorted(networks: Seq<Network>, sorted: Seq<Network>, first: int)
    requires
        sorted.to_multiset() == networks.to_multiset(),
        forall|i: int, j: int|
            0 <= i < j < sorted.len() ==> sorted[i].signal_strength >= sorted[j].signal_strength,
        0 <= first < sorted.len(),
        sorted[first].is_open(),
        forall|j: int| 0 <= j < first ==> !(#[trigger] sorted[j]).is_open(),
    ensures
        networks.contains(sorted[first]),
        strongest_open(networks) is Some,
        networks[strongest_open(networks)->Some_0].signal_strength
            == sorted[first].signal_strength,
{
    assert(sorted.contains(sorted[first]));
    to_multiset_contains(sorted, sorted[first]);
    to_multiset_contains(networks, sorted[first]);
    let place = choose|j: int| 0 <= j < networks.len() && networks[j] == sorted[first];
    assert(networks[place].is_open());
    lemma_strongest_open_exists(networks);
    let chosen = strongest_open(networks)->Some_0;
    assert(networks.contains(networks[chosen]));
    to_multiset_contains(networks, networks[chosen]);
    to_multiset_contains(sorted, networks[chosen]);
    let moved = choose|j: int| 0 <= j < sorted.len() && sorted[j] == networks[chosen];
    assert(sorted[moved].is_open());
}

/// Where a scan saw an open network, one place is that of the network to
/// join.
pub proof fn lemma_strongest_open_exists(networks: Seq<Network>)
    requires
        has_open(networks),
    ensures
        strongest_open(networks) is Some,
        is_strongest_open(networks, strongest_open(networks)->Some_0),
    decreases networks.len(),
{
    let last = networks.len() - 1;
    let front = networks.drop_last();
    if exists|j: int| 0 <= j < front.len() && (#[trigger] front[j]).is_open() {
        lemma_strongest_open_exists(front);
        let held = strongest_open(front)->Some_0;
        assert(forall|j: int| 0 <= j < front.len() ==> front[j] == networks[j]);
        if networks[last].is_open() && networks[last].signal_strength
            > networks[held].signal_strength {
            assert(is_strongest_open(networks, last));
        } else {
            assert(is_strongest_open(networks, held));
        }
    } else {
        let witness = choose|j: int| 0 <= j < networks.len() && (#[trigger] networks[j]).is_open();
        assert(witness == last) by {
            if witness < last {
                assert(front[witness].is_open());
            }
        }
        assert(forall|j: int| 0 <= j < last ==> front[j] == networks[j]);
        assert(is_strongest_open(networks, last));
    }
}

/// The place of the strongest open network among the records, the earliest of
/// them where several are as strong; none where no record is open.
pub fn find_strongest_open(results: &ScanResults) -> (found: Option<usize>)
    ensures
        found is Some <==> has_open(networks(*results)),
        found is Some ==> is_strongest_open(networks(*results), found->Some_0 as int),
        match found {
            Some(index) => strongest_open(networks(*results)) == Some(index as int),
            None => strongest_open(networks(*results)) is None,
        },
{
    let slice = records(results);
    let ghost seen = networks(*results);
    let mut best: Option<usize> = None;
    let mut i: usize = 0;
    while i < slice.len()
        invariant
            0 <= i <= slice@.len(),
            slice@.len() == seen.len(),
            forall|k: int| 0 <= k < slice@.len() ==> (#[trigger] slice@[k])@ == seen[k],
            best is None ==> forall|j: int| 0 <= j < i ==> !(#[trigger] seen[j]).is_open(),
            best is Some ==> is_strongest_open(seen.take(i as int), best->Some_0 as int),
        decreases slice@.len() - i,
    {
        let record = &slice[i];
        assert(record@ == seen[i as int]);
        let open = match record.auth_method {
            Some(AuthMethod::Open) => true,
            _ => false,
        };
        let ghost before = seen.take(i as int);
        let ghost after = seen.take(i + 1);
        assert(forall|j: int| 0 <= j < i ==> after[j] == before[j]);
        assert(after[i as int] == seen[i as int]);
        if open {
            match best {
                Some(held) => {
                    assert(slice@[held as int]@ == seen[held as int]);
                    if slice[held].signal_strength < record.signal_strength {
                        best = Some(i);
                    }
                },
                None => {
                    best = Some(i);
                },
            }
        }
        assert(best is Some ==> is_strongest_open(after, best->Some_0 as int));
        i += 1;
    }
    proof {
        assert(seen.take(i as int) =~= seen);
        match best {
            Some(index) => {
                assert(seen[index as int].is_open());
                let chosen = choose|index: int| is_strongest_open(seen, index);
                lemma_strongest_open_unique(seen, chosen, index as int);
            },
            None => {},
        }
    }
    best
}

/// The configuration that joins the strongest open network of a scan; none
/// where the scan saw no open network.
pub fn select_open(results: &ScanResults) -> (chosen: Option<RadioConfiguration>)
    ensures
        chosen is Some <==> has_open(networks(*results)),
        match chosen {
            Some(configuration) => discovered(networks(*results)) == Some(configuration@),
            None => discovered(networks(*results)) is None,
        },
{
    match find_strongest_open(results) {
        Some(index) => {
            let slice = records(results);
            let record = &slice[index];
            Some(RadioConfiguration::Discovered { ssid: record.ssid.clone(), channel: record.channel })
        },
        None => None,
    }
}

} // verus!
