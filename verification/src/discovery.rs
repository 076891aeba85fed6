use vstd::prelude::*;

use crate::connection::AccessPointRecord;

verus! {

/// One network observed during provisioning. Its identity is the pair of
/// network identifier and signal strength — not the identifier alone — so
/// the same network seen at a different signal level counts as a distinct
/// observation.
#[derive(Debug)]
pub struct DiscoveredNetwork {
    pub network_id: String,
    pub signal_strength: u8,
}

impl DiscoveredNetwork {
    /// The identity under which an observation enters the discovery set.
    pub open spec fn key(self) -> (Seq<char>, u8) {
        (self.network_id@, self.signal_strength)
    }

    /// The observation a scan record contributes: its identifier and
    /// signal strength; the radio channel plays no part in discovery.
    pub fn from_record(record: &AccessPointRecord) -> (n: DiscoveredNetwork)
        ensures
            n.key() == (record.ssid@, record.signal_strength),
    {
        DiscoveredNetwork {
            network_id: record.ssid.clone(),
            signal_strength: record.signal_strength,
        }
    }
}

impl PartialEq for DiscoveredNetwork {
    fn eq(&self, other: &DiscoveredNetwork) -> (r: bool) {
        self.network_id == other.network_id && self.signal_strength == other.signal_strength
    }
}

impl vstd::std_specs::cmp::PartialEqSpecImpl for DiscoveredNetwork {
    open spec fn obeys_eq_spec() -> bool {
        true
    }

    open spec fn eq_spec(&self, other: &DiscoveredNetwork) -> bool {
        self.key() == other.key()
    }
}

/// The identities contributed by one scan result.
pub open spec fn nets_of(scan: Seq<AccessPointRecord>) -> Set<(Seq<char>, u8)> {
    scan.map_values(|r: AccessPointRecord| (r.ssid@, r.signal_strength)).to_set()
}

/// The identities held by a sequence of observations.
pub open spec fn keys_of(entries: Seq<DiscoveredNetwork>) -> Set<(Seq<char>, u8)> {
    entries.map_values(|n: DiscoveredNetwork| n.key()).to_set()
}

/// The deduplicated collection of networks observed during one
/// provisioning session. It grows monotonically by set union with each
/// scan result and is discarded when provisioning ends. Viewed as the set
/// of observed identities.
pub struct DiscoverySet {
    entries: Vec<DiscoveredNetwork>,
}

impl View for DiscoverySet {
    type V = Set<(Seq<char>, u8)>;

    closed spec fn view(&self) -> Set<(Seq<char>, u8)> {
        keys_of(self.entries@)
    }
}

impl DiscoverySet {
    /// A sequence of observations with pairwise-distinct identities has
    /// as many identities as entries.
    proof fn lemma_distinct_cardinality(&self)
        requires
            self.inv(),
        ensures
            self@.len() == self.entries@.len(),
    {
        let mapped = self.entries@.map_values(|n: DiscoveredNetwork| n.key());
        assert(mapped.no_duplicates()) by {
            assert forall|i: int, j: int|
                0 <= i < mapped.len() && 0 <= j < mapped.len() && i != j implies mapped[i]
                != mapped[j] by {
                assert(mapped[i] == self.entries@[i].key());
                assert(mapped[j] == self.entries@[j].key());
            }
        }
        mapped.unique_seq_to_set();
    }

    /// No identity occurs twice among the stored observations.
    pub closed spec fn inv(&self) -> bool {
        forall|i: int, j: int|
            0 <= i < j < self.entries@.len() ==> self.entries@[i].key() != self.entries@[j].key()
    }

    /// An empty discovery set.
    pub fn new() -> (s: DiscoverySet)
        ensures
            s@ == Set::<(Seq<char>, u8)>::empty(),
            s.inv(),
    {
        let s = DiscoverySet { entries: Vec::new() };
        proof {
            assert(s.entries@.map_values(|n: DiscoveredNetwork| n.key()) =~= Seq::empty());
            assert(s@ =~= Set::<(Seq<char>, u8)>::empty());
        }
        s
    }

    /// Whether an observation with this identity is already present.
    pub fn contains(&self, net: &DiscoveredNetwork) -> (r: bool)
        requires
            self.inv(),
        ensures
            r == self@.contains(net.key()),
    {
        let ghost mapped = self.entries@.map_values(|n: DiscoveredNetwork| n.key());
        let mut i: usize = 0;
        while i < self.entries.len()
            invariant
                0 <= i <= self.entries@.len(),
                mapped == self.entries@.map_values(|n: DiscoveredNetwork| n.key()),
                forall|j: int| 0 <= j < i ==> self.entries@[j].key() != net.key(),
            decreases self.entries@.len() - i,
        {
            if self.entries[i] == *net {
                proof {
                    assert(mapped[i as int] == net.key());
                    assert(mapped.contains(net.key()));
                }
                return true;
            }
            i = i + 1;
        }
        proof {
            assert forall|j: int| 0 <= j < mapped.len() implies mapped[j] != net.key() by {
                assert(mapped[j] == self.entries@[j].key());
            }
            if mapped.contains(net.key()) {
                let j = choose|j: int| 0 <= j < mapped.len() && mapped[j] == net.key();
            }
        }
        false
    }

    /// The number of distinct observations so far.
    pub fn len(&self) -> (n: usize)
        requires
            self.inv(),
        ensures
            n == self@.len(),
    {
        proof {
            self.lemma_distinct_cardinality();
        }
        self.entries.len()
    }

    /// A read-only snapshot of the stored observations, for the diagnostic
    /// view; each identity occurs exactly once.
    pub fn snapshot(&self) -> (r: &Vec<DiscoveredNetwork>)
        requires
            self.inv(),
        ensures
            keys_of(r@) == self@,
            r@.len() == self@.len(),
            forall|i: int, j: int| 0 <= i < j < r@.len() ==> r@[i].key() != r@[j].key(),
    {
        proof {
            self.lemma_distinct_cardinality();
        }
        &self.entries
    }

    /// Merges one scan result: set union on identities, so a record whose
    /// identity is already present changes nothing.
    pub fn merge(&mut self, scan: &Vec<AccessPointRecord>)
        requires
            old(self).inv(),
        ensures
            final(self)@ == old(self)@.union(nets_of(scan@)),
            final(self).inv(),
    {
        let ghost orig = self@;
        let mut i: usize = 0;
        proof {
            assert(scan@.take(0) =~= Seq::empty());
            assert(scan@.take(0).map_values(|r: AccessPointRecord| (r.ssid@, r.signal_strength))
                =~= Seq::empty());
            assert(self@.union(nets_of(scan@.take(0))) =~= self@);
        }
        while i < scan.len()
            invariant
                0 <= i <= scan@.len(),
                self.inv(),
                self@ == orig.union(nets_of(scan@.take(i as int))),
            decreases scan@.len() - i,
        {
            let net = DiscoveredNetwork::from_record(&scan[i]);
            let ghost before = self@;
            let present = self.contains(&net);
            if !present {
                let ghost prev_entries = self.entries@;
                let ghost prev_mapped = prev_entries.map_values(|n: DiscoveredNetwork| n.key());
                proof {
                    assert forall|j: int| 0 <= j < prev_entries.len() implies prev_entries[j].key()
                        != net.key() by {
                        if prev_entries[j].key() == net.key() {
                            assert(prev_mapped[j] == prev_entries[j].key());
                            assert(prev_mapped.contains(net.key()));
                            assert(self@.contains(net.key()));
                        }
                    }
                }
                self.entries.push(net);
                proof {
                    assert(self.entries@ =~= prev_entries.push(net));
                    assert(self.entries@.map_values(|n: DiscoveredNetwork| n.key())
                        =~= prev_mapped.push(net.key()));
                    prev_mapped.lemma_push_to_set_commute(net.key());
                    assert(before == prev_mapped.to_set());
                    assert(self@ =~= before.insert(net.key()));
                    assert forall|a: int, b: int|
                        0 <= a < b < self.entries@.len() implies self.entries@[a].key()
                        != self.entries@[b].key() by {
                        if b == self.entries@.len() - 1 {
                            assert(self.entries@[a] == prev_entries[a]);
                            assert(self.entries@[b] == net);
                        } else {
                            assert(self.entries@[a] == prev_entries[a]);
                            assert(self.entries@[b] == prev_entries[b]);
                        }
                    }
                }
            }
            proof {
                let taken = scan@.take(i as int);
                let taken1 = scan@.take(i as int + 1);
                assert(taken1 =~= taken.push(scan@[i as int]));
                assert(taken1.map_values(|r: AccessPointRecord| (r.ssid@, r.signal_strength))
                    =~= taken.map_values(|r: AccessPointRecord| (r.ssid@, r.signal_strength)).push(
                    net.key(),
                ));
                taken.map_values(|r: AccessPointRecord| (r.ssid@, r.signal_strength))
                    .lemma_push_to_set_commute(net.key());
                assert(nets_of(taken1) =~= nets_of(taken).insert(net.key()));
                assert(self@ =~= orig.union(nets_of(taken1)));
            }
            i = i + 1;
        }
        proof {
            assert(scan@.take(scan@.len() as int) =~= scan@);
        }
    }
}

/// Discovery is idempotent: merging the same scan result a second time
/// changes nothing, however the set stood before.
pub proof fn lemma_merge_idempotent(base: Set<(Seq<char>, u8)>, scan: Seq<AccessPointRecord>)
    ensures
        base.union(nets_of(scan)).union(nets_of(scan)) == base.union(nets_of(scan)),
{
    assert(base.union(nets_of(scan)).union(nets_of(scan)) =~= base.union(nets_of(scan)));
}

/// Two observations of the same network that differ only in signal
/// strength are distinct elements: merging both, when neither was present,
/// grows the set by exactly two.
pub proof fn lemma_signal_strength_distinguishes(
    base: Set<(Seq<char>, u8)>,
    scan: Seq<AccessPointRecord>,
)
    requires
        base.finite(),
        scan.len() == 2,
        scan[0].ssid@ == scan[1].ssid@,
        scan[0].signal_strength != scan[1].signal_strength,
        !base.contains((scan[0].ssid@, scan[0].signal_strength)),
        !base.contains((scan[1].ssid@, scan[1].signal_strength)),
    ensures
        base.union(nets_of(scan)).len() == base.len() + 2,
{
    let k0 = (scan[0].ssid@, scan[0].signal_strength);
    let k1 = (scan[1].ssid@, scan[1].signal_strength);
    let mapped = scan.map_values(|r: AccessPointRecord| (r.ssid@, r.signal_strength));
    assert(mapped.len() == 2 && mapped[0] == k0 && mapped[1] == k1);
    assert forall|x: (Seq<char>, u8)| nets_of(scan).contains(x) implies x == k0 || x == k1 by {
        let j = choose|j: int| 0 <= j < mapped.len() && mapped[j] == x;
    }
    assert(base.union(nets_of(scan)) =~= base.insert(k0).insert(k1)) by {
        assert(mapped.contains(k0) && mapped.contains(k1));
    }
    assert(base.insert(k0).len() == base.len() + 1);
    assert(k1 != k0);
    assert(!base.insert(k0).contains(k1));
    assert(base.insert(k0).insert(k1).len() == base.len() + 2);
}

} // verus!
