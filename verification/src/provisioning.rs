use vstd::prelude::*;

use crate::connection::AccessPointRecord;
use crate::credential::Credential;
use crate::credential::load;
use crate::credential::provisioned;
use crate::discovery::DiscoverySet;
use crate::discovery::nets_of;

verus! {

/// How many ticks (one per second) the provisioning window stays open.
pub const PROVISIONING_WINDOW_TICKS: u32 = 100;

/// The fixed fallback credential used only while provisioning: the device
/// runs a soft access point under it (and attempts the same as a client)
/// so that an operator can reach the diagnostic service directly.
pub fn mixed_mode_credential() -> (c: Credential)
    ensures
        c.network_id@ == "mitsusplit"@,
        c.secret@ == "mitsubishi"@,
        c.wf(),
{
    proof {
        reveal_strlit("mitsusplit");
        reveal_strlit("mitsubishi");
    }
    Credential { network_id: "mitsusplit".to_owned(), secret: "mitsubishi".to_owned() }
}

/// The soft-access-point side of the mixed-mode configuration, as the
/// driver reports it when polled.
#[derive(Clone, Copy, PartialEq, Eq, Structural, Debug)]
pub enum ApState {
    Stopped,
    Starting,
    AwaitingAddress,
    Serving,
    Disabled,
}

impl ApState {
    /// A state that must keep being polled.
    pub open spec fn spec_is_transitional(self) -> bool {
        self is Starting || self is AwaitingAddress
    }
}

/// What the provisioning setup does with one poll of the soft access
/// point: keep waiting while the state is transitional; once settled,
/// only a serving access point with its address done counts — any other
/// settled state is a fatal provisioning error.
#[derive(Clone, Copy, PartialEq, Eq, Structural, Debug)]
pub enum ApPoll {
    KeepWaiting,
    Up,
    FatalStatus,
}

/// Classifies one polled soft-access-point state.
pub fn classify_ap(state: ApState) -> (r: ApPoll)
    ensures
        state.spec_is_transitional() ==> r is KeepWaiting,
        (!state.spec_is_transitional() && state is Serving) ==> r is Up,
        (!state.spec_is_transitional() && !(state is Serving)) ==> r is FatalStatus,
{
    match state {
        ApState::Starting | ApState::AwaitingAddress => ApPoll::KeepWaiting,
        ApState::Serving => ApPoll::Up,
        ApState::Stopped | ApState::Disabled => ApPoll::FatalStatus,
    }
}

/// Background discovery prefers liveness over completeness: a scan failure
/// contributes an empty result instead of aborting the refresh loop.
pub fn tolerate_scan_failure(result: Result<Vec<AccessPointRecord>, u32>) -> (r: Vec<
    AccessPointRecord,
>)
    ensures
        result matches Ok(v) ==> r@ == v@,
        result is Err ==> r@.len() == 0,
{
    match result {
        Ok(v) => v,
        Err(_) => Vec::new(),
    }
}

/// The identities observed over a whole provisioning window, one scan
/// result per tick.
pub open spec fn session_nets(scans: Seq<Seq<AccessPointRecord>>) -> Set<(Seq<char>, u8)>
    decreases scans.len(),
{
    if scans.len() == 0 {
        Set::empty()
    } else {
        session_nets(scans.drop_last()).union(nets_of(scans.last()))
    }
}

/// Over a window whose every tick observes the same scan result, discovery
/// accumulates exactly that one scan's identities, however long the window
/// stays open.
pub proof fn lemma_constant_window(scans: Seq<Seq<AccessPointRecord>>, scan: Seq<AccessPointRecord>)
    requires
        scans.len() > 0,
        forall|t: int| 0 <= t < scans.len() ==> scans[t] == scan,
    ensures
        session_nets(scans) == nets_of(scan),
    decreases scans.len(),
{
    if scans.len() == 1 {
        assert(session_nets(scans.drop_last()) == Set::<(Seq<char>, u8)>::empty());
        assert(Set::<(Seq<char>, u8)>::empty().union(nets_of(scan)) =~= nets_of(scan));
    } else {
        lemma_constant_window(scans.drop_last(), scan);
        assert(nets_of(scan).union(nets_of(scan)) =~= nets_of(scan));
    }
}

/// The discovery refresh loop of one provisioning window: once per tick
/// the refresh task takes its exclusive window on the discovery set and
/// merges that tick's scan result. The window is purely duration-bounded —
/// it ends with the last tick and nothing else ends it early.
pub fn run_window(set: &mut DiscoverySet, scans: &Vec<Vec<AccessPointRecord>>)
    requires
        old(set).inv(),
    ensures
        final (set)@ == old(set)@.union(
            session_nets(scans@.map_values(|v: Vec<AccessPointRecord>| v@)),
        ),
        final (set).inv(),
{
    let ghost orig = set@;
    let ghost sseq = scans@.map_values(|v: Vec<AccessPointRecord>| v@);
    proof {
        assert(sseq.take(0) =~= Seq::<Seq<AccessPointRecord>>::empty());
        assert(orig.union(session_nets(sseq.take(0))) =~= orig);
    }
    let mut t: usize = 0;
    while t < scans.len()
        invariant
            0 <= t <= scans@.len(),
            sseq == scans@.map_values(|v: Vec<AccessPointRecord>| v@),
            set.inv(),
            set@ == orig.union(session_nets(sseq.take(t as int))),
        decreases scans@.len() - t,
    {
        set.merge(&scans[t]);
        proof {
            let t0 = sseq.take(t as int);
            let t1 = sseq.take(t as int + 1);
            assert(t1.drop_last() =~= t0);
            assert(t1.last() == sseq[t as int]);
            assert(sseq[t as int] == scans@[t as int]@);
            assert(session_nets(t1) == session_nets(t0).union(nets_of(scans@[t as int]@)));
            assert(orig.union(session_nets(t1)) =~= orig.union(session_nets(t0)).union(
                nets_of(scans@[t as int]@),
            ));
        }
        t = t + 1;
    }
    proof {
        assert(sseq.take(sseq.len() as int) =~= sseq);
    }
}

/// One whole provisioning pass: run the discovery refresh loop over the
/// window, then re-check the credential store — an operator may have
/// written a credential through an external path while the window was
/// open. Hands back the final discovery set and whatever credential the
/// store now holds.
pub fn provisioning_pass(
    scans: &Vec<Vec<AccessPointRecord>>,
    stored_network_id: Option<String>,
    stored_secret: Option<String>,
) -> (r: (DiscoverySet, Option<Credential>))
    ensures
        r.0@ == session_nets(scans@.map_values(|v: Vec<AccessPointRecord>| v@)),
        r.0.inv(),
        r.1 is Some <==> provisioned(stored_network_id, stored_secret),
        r.1 matches Some(c) ==> c.network_id@ == stored_network_id.unwrap()@ && c.secret@
            == stored_secret.unwrap()@ && c.wf(),
{
    let mut set = DiscoverySet::new();
    run_window(&mut set, scans);
    proof {
        assert(Set::<(Seq<char>, u8)>::empty().union(
            session_nets(scans@.map_values(|v: Vec<AccessPointRecord>| v@)),
        ) =~= session_nets(scans@.map_values(|v: Vec<AccessPointRecord>| v@)));
    }
    let found = load(stored_network_id, stored_secret);
    (set, found)
}

} // verus!
