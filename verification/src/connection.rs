use vstd::prelude::*;

verus! {

/// How many polls, one per tick of a second, the association wait allows
/// before the attempt times out.
pub const ASSOCIATION_TIMEOUT_TICKS: u32 = 20;

/// Address information reported by the driver once association has fully
/// resolved: the device's own IPv4 address and the default gateway of its
/// subnet, each packed into 32 bits.
#[derive(Clone, Copy, PartialEq, Eq, Structural, Debug)]
pub struct AddressInfo {
    pub address: u32,
    pub gateway: u32,
}

/// The connection status the network driver facade reports when polled.
/// `Transitional` stands for any in-progress sub-state the driver may
/// report besides association and address resolution; the controller never
/// acts on a transitional status other than by polling again.
#[derive(Clone, Copy, PartialEq, Eq, Structural, Debug)]
pub enum ConnectionState {
    Idle,
    Associating,
    AwaitingAddress,
    Connected(AddressInfo),
    Failed(u32),
    Transitional,
}

impl ConnectionState {
    /// A status is transitional when it must keep being polled.
    pub open spec fn spec_is_transitional(self) -> bool {
        self is Associating || self is AwaitingAddress || self is Transitional
    }

    /// Whether this status is still in progress and must be polled again.
    pub fn is_transitional(&self) -> (r: bool)
        ensures
            r == self.spec_is_transitional(),
    {
        match self {
            ConnectionState::Associating => true,
            ConnectionState::AwaitingAddress => true,
            ConnectionState::Transitional => true,
            _ => false,
        }
    }
}

/// Why a connection attempt ended without a usable connection.
#[derive(Clone, Copy, PartialEq, Eq, Structural, Debug)]
pub enum ConnectError {
    /// The status never settled within the association deadline.
    Timeout,
    /// The status settled, but on something other than a fully-resolved
    /// connection.
    UnexpectedStatus,
    /// Association succeeded but every reachability probe to the gateway
    /// was lost.
    GatewayUnreachable,
}

/// One access point as reported by a driver scan: the network identifier,
/// the observed signal strength, and the radio channel it was seen on.
pub struct AccessPointRecord {
    pub ssid: String,
    pub signal_strength: u8,
    pub channel: u8,
}

/// The channel hint taken from a pre-association scan: the channel of the
/// first scan record whose identifier matches the target network, if any.
/// The hint narrows association time but is not required for correctness.
pub open spec fn spec_channel_hint(scan: Seq<AccessPointRecord>, target: Seq<char>) -> Option<u8>
    decreases scan.len(),
{
    if scan.len() == 0 {
        None
    } else if scan[0].ssid@ == target {
        Some(scan[0].channel)
    } else {
        spec_channel_hint(scan.drop_first(), target)
    }
}

/// A hint is reported exactly when some scan record matches the target, and
/// it is the channel of the first such record.
pub proof fn lemma_channel_hint(scan: Seq<AccessPointRecord>, target: Seq<char>)
    ensures
        spec_channel_hint(scan, target) is None <==> (forall|i: int|
            0 <= i < scan.len() ==> scan[i].ssid@ != target),
        spec_channel_hint(scan, target) matches Some(c) ==> exists|i: int|
            0 <= i < scan.len() && scan[i].ssid@ == target && scan[i].channel == c && (forall|j:
            int| 0 <= j < i ==> scan[j].ssid@ != target),
    decreases scan.len(),
{
    if scan.len() == 0 {
    } else if scan[0].ssid@ == target {
        assert(scan[0].ssid@ == target);
    } else {
        lemma_channel_hint(scan.drop_first(), target);
        let rest = scan.drop_first();
        assert(forall|i: int| 0 <= i < rest.len() ==> rest[i] == scan[i + 1]);
        if spec_channel_hint(scan, target) is None {
            assert forall|i: int| 1 <= i < scan.len() implies scan[i].ssid@ != target by {
                assert(rest[i - 1] == scan[i]);
            }
        }
        if spec_channel_hint(rest, target) is Some {
            let c = spec_channel_hint(rest, target).unwrap();
            let i = choose|i: int|
                0 <= i < rest.len() && rest[i].ssid@ == target && rest[i].channel == c && (forall|
                j: int| 0 <= j < i ==> rest[j].ssid@ != target);
            assert(scan[i + 1].ssid@ == target && scan[i + 1].channel == c);
            assert forall|j: int| 0 <= j < i + 1 implies scan[j].ssid@ != target by {
                if j > 0 {
                    assert(rest[j - 1] == scan[j]);
                }
            }
        }
    }
}

/// Derives the channel hint from a scan result.
pub fn channel_hint(scan: &Vec<AccessPointRecord>, target: &String) -> (r: Option<u8>)
    ensures
        r == spec_channel_hint(scan@, target@),
        r is None <==> (forall|i: int| 0 <= i < scan@.len() ==> scan@[i].ssid@ != target@),
        r matches Some(c) ==> exists|i: int|
            0 <= i < scan@.len() && scan@[i].ssid@ == target@ && scan@[i].channel == c && (forall|
            j: int| 0 <= j < i ==> scan@[j].ssid@ != target@),
{
    proof {
        lemma_channel_hint(scan@, target@);
    }
    let mut i: usize = 0;
    assert(scan@.skip(0) =~= scan@);
    while i < scan.len()
        invariant
            0 <= i <= scan@.len(),
            spec_channel_hint(scan@, target@) == spec_channel_hint(
                scan@.skip(i as int),
                target@,
            ),
        decreases scan@.len() - i,
    {
        assert(scan@.skip(i as int)[0] == scan@[i as int]);
        if scan[i].ssid == *target {
            proof {
                lemma_channel_hint(scan@, target@);
            }
            return Some(scan[i].channel);
        }
        assert(scan@.skip(i as int).drop_first() =~= scan@.skip(i as int + 1));
        i = i + 1;
    }
    assert(scan@.skip(i as int) =~= Seq::<AccessPointRecord>::empty());
    None
}

/// The reachability rule: association counts as routable only when at least
/// one probe to the gateway came back. Partial loss is tolerated; losing
/// every probe means the device associated but cannot actually route.
pub open spec fn probe_reachable(received: u32) -> bool {
    received >= 1
}

/// The verdict on one reachability probe round.
pub fn probe_verdict(transmitted: u32, received: u32) -> (r: Result<(), ConnectError>)
    ensures
        r == if probe_reachable(received) {
            Result::<(), ConnectError>::Ok(())
        } else {
            Result::<(), ConnectError>::Err(ConnectError::GatewayUnreachable)
        },
{
    if received >= 1 {
        Ok(())
    } else {
        Err(ConnectError::GatewayUnreachable)
    }
}

/// The phases of one connection attempt. A phase names the next driver
/// operation the controller is waiting on; `Complete` is terminal.
#[derive(Clone, Copy, Debug)]
pub enum ControllerPhase {
    /// About to ask the driver for a pre-association scan.
    Scanning,
    /// About to hand the driver a client configuration, with the channel
    /// hint the scan produced.
    Configuring { hint: Option<u8> },
    /// Polling the driver once per tick until the status settles;
    /// `elapsed` counts the polls already answered.
    Waiting { elapsed: u32 },
    /// The status settled on a fully-resolved connection; about to probe
    /// the gateway.
    Probing { address: AddressInfo },
    /// Terminal: the attempt ended, successfully or not.
    Complete { result: Result<AddressInfo, ConnectError> },
}

/// One answer from the driver, matching the operation the phase asked for.
pub enum DriverEvent {
    ScanDone(Vec<AccessPointRecord>),
    Configured,
    Polled(ConnectionState),
    Probed { transmitted: u32, received: u32 },
}

/// The connection controller's transition function, pure over phase and
/// driver event. The rules, in phase order:
/// - a scan result fixes the channel hint for the client configuration;
/// - once configured, the controller polls, once per tick, up to
///   `timeout_ticks` polls: a poll that is still transitional either keeps
///   waiting or, on the last allowed tick, times the attempt out;
/// - a settled status succeeds only as `Connected` with full address
///   information; any other settled status is `UnexpectedStatus`;
/// - the probe round then decides between success and `GatewayUnreachable`.
/// An event that does not answer the phase's pending operation leaves the
/// phase unchanged.
pub open spec fn spec_step(
    phase: ControllerPhase,
    event: DriverEvent,
    target: Seq<char>,
    timeout_ticks: u32,
) -> ControllerPhase {
    match (phase, event) {
        (ControllerPhase::Scanning, DriverEvent::ScanDone(records)) => ControllerPhase::Configuring {
            hint: spec_channel_hint(records@, target),
        },
        (ControllerPhase::Configuring { .. }, DriverEvent::Configured) => ControllerPhase::Waiting {
            elapsed: 0,
        },
        (ControllerPhase::Waiting { elapsed }, DriverEvent::Polled(status)) => if status.spec_is_transitional() {
            if elapsed as int + 1 >= timeout_ticks as int {
                ControllerPhase::Complete { result: Err(ConnectError::Timeout) }
            } else {
                ControllerPhase::Waiting { elapsed: (elapsed + 1) as u32 }
            }
        } else {
            match status {
                ConnectionState::Connected(address) => ControllerPhase::Probing { address },
                _ => ControllerPhase::Complete { result: Err(ConnectError::UnexpectedStatus) },
            }
        },
        (ControllerPhase::Probing { address }, DriverEvent::Probed { transmitted, received }) => ControllerPhase::Complete {
            result: if probe_reachable(received) {
                Ok(address)
            } else {
                Err(ConnectError::GatewayUnreachable)
            },
        },
        _ => phase,
    }
}

/// Advances the controller by one driver event.
pub fn step(
    phase: ControllerPhase,
    event: DriverEvent,
    target: &String,
    timeout_ticks: u32,
) -> (next: ControllerPhase)
    ensures
        next == spec_step(phase, event, target@, timeout_ticks),
{
    match (phase, event) {
        (ControllerPhase::Scanning, DriverEvent::ScanDone(records)) => ControllerPhase::Configuring {
            hint: channel_hint(&records, target),
        },
        (ControllerPhase::Configuring { .. }, DriverEvent::Configured) => ControllerPhase::Waiting {
            elapsed: 0,
        },
        (ControllerPhase::Waiting { elapsed }, DriverEvent::Polled(status)) => {
            if status.is_transitional() {
                if elapsed as u64 + 1 >= timeout_ticks as u64 {
                    ControllerPhase::Complete { result: Err(ConnectError::Timeout) }
                } else {
                    ControllerPhase::Waiting { elapsed: elapsed + 1 }
                }
            } else {
                match status {
                    ConnectionState::Connected(address) => ControllerPhase::Probing { address },
                    _ => ControllerPhase::Complete {
                        result: Err(ConnectError::UnexpectedStatus),
                    },
                }
            }
        },
        (ControllerPhase::Probing { address }, DriverEvent::Probed { transmitted, received }) => {
            ControllerPhase::Complete {
                result: match probe_verdict(transmitted, received) {
                    Ok(_) => Ok(address),
                    Err(e) => Err(e),
                },
            }
        },
        (other, _) => other,
    }
}

/// How a driver answers one full connection attempt: the pre-association
/// scan result, the status each poll reports (one entry per tick), and how
/// the reachability probe round comes out.
pub struct DriverScript {
    pub scan: Vec<AccessPointRecord>,
    pub statuses: Vec<ConnectionState>,
    pub probe_transmitted: u32,
    pub probe_received: u32,
}

/// Every poll before tick `k` still reported a transitional status.
pub open spec fn all_transitional_before(statuses: Seq<ConnectionState>, k: int) -> bool {
    forall|i: int| 0 <= i < k ==> statuses[i].spec_is_transitional()
}

/// What a full connection attempt must conclude from the polled statuses:
/// - a status that never settles within the deadline is a timeout, with no
///   probe sent;
/// - if the first settled status is a fully-resolved connection, exactly
///   one probe round runs and decides between success and an unreachable
///   gateway;
/// - any other settled status fails as unexpected, with no probe sent.
pub open spec fn controller_verdict(
    statuses: Seq<ConnectionState>,
    probe_received: u32,
    timeout: int,
    result: Result<AddressInfo, ConnectError>,
    probes: u32,
) -> bool {
    &&& (all_transitional_before(statuses, timeout) ==> result == Err::<
        AddressInfo,
        ConnectError,
    >(ConnectError::Timeout) && probes == 0)
    &&& (forall|k: int|
        (0 <= k < timeout && #[trigger] all_transitional_before(statuses, k) && statuses[k]
            is Connected) ==> probes == 1 && result == (if probe_reachable(probe_received) {
            Ok::<AddressInfo, ConnectError>(statuses[k]->Connected_0)
        } else {
            Err::<AddressInfo, ConnectError>(ConnectError::GatewayUnreachable)
        }))
    &&& (forall|k: int|
        (0 <= k < timeout && #[trigger] all_transitional_before(statuses, k)
            && !statuses[k].spec_is_transitional() && !(statuses[k] is Connected)) ==> probes == 0
            && result == Err::<AddressInfo, ConnectError>(ConnectError::UnexpectedStatus))
}

/// Ranks phases so that each transition of the drive loop goes down.
spec fn phase_rank(phase: ControllerPhase, timeout_ticks: u32) -> int {
    match phase {
        ControllerPhase::Scanning => timeout_ticks as int + 4,
        ControllerPhase::Configuring { .. } => timeout_ticks as int + 3,
        ControllerPhase::Waiting { elapsed } => 2 + (timeout_ticks as int - elapsed as int),
        ControllerPhase::Probing { .. } => 1,
        ControllerPhase::Complete { .. } => 0,
    }
}

/// One full connection attempt: scan, configure, poll until the status
/// settles or the deadline passes, then probe the gateway if and only if
/// association fully resolved. The script stands for the driver; it must
/// answer at least one poll per allowed tick. The result pairs the outcome
/// with the number of probe rounds that were sent.
pub fn connect(target: &String, timeout_ticks: u32, script: DriverScript) -> (r: (
    Result<AddressInfo, ConnectError>,
    u32,
))
    requires
        timeout_ticks >= 1,
        script.statuses@.len() >= timeout_ticks,
    ensures
        controller_verdict(script.statuses@, script.probe_received, timeout_ticks as int, r.0, r.1),
{
    let DriverScript { scan, statuses: polls, probe_transmitted, probe_received } = script;
    let ghost statuses = polls@;
    let mut phase = step(
        ControllerPhase::Scanning,
        DriverEvent::ScanDone(scan),
        target,
        timeout_ticks,
    );
    phase = step(phase, DriverEvent::Configured, target, timeout_ticks);
    let mut probes: u32 = 0;
    let ghost mut settle: int = 0;
    loop
        invariant
            polls@ == statuses,
            statuses == script.statuses@,
            probe_received == script.probe_received,
            statuses.len() >= timeout_ticks,
            timeout_ticks >= 1,
            phase is Waiting || phase is Probing || phase is Complete,
            phase matches ControllerPhase::Waiting { elapsed } ==> elapsed < timeout_ticks
                && all_transitional_before(statuses, elapsed as int) && probes == 0,
            phase matches ControllerPhase::Probing { address } ==> ({
                &&& 0 <= settle < timeout_ticks
                &&& all_transitional_before(statuses, settle)
                &&& statuses[settle] == ConnectionState::Connected(address)
                &&& probes == 0
            }),
            phase matches ControllerPhase::Complete { result } ==> controller_verdict(
                statuses,
                probe_received,
                timeout_ticks as int,
                result,
                probes,
            ),
        decreases phase_rank(phase, timeout_ticks),
    {
        match phase {
            ControllerPhase::Waiting { elapsed } => {
                let status = polls[elapsed as usize];
                phase = step(phase, DriverEvent::Polled(status), target, timeout_ticks);
                proof {
                    if status.spec_is_transitional() {
                        assert forall|i: int| 0 <= i < elapsed as int + 1 implies
                            statuses[i].spec_is_transitional() by {
                            if i == elapsed as int {
                                assert(statuses[i] == status);
                            }
                        }
                        if elapsed as int + 1 >= timeout_ticks as int {
                            assert(all_transitional_before(statuses, timeout_ticks as int));
                            assert forall|k: int|
                                0 <= k < timeout_ticks as int implies
                                statuses[k].spec_is_transitional() by {}
                        }
                    } else {
                        settle = elapsed as int;
                        assert(!statuses[settle].spec_is_transitional());
                        if !(status is Connected) {
                            assert forall|k: int|
                                (0 <= k < timeout_ticks as int && all_transitional_before(
                                    statuses,
                                    k,
                                ) && !statuses[k].spec_is_transitional()) implies k == settle by {
                                if k < settle {
                                    assert(statuses[k].spec_is_transitional());
                                } else if k > settle {
                                    assert(statuses[settle].spec_is_transitional());
                                }
                            }
                            assert(!all_transitional_before(statuses, timeout_ticks as int)) by {
                                assert(!statuses[settle].spec_is_transitional());
                            }
                            assert forall|k: int|
                                (0 <= k < timeout_ticks as int && all_transitional_before(
                                    statuses,
                                    k,
                                ) && statuses[k] is Connected) implies false by {
                                assert(!statuses[k].spec_is_transitional());
                            }
                        }
                    }
                }
            },
            ControllerPhase::Probing { address } => {
                probes = probes + 1;
                phase = step(
                    phase,
                    DriverEvent::Probed { transmitted: probe_transmitted, received: probe_received },
                    target,
                    timeout_ticks,
                );
                proof {
                    assert(!all_transitional_before(statuses, timeout_ticks as int)) by {
                        assert(!statuses[settle].spec_is_transitional());
                    }
                    assert forall|k: int|
                        (0 <= k < timeout_ticks as int && all_transitional_before(statuses, k)
                            && !statuses[k].spec_is_transitional()) implies k == settle by {
                        if k < settle {
                            assert(statuses[k].spec_is_transitional());
                        } else if k > settle {
                            assert(statuses[settle].spec_is_transitional());
                        }
                    }
                }
            },
            ControllerPhase::Complete { result } => {
                return (result, probes);
            },
            ControllerPhase::Scanning | ControllerPhase::Configuring { .. } => {
                // excluded by the loop invariant
                proof {
                    assert(false);
                }
                return (Err(ConnectError::Timeout), probes);
            },
        }
    }
}

} // verus!
