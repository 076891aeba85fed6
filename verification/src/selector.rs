use vstd::prelude::*;

use crate::connection::AccessPointRecord;
use crate::connection::AddressInfo;
use crate::connection::ConnectError;
use crate::connection::DriverScript;
use crate::connection::connect;
use crate::connection::controller_verdict;
use crate::credential::Credential;
use crate::credential::load;
use crate::credential::provisioned;
use crate::indicator::IndicatorPhase;
use crate::provisioning::provisioning_pass;

verus! {

/// Why the boot sequence aborted. Fatal errors abort the boot entirely:
/// there is no retry and no supervised restart loop in this core.
#[derive(Clone, Copy, PartialEq, Eq, Structural, Debug)]
pub enum BootError {
    /// The provisioning window closed and the store still held no usable
    /// credential: a fatal configuration error — the device must not spin
    /// forever with no escape.
    NotProvisioned,
    /// The connection attempt ended in a terminal failure, with its
    /// reason.
    Connect(ConnectError),
}

/// The mode the device enters after reading the credential store at boot.
pub enum Mode {
    /// No usable credential is stored: enter the time-boxed provisioning
    /// mode.
    Provision,
    /// A credential is known: connect with it.
    Connect(Credential),
}

/// Branches on the stored credential: provisioning when none is usable,
/// otherwise a direct connection with it.
pub fn select_mode(stored: Option<Credential>) -> (m: Mode)
    ensures
        stored is None ==> m is Provision,
        stored matches Some(c) ==> (m matches Mode::Connect(c2) && c2 == c),
{
    match stored {
        Some(c) => Mode::Connect(c),
        None => Mode::Provision,
    }
}

/// The indicator phases one boot runs through, in order: always idle
/// first, provisioning only when no credential was stored, connecting
/// only when a credential was resolved, connected only on success.
pub open spec fn phase_trace(
    ran_provisioning: bool,
    attempted_connection: bool,
    connected: bool,
) -> Seq<IndicatorPhase> {
    seq![IndicatorPhase::Idle] + (if ran_provisioning {
        seq![IndicatorPhase::ProvisioningPending]
    } else {
        Seq::empty()
    }) + (if attempted_connection {
        seq![IndicatorPhase::Connecting]
    } else {
        Seq::empty()
    }) + (if connected {
        seq![IndicatorPhase::Connected]
    } else {
        Seq::empty()
    })
}

/// The connection-level reading of a boot outcome, where there is one.
pub open spec fn as_connect_result(r: Result<AddressInfo, BootError>) -> Option<
    Result<AddressInfo, ConnectError>,
> {
    match r {
        Ok(a) => Some(Ok(a)),
        Err(BootError::Connect(e)) => Some(Err(e)),
        Err(BootError::NotProvisioned) => None,
    }
}

/// Everything one boot decided and did.
pub struct BootReport {
    /// The address information of the established connection, or the
    /// fatal error that aborted the boot.
    pub outcome: Result<AddressInfo, BootError>,
    /// Whether the provisioning orchestrator ran.
    pub ran_provisioning: bool,
    /// The credential handed to the connection controller, if one was
    /// resolved.
    pub used: Option<Credential>,
    /// Whether a connection attempt was made at all.
    pub attempted_connection: bool,
    /// How many reachability probe rounds were sent.
    pub probes: u32,
    /// The indicator phases, in the order they were shown.
    pub phases: Vec<IndicatorPhase>,
}

/// One whole boot: read the credential store; when it holds no usable
/// credential, run the provisioning pass and re-read; with a resolved
/// credential drive one bounded connection attempt; with none, abort —
/// a connection is never attempted without a credential. The driver
/// script stands for the radio driver, `window_scans` for what the
/// provisioning window's refresh loop would observe, and the `after_*`
/// entries for the store's contents once the window has expired.
pub fn boot_sequence(
    stored_network_id: Option<String>,
    stored_secret: Option<String>,
    window_scans: &Vec<Vec<AccessPointRecord>>,
    after_network_id: Option<String>,
    after_secret: Option<String>,
    script: DriverScript,
    timeout_ticks: u32,
) -> (r: BootReport)
    requires
        timeout_ticks >= 1,
        script.statuses@.len() >= timeout_ticks,
    ensures
        r.ran_provisioning == !provisioned(stored_network_id, stored_secret),
        provisioned(stored_network_id, stored_secret) ==> (r.used matches Some(c)
            && c.network_id@ == stored_network_id.unwrap()@ && c.secret@
            == stored_secret.unwrap()@),
        (!provisioned(stored_network_id, stored_secret) && provisioned(
            after_network_id,
            after_secret,
        )) ==> (r.used matches Some(c) && c.network_id@ == after_network_id.unwrap()@ && c.secret@
            == after_secret.unwrap()@),
        (!provisioned(stored_network_id, stored_secret) && !provisioned(
            after_network_id,
            after_secret,
        )) ==> r.used is None,
        r.used matches Some(c) ==> c.wf(),
        r.attempted_connection <==> r.used is Some,
        !r.attempted_connection ==> r.outcome == Err::<AddressInfo, BootError>(
            BootError::NotProvisioned,
        ) && r.probes == 0,
        r.attempted_connection ==> (as_connect_result(r.outcome) matches Some(cr)
            && controller_verdict(
            script.statuses@,
            script.probe_received,
            timeout_ticks as int,
            cr,
            r.probes,
        )),
        r.phases@ == phase_trace(r.ran_provisioning, r.attempted_connection, r.outcome is Ok),
{
    let mut phases: Vec<IndicatorPhase> = Vec::new();
    phases.push(IndicatorPhase::Idle);
    let stored = load(stored_network_id, stored_secret);
    let ran_provisioning = stored.is_none();
    let used: Option<Credential> = match select_mode(stored) {
        Mode::Connect(c) => Some(c),
        Mode::Provision => {
            phases.push(IndicatorPhase::ProvisioningPending);
            let (discovered, found) = provisioning_pass(
                window_scans,
                after_network_id,
                after_secret,
            );
            // the discovery set lives only for the provisioning session
            let _ = discovered;
            found
        },
    };
    match used {
        Some(c) => {
            phases.push(IndicatorPhase::Connecting);
            let (result, probes) = connect(&c.network_id, timeout_ticks, script);
            let outcome: Result<AddressInfo, BootError> = match result {
                Ok(a) => {
                    phases.push(IndicatorPhase::Connected);
                    Ok(a)
                },
                Err(e) => Err(BootError::Connect(e)),
            };
            let r = BootReport {
                outcome,
                ran_provisioning,
                used: Some(c),
                attempted_connection: true,
                probes,
                phases,
            };
            proof {
                assert(r.phases@ =~= phase_trace(
                    r.ran_provisioning,
                    r.attempted_connection,
                    r.outcome is Ok,
                ));
            }
            r
        },
        None => {
            let r = BootReport {
                outcome: Err(BootError::NotProvisioned),
                ran_provisioning,
                used: None,
                attempted_connection: false,
                probes: 0,
                phases,
            };
            proof {
                assert(r.phases@ =~= phase_trace(
                    r.ran_provisioning,
                    r.attempted_connection,
                    r.outcome is Ok,
                ));
            }
            r
        },
    }
}

} // verus!
