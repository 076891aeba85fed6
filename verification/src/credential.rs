use vstd::prelude::*;

verus! {

/// A network credential: the identifier of the network to join and the
/// secret that authorises joining it. The two parts are persisted as two
/// independent entries in non-volatile storage and read back at boot.
pub struct Credential {
    pub network_id: String,
    pub secret: String,
}

impl Credential {
    /// A credential is usable only when both of its parts are non-empty.
    pub open spec fn wf(&self) -> bool {
        self.network_id@.len() > 0 && self.secret@.len() > 0
    }
}

/// The two storage entries amount to a provisioned device exactly when
/// both are present and non-empty.
pub open spec fn provisioned(network_id: Option<String>, secret: Option<String>) -> bool {
    &&& network_id is Some
    &&& network_id.unwrap()@.len() > 0
    &&& secret is Some
    &&& secret.unwrap()@.len() > 0
}

/// The decision behind the credential store's `load`: given the raw contents
/// of the two storage entries, a credential is reported only when both
/// entries are present and non-empty. A missing or empty entry of either
/// kind means "unprovisioned" — the device fails open to provisioning mode,
/// never to a half-configured connection attempt.
pub fn load(network_id: Option<String>, secret: Option<String>) -> (r: Option<Credential>)
    ensures
        r is Some <==> provisioned(network_id, secret),
        r is Some ==> r.unwrap().network_id@ == network_id.unwrap()@
            && r.unwrap().secret@ == secret.unwrap()@,
        r is Some ==> r.unwrap().wf(),
{
    match (network_id, secret) {
        (Some(n), Some(s)) => {
            if n.as_str().is_empty() || s.as_str().is_empty() {
                None
            } else {
                Some(Credential { network_id: n, secret: s })
            }
        },
        _ => None,
    }
}

} // verus!
