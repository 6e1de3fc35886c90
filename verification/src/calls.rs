use vstd::prelude::*;

use crate::error::CertificateError;
use crate::state::RegistryState;

verus! {

/// A mutating call to the registry, as a value: its arguments, each text as
/// its characters, and the ledger time at which it is made.
pub enum Call {
    Issue { id: Seq<char>, issuer: Seq<char>, owner: Seq<char>, metadata_uri: Seq<char>, now: u64 },
    Revoke { id: Seq<char>, reason: Seq<char>, now: u64 },
    Initiate {
        transfer_id: Seq<char>,
        certificate_id: Seq<char>,
        from: Seq<char>,
        to: Seq<char>,
        require_revocation: bool,
        transfer_fee: u64,
        memo: Option<Seq<char>>,
        now: u64,
    },
    Accept { transfer_id: Seq<char>, recipient: Seq<char>, now: u64 },
    Reject { transfer_id: Seq<char>, recipient: Seq<char>, now: u64 },
    Cancel { transfer_id: Seq<char>, sender: Seq<char>, now: u64 },
    Complete { transfer_id: Seq<char>, executor: Seq<char>, now: u64 },
}

impl Call {
    /// The ledger time at which the call is made.
    pub open spec fn time(self) -> u64 {
        match self {
            Call::Issue { now, .. } => now,
            Call::Revoke { now, .. } => now,
            Call::Initiate { now, .. } => now,
            Call::Accept { now, .. } => now,
            Call::Reject { now, .. } => now,
            Call::Cancel { now, .. } => now,
            Call::Complete { now, .. } => now,
        }
    }

    /// The transfer that the call names, if it names one.
    pub open spec fn transfer_named(self) -> Option<Seq<char>> {
        match self {
            Call::Issue { .. } => None,
            Call::Revoke { .. } => None,
            Call::Initiate { transfer_id, .. } => Some(transfer_id),
            Call::Accept { transfer_id, .. } => Some(transfer_id),
            Call::Reject { transfer_id, .. } => Some(transfer_id),
            Call::Cancel { transfer_id, .. } => Some(transfer_id),
            Call::Complete { transfer_id, .. } => Some(transfer_id),
        }
    }
}

impl RegistryState {
    /// Whether the call succeeds on this registry, and the error if not.
    pub open spec fn check(self, call: Call) -> Result<(), CertificateError> {
        match call {
            Call::Issue { id, .. } => self.issue_check(id),
            Call::Revoke { id, .. } => self.revoke_check(id),
            Call::Initiate { transfer_id, certificate_id, from, to, .. } => self.initiate_check(
                transfer_id,
                certificate_id,
                from,
                to,
            ),
            Call::Accept { transfer_id, recipient, .. } => self.answer_check(
                transfer_id,
                recipient,
            ),
            Call::Reject { transfer_id, recipient, .. } => self.answer_check(
                transfer_id,
                recipient,
            ),
            Call::Cancel { transfer_id, sender, .. } => self.cancel_check(transfer_id, sender),
            Call::Complete { transfer_id, executor, .. } => self.complete_check(
                transfer_id,
                executor,
            ),
        }
    }

    /// The registry after the call: changed as the call says where it
    /// succeeds, unchanged where it fails.
    pub open spec fn after(self, call: Call) -> RegistryState {
        if self.check(call) is Err {
            self
        } else {
            match call {
                Call::Issue { id, issuer, owner, metadata_uri, now } => self.issue(
                    id,
                    issuer,
                    owner,
                    metadata_uri,
                    now,
                ),
                Call::Revoke { id, reason, now } => self.revoke(id, reason, now),
                Call::Initiate {
                    transfer_id,
                    certificate_id,
                    from,
                    to,
                    require_revocation,
                    transfer_fee,
                    memo,
                    now,
                } => self.initiate(
                    transfer_id,
                    certificate_id,
                    from,
                    to,
                    require_revocation,
                    transfer_fee,
                    memo,
                    now,
                ),
                Call::Accept { transfer_id, now, .. } => self.accept(transfer_id, now),
                Call::Reject { transfer_id, .. } => self.reject(transfer_id),
                Call::Cancel { transfer_id, .. } => self.cancel(transfer_id),
                Call::Complete { transfer_id, now, .. } => self.complete(transfer_id, now),
            }
        }
    }

    /// The registry after a sequence of calls, made in order.
    pub open spec fn after_all(self, calls: Seq<Call>) -> RegistryState
        decreases calls.len(),
    {
        if calls.len() == 0 {
            self
        } else {
            self.after_all(calls.drop_last()).after(calls.last())
        }
    }

    /// How many of the calls, made in order on this registry, are
    /// initiations that succeed.
    pub open spec fn initiations(self, calls: Seq<Call>) -> nat
        decreases calls.len(),
    {
        if calls.len() == 0 {
            0
        } else {
            let earlier = self.initiations(calls.drop_last());
            let state = self.after_all(calls.drop_last());
            if calls.last() is Initiate && state.check(calls.last()) is Ok {
                earlier + 1
            } else {
                earlier
            }
        }
    }
}

/// The calls are made at times that never go back, as a ledger clock gives
/// them.
pub open spec fn in_time_order(calls: Seq<Call>) -> bool {
    forall|i: int, j: int|
        0 <= i <= j < calls.len() ==> (#[trigger] calls[i]).time() <= (#[trigger] calls[j]).time()
}

} // verus!
