use vstd::prelude::*;

use crate::calls::{in_time_order, Call};
use crate::error::CertificateError;
use crate::state::RegistryState;
use crate::transfer::TransferStatus;

verus! {

/// A well-formed registry is well formed after any call, whether the call
/// succeeds or fails.
pub proof fn law_call_keeps_well_formed(state: RegistryState, call: Call)
    requires
        state.wf(),
    ensures
        state.after(call).wf(),
{
    if state.check(call) is Ok {
        match call {
            Call::Issue { id, issuer, owner, metadata_uri, now } => {
                state.lemma_issue_wf(id, issuer, owner, metadata_uri, now);
            },
            Call::Revoke { id, reason, now } => {
                state.lemma_revoke_wf(id, reason, now);
            },
            Call::Initiate {
                transfer_id,
                certificate_id,
                from,
                to,
                require_revocation,
                transfer_fee,
                memo,
                now,
            } => {
                state.lemma_initiate_wf(
                    transfer_id,
                    certificate_id,
                    from,
                    to,
                    require_revocation,
                    transfer_fee,
                    memo,
                    now,
                );
            },
            Call::Accept { transfer_id, now, .. } => {
                state.lemma_settle_wf(transfer_id, state.transfers[transfer_id].accepted(now));
            },
            Call::Reject { transfer_id, .. } => {
                state.lemma_settle_wf(transfer_id, state.transfers[transfer_id].rejected());
            },
            Call::Cancel { transfer_id, .. } => {
                state.lemma_settle_wf(transfer_id, state.transfers[transfer_id].cancelled());
            },
            Call::Complete { transfer_id, executor, now } => {
                state.lemma_complete_wf(transfer_id, executor, now);
            },
        }
    }
}

/// A well-formed registry is well formed after any sequence of calls; so is
/// the registry that any sequence of calls builds from nothing.
pub proof fn law_calls_keep_well_formed(state: RegistryState, calls: Seq<Call>)
    requires
        state.wf(),
    ensures
        state.after_all(calls).wf(),
        RegistryState::empty().after_all(calls).wf(),
    decreases calls.len(),
{
    RegistryState::lemma_empty_wf();
    if calls.len() > 0 {
        law_calls_keep_well_formed(state, calls.drop_last());
        law_call_keeps_well_formed(state.after_all(calls.drop_last()), calls.last());
        law_call_keeps_well_formed(
            RegistryState::empty().after_all(calls.drop_last()),
            calls.last(),
        );
    }
}

/// No call takes a revocation back: a certificate that is revoked is still
/// kept, and still revoked, after any call.
pub proof fn law_call_keeps_revoked(state: RegistryState, call: Call, id: Seq<char>)
    requires
        state.certificates.contains_key(id),
        state.certificates[id].revoked,
    ensures
        state.after(call).certificates.contains_key(id),
        state.after(call).certificates[id].revoked,
{
}

/// A certificate's `revoked` flag goes from false to true at most once: once
/// it is revoked it stays revoked through any sequence of calls, and any later
/// attempt to revoke it fails with `AlreadyRevoked`.
pub proof fn law_revoked_once(state: RegistryState, calls: Seq<Call>, id: Seq<char>)
    requires
        state.certificates.contains_key(id),
        state.certificates[id].revoked,
    ensures
        state.after_all(calls).certificates.contains_key(id),
        state.after_all(calls).certificates[id].revoked,
        state.after_all(calls).revoke_check(id) == Err::<(), CertificateError>(
            CertificateError::AlreadyRevoked,
        ),
    decreases calls.len(),
{
    if calls.len() > 0 {
        law_revoked_once(state, calls.drop_last(), id);
        law_call_keeps_revoked(state.after_all(calls.drop_last()), calls.last(), id);
    }
}

/// After a successful revocation, whatever calls follow, a second revocation
/// of the same certificate fails with `AlreadyRevoked`.
pub proof fn law_second_revoke_fails(
    state: RegistryState,
    id: Seq<char>,
    reason: Seq<char>,
    now: u64,
    calls: Seq<Call>,
)
    requires
        state.revoke_check(id) is Ok,
    ensures
        state.revoke(id, reason, now).after_all(calls).revoke_check(id) == Err::<
            (),
            CertificateError,
        >(CertificateError::AlreadyRevoked),
{
    law_revoked_once(state.revoke(id, reason, now), calls, id);
}

/// One call moves a transfer at most one transition along its path, and never
/// touches what identifies it; a transfer that a call creates is `Pending`.
pub proof fn law_call_steps_status(state: RegistryState, call: Call, transfer_id: Seq<char>)
    ensures
        state.transfers.contains_key(transfer_id) ==> {
            let before = state.transfers[transfer_id];
            let after = state.after(call).transfers[transfer_id];
            &&& state.after(call).transfers.contains_key(transfer_id)
            &&& before.status.steps_to(after.status)
            &&& after.id == before.id
            &&& after.certificate_id == before.certificate_id
            &&& after.from_address == before.from_address
            &&& after.to_address == before.to_address
            &&& after.initiated_at == before.initiated_at
            &&& after.require_revocation == before.require_revocation
            &&& after.transfer_fee == before.transfer_fee
            &&& after.memo == before.memo
        },
        !state.transfers.contains_key(transfer_id) && state.after(call).transfers.contains_key(
            transfer_id,
        ) ==> state.after(call).transfers[transfer_id].status == TransferStatus::Pending,
{
}

/// Through any sequence of calls a transfer's status only moves forward along
/// one of the two paths: from `Pending` to `Accepted` to `Completed`, or from
/// `Pending` to `Rejected` or `Cancelled`. The transfer is never removed, and
/// its certificate and endpoints stay as they were.
pub proof fn law_status_moves_forward(
    state: RegistryState,
    calls: Seq<Call>,
    transfer_id: Seq<char>,
)
    requires
        state.transfers.contains_key(transfer_id),
    ensures
        state.after_all(calls).transfers.contains_key(transfer_id),
        state.transfers[transfer_id].status.leads_to(
            state.after_all(calls).transfers[transfer_id].status,
        ),
        state.after_all(calls).transfers[transfer_id].certificate_id
            == state.transfers[transfer_id].certificate_id,
        state.after_all(calls).transfers[transfer_id].from_address
            == state.transfers[transfer_id].from_address,
        state.after_all(calls).transfers[transfer_id].to_address
            == state.transfers[transfer_id].to_address,
    decreases calls.len(),
{
    if calls.len() > 0 {
        law_status_moves_forward(state, calls.drop_last(), transfer_id);
        law_call_steps_status(state.after_all(calls.drop_last()), calls.last(), transfer_id);
    }
}

/// A transfer in a terminal status accepts no further call: every call that
/// names it fails, and no call changes its record.
pub proof fn law_terminal_is_final(state: RegistryState, call: Call, transfer_id: Seq<char>)
    requires
        state.transfers.contains_key(transfer_id),
        state.transfers[transfer_id].status.terminal(),
    ensures
        call.transfer_named() == Some(transfer_id) ==> state.check(call) is Err,
        state.after(call).transfers.contains_key(transfer_id),
        state.after(call).transfers[transfer_id] == state.transfers[transfer_id],
{
}

/// A transfer in a terminal status keeps its record through any sequence of
/// calls.
pub proof fn law_terminal_stays(state: RegistryState, calls: Seq<Call>, transfer_id: Seq<char>)
    requires
        state.transfers.contains_key(transfer_id),
        state.transfers[transfer_id].status.terminal(),
    ensures
        state.after_all(calls).transfers.contains_key(transfer_id),
        state.after_all(calls).transfers[transfer_id] == state.transfers[transfer_id],
    decreases calls.len(),
{
    if calls.len() > 0 {
        law_terminal_stays(state, calls.drop_last(), transfer_id);
        law_terminal_is_final(state.after_all(calls.drop_last()), calls.last(), transfer_id);
    }
}

/// Completion is open to a transfer that is exactly `Accepted` and to no
/// other: an unknown transfer is refused with `TransferNotFound`, and one that
/// is `Pending`, `Rejected`, `Cancelled` or already `Completed` with
/// `InvalidTransferStatus`.
pub proof fn law_complete_needs_accepted(
    state: RegistryState,
    transfer_id: Seq<char>,
    executor: Seq<char>,
)
    ensures
        !state.transfers.contains_key(transfer_id) ==> state.complete_check(transfer_id, executor)
            == Err::<(), CertificateError>(CertificateError::TransferNotFound),
        state.transfers.contains_key(transfer_id) && state.transfers[transfer_id].status
            != TransferStatus::Accepted ==> state.complete_check(transfer_id, executor) == Err::<
            (),
            CertificateError,
        >(CertificateError::InvalidTransferStatus),
        state.complete_check(transfer_id, executor) is Ok ==> state.transfers.contains_key(
            transfer_id,
        ) && state.transfers[transfer_id].status == TransferStatus::Accepted,
{
}

/// After the completion of a transfer that requires revocation, the
/// certificate belongs to the recipient, is revoked, and names the sender as
/// its revoker, all three at once; without that requirement the certificate
/// still belongs to the recipient, and its revocation is as it was.
pub proof fn law_completion_hands_over(
    state: RegistryState,
    transfer_id: Seq<char>,
    executor: Seq<char>,
    now: u64,
)
    requires
        state.complete_check(transfer_id, executor) is Ok,
    ensures
        ({
            let transfer = state.transfers[transfer_id];
            let before = state.certificates[transfer.certificate_id];
            let after = state.complete(transfer_id, now).certificates[transfer.certificate_id];
            &&& after.owner == transfer.to_address
            &&& transfer.require_revocation ==> after.revoked && after.revoked_by == Some(
                transfer.from_address,
            ) && after.revoked_at == Some(now)
            &&& !transfer.require_revocation ==> after == before.owned_by(transfer.to_address)
        }),
{
}

/// In a well-formed registry the pending index of an identity is exactly the
/// set of the transfers that are pending and addressed to it, each named once.
pub proof fn law_pending_index_exact(state: RegistryState, identity: Seq<char>)
    requires
        state.wf(),
    ensures
        state.pending_of(identity).to_set() == Set::new(
            |transfer_id: Seq<char>| state.awaits(transfer_id, identity),
        ),
        state.pending_of(identity).no_duplicates(),
{
    let listed = state.pending_of(identity).to_set();
    let waiting = Set::new(|transfer_id: Seq<char>| state.awaits(transfer_id, identity));
    assert forall|transfer_id: Seq<char>| listed.contains(transfer_id) <==> waiting.contains(
        transfer_id,
    ) by {
        assert(listed.contains(transfer_id) <==> state.pending_of(identity).contains(transfer_id));
        assert(state.pending_of(identity).contains(transfer_id) <==> state.awaits(
            transfer_id,
            identity,
        ));
    }
    assert(listed =~= waiting);
}

/// After every sequence of calls on a registry that kept nothing, the pending
/// index of every identity is exactly the set of the transfers that are
/// pending and addressed to it.
pub proof fn law_pending_index_exact_after(calls: Seq<Call>, identity: Seq<char>)
    ensures
        ({
            let state = RegistryState::empty().after_all(calls);
            &&& state.pending_of(identity).to_set() == Set::new(
                |transfer_id: Seq<char>| state.awaits(transfer_id, identity),
            )
            &&& state.pending_of(identity).no_duplicates()
        }),
{
    RegistryState::lemma_empty_wf();
    law_calls_keep_well_formed(RegistryState::empty(), calls);
    law_pending_index_exact(RegistryState::empty().after_all(calls), identity);
}

/// The transfer count grows by one with each initiation that succeeds and by
/// nothing else: after any sequence of calls it is the count before plus the
/// number of successful initiations among them, whatever was accepted,
/// rejected, cancelled or completed in between.
pub proof fn law_count_is_initiations(state: RegistryState, calls: Seq<Call>)
    ensures
        state.after_all(calls).transfer_count == state.transfer_count + state.initiations(calls),
    decreases calls.len(),
{
    if calls.len() > 0 {
        law_count_is_initiations(state, calls.drop_last());
    }
}

/// After any sequence of calls on a registry that kept nothing, the transfer
/// count is the number of initiations that succeeded.
pub proof fn law_count_from_nothing(calls: Seq<Call>)
    ensures
        RegistryState::empty().after_all(calls).transfer_count == RegistryState::empty().initiations(
            calls,
        ),
{
    law_count_is_initiations(RegistryState::empty(), calls);
}

/// In a well-formed registry the transfer count is the number of transfers
/// kept, whatever their status.
pub proof fn law_count_is_transfers_kept(state: RegistryState)
    requires
        state.wf(),
    ensures
        state.transfers.dom().finite(),
        state.transfer_count == state.transfers.dom().len(),
{
}

/// A transfer id is used once for all time: whatever became of the transfer
/// that has it, and whatever calls were made since, a new initiation under
/// the same id fails with `AlreadyExists`.
pub proof fn law_transfer_id_never_reused(
    state: RegistryState,
    calls: Seq<Call>,
    transfer_id: Seq<char>,
    certificate_id: Seq<char>,
    from: Seq<char>,
    to: Seq<char>,
)
    requires
        state.transfers.contains_key(transfer_id),
    ensures
        state.after_all(calls).initiate_check(transfer_id, certificate_id, from, to) == Err::<
            (),
            CertificateError,
        >(CertificateError::AlreadyExists),
{
    law_status_moves_forward(state, calls, transfer_id);
}

/// No call removes a certificate or changes its id, issuer, metadata
/// reference or time of issuance; and its owner changes only by the
/// successful completion of a transfer of that certificate, to that
/// transfer's recipient.
pub proof fn law_call_keeps_certificate(state: RegistryState, call: Call, id: Seq<char>)
    requires
        state.certificates.contains_key(id),
    ensures
        state.after(call).certificates.contains_key(id),
        ({
            let before = state.certificates[id];
            let after = state.after(call).certificates[id];
            &&& after.id == before.id
            &&& after.issuer == before.issuer
            &&& after.metadata_uri == before.metadata_uri
            &&& after.issued_at == before.issued_at
            &&& after.owner != before.owner ==> {
                &&& call matches Call::Complete { transfer_id, .. }
                &&& state.check(call) is Ok
                &&& state.transfers[transfer_id].certificate_id == id
                &&& after.owner == state.transfers[transfer_id].to_address
            }
        }),
{
}

/// An audit trail is only ever appended to: through any sequence of calls
/// the trail of a certificate keeps every entry it had, in place.
pub proof fn law_history_only_grows(
    state: RegistryState,
    calls: Seq<Call>,
    certificate_id: Seq<char>,
)
    ensures
        state.history_of(certificate_id).is_prefix_of(
            state.after_all(calls).history_of(certificate_id),
        ),
    decreases calls.len(),
{
    if calls.len() > 0 {
        law_history_only_grows(state, calls.drop_last(), certificate_id);
        let earlier = state.after_all(calls.drop_last());
        assert(earlier.history_of(certificate_id).is_prefix_of(
            earlier.after(calls.last()).history_of(certificate_id),
        ));
    }
}

/// The transfer count never goes down.
pub proof fn law_count_never_falls(state: RegistryState, calls: Seq<Call>)
    ensures
        state.after_all(calls).transfer_count >= state.transfer_count,
{
    law_count_is_initiations(state, calls);
}

impl RegistryState {
    /// Every audit trail is in the order of its entries' completion times.
    pub open spec fn trails_in_time_order(self) -> bool {
        forall|certificate_id: Seq<char>, i: int, j: int|
            0 <= i <= j < self.history_of(certificate_id).len() ==> (#[trigger] self.history_of(
                certificate_id,
            )[i]).transferred_at <= (#[trigger] self.history_of(certificate_id)[j]).transferred_at
    }

    /// No audit entry records a completion later than `time`.
    pub open spec fn trails_end_by(self, time: u64) -> bool {
        forall|certificate_id: Seq<char>, i: int|
            0 <= i < self.history_of(certificate_id).len() ==> (#[trigger] self.history_of(
                certificate_id,
            )[i]).transferred_at <= time
    }
}

/// One call, made no earlier than any completion recorded so far, keeps every
/// audit trail in the order of completion, and records nothing later than its
/// own time.
pub proof fn law_call_keeps_trails_in_order(state: RegistryState, call: Call)
    requires
        state.trails_in_time_order(),
        state.trails_end_by(call.time()),
    ensures
        state.after(call).trails_in_time_order(),
        state.after(call).trails_end_by(call.time()),
{
    let next = state.after(call);
    assert forall|certificate_id: Seq<char>, i: int|
        0 <= i < next.history_of(certificate_id).len() implies (#[trigger] next.history_of(
        certificate_id,
    )[i]).transferred_at <= call.time() by {
        if i < state.history_of(certificate_id).len() {
            assert(next.history_of(certificate_id)[i] == state.history_of(certificate_id)[i]);
        }
    }
    assert forall|certificate_id: Seq<char>, i: int, j: int|
        0 <= i <= j < next.history_of(certificate_id).len() implies (#[trigger] next.history_of(
        certificate_id,
    )[i]).transferred_at <= (#[trigger] next.history_of(certificate_id)[j]).transferred_at by {
        if j < state.history_of(certificate_id).len() {
            assert(next.history_of(certificate_id)[i] == state.history_of(certificate_id)[i]);
            assert(next.history_of(certificate_id)[j] == state.history_of(certificate_id)[j]);
        } else if i < state.history_of(certificate_id).len() {
            assert(next.history_of(certificate_id)[i] == state.history_of(certificate_id)[i]);
        }
    }
}

/// Under a clock that never goes back, every audit trail is ordered by
/// completion time: after any sequence of calls made in time order on a
/// registry that kept nothing, the entries of each trail come with times that
/// never decrease.
pub proof fn law_history_in_completion_order(calls: Seq<Call>)
    requires
        in_time_order(calls),
    ensures
        RegistryState::empty().after_all(calls).trails_in_time_order(),
        calls.len() > 0 ==> RegistryState::empty().after_all(calls).trails_end_by(
            calls.last().time(),
        ),
    decreases calls.len(),
{
    if calls.len() > 0 {
        let front = calls.drop_last();
        let earlier = RegistryState::empty().after_all(front);
        assert(in_time_order(front)) by {
            assert forall|i: int, j: int| 0 <= i <= j < front.len() implies (#[trigger] front[i]).time()
                <= (#[trigger] front[j]).time() by {
                assert(front[i] == calls[i] && front[j] == calls[j]);
            }
        }
        law_history_in_completion_order(front);
        assert(earlier.trails_end_by(calls.last().time())) by {
            if front.len() > 0 {
                assert(front.last() == calls[calls.len() - 2]);
                assert(calls[calls.len() - 2].time() <= calls[calls.len() - 1].time());
            }
        }
        law_call_keeps_trails_in_order(earlier, calls.last());
    }
}

} // verus!
