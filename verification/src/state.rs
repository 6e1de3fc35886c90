use vstd::prelude::*;

use crate::certificate::CertificateView;
use crate::error::CertificateError;
use crate::history::TransferHistoryView;
use crate::pending::{lemma_without, without};
use crate::transfer::{TransferRequestView, TransferStatus};

verus! {

/// The registry as a mathematical value: every record it keeps, by key.
#[verifier::ext_equal]
pub struct RegistryState {
    /// Certificate id to certificate.
    pub certificates: Map<Seq<char>, CertificateView>,
    /// Transfer id to transfer request.
    pub transfers: Map<Seq<char>, TransferRequestView>,
    /// Identity to the ids of the transfers that await its answer, oldest first.
    pub pending: Map<Seq<char>, Seq<Seq<char>>>,
    /// Certificate id to the certificate's audit trail, oldest entry first.
    pub history: Map<Seq<char>, Seq<TransferHistoryView>>,
    /// The number of transfers ever initiated.
    pub transfer_count: nat,
}

impl RegistryState {
    /// The registry before any call.
    pub open spec fn empty() -> RegistryState {
        RegistryState {
            certificates: Map::empty(),
            transfers: Map::empty(),
            pending: Map::empty(),
            history: Map::empty(),
            transfer_count: 0,
        }
    }

    /// The certificate kept under `id`, if any.
    pub open spec fn certificate(self, id: Seq<char>) -> Option<CertificateView> {
        if self.certificates.contains_key(id) {
            Some(self.certificates[id])
        } else {
            None
        }
    }

    /// The transfer kept under `id`, if any.
    pub open spec fn transfer(self, id: Seq<char>) -> Option<TransferRequestView> {
        if self.transfers.contains_key(id) {
            Some(self.transfers[id])
        } else {
            None
        }
    }

    /// The transfers indexed as awaiting `identity`; none where nothing was
    /// indexed yet.
    pub open spec fn pending_of(self, identity: Seq<char>) -> Seq<Seq<char>> {
        if self.pending.contains_key(identity) {
            self.pending[identity]
        } else {
            Seq::empty()
        }
    }

    /// The audit trail of a certificate; empty where nothing was recorded yet.
    pub open spec fn history_of(self, certificate_id: Seq<char>) -> Seq<TransferHistoryView> {
        if self.history.contains_key(certificate_id) {
            self.history[certificate_id]
        } else {
            Seq::empty()
        }
    }

    /// The transfer `transfer_id` is pending and addressed to `identity`.
    pub open spec fn awaits(self, transfer_id: Seq<char>, identity: Seq<char>) -> bool {
        &&& self.transfers.contains_key(transfer_id)
        &&& self.transfers[transfer_id].status == TransferStatus::Pending
        &&& self.transfers[transfer_id].to_address == identity
    }

    /// The audit trail of `certificate_id` holds an entry for `transfer_id`.
    pub open spec fn recorded(self, certificate_id: Seq<char>, transfer_id: Seq<char>) -> bool {
        exists|i: int|
            0 <= i < self.history_of(certificate_id).len() && (#[trigger] self.history_of(
                certificate_id,
            )[i]).transfer_id == transfer_id
    }

    // ---- The calls: when each succeeds, and the registry after it ----

    /// Whether a certificate may be issued under `id`.
    pub open spec fn issue_check(self, id: Seq<char>) -> Result<(), CertificateError> {
        CertificateView::issue_check(self.certificates.contains_key(id))
    }

    /// The registry after a certificate was issued under `id`.
    pub open spec fn issue(
        self,
        id: Seq<char>,
        issuer: Seq<char>,
        owner: Seq<char>,
        metadata_uri: Seq<char>,
        now: u64,
    ) -> RegistryState {
        RegistryState {
            certificates: self.certificates.insert(
                id,
                CertificateView::issued(id, issuer, owner, metadata_uri, now),
            ),
            ..self
        }
    }

    /// Whether the certificate under `id` may be revoked by its issuer.
    pub open spec fn revoke_check(self, id: Seq<char>) -> Result<(), CertificateError> {
        match self.certificate(id) {
            None => Err(CertificateError::NotFound),
            Some(certificate) => certificate.revoke_check(),
        }
    }

    /// The registry after the issuer revoked the certificate under `id`.
    pub open spec fn revoke(self, id: Seq<char>, reason: Seq<char>, now: u64) -> RegistryState {
        RegistryState {
            certificates: self.certificates.insert(
                id,
                self.certificates[id].revoked_by_issuer(reason, now),
            ),
            ..self
        }
    }

    /// Whether `from` may open a transfer of `certificate_id` to `to` under
    /// `transfer_id`.
    pub open spec fn initiate_check(
        self,
        transfer_id: Seq<char>,
        certificate_id: Seq<char>,
        from: Seq<char>,
        to: Seq<char>,
    ) -> Result<(), CertificateError> {
        TransferRequestView::initiate_check(
            self.transfers.contains_key(transfer_id),
            self.certificate(certificate_id),
            from,
            to,
        )
    }

    /// The registry after a transfer was initiated: the request is kept as
    /// pending, indexed last under its recipient, and counted.
    pub open spec fn initiate(
        self,
        transfer_id: Seq<char>,
        certificate_id: Seq<char>,
        from: Seq<char>,
        to: Seq<char>,
        require_revocation: bool,
        transfer_fee: u64,
        memo: Option<Seq<char>>,
        now: u64,
    ) -> RegistryState {
        RegistryState {
            transfers: self.transfers.insert(
                transfer_id,
                TransferRequestView::initiated(
                    transfer_id,
                    certificate_id,
                    from,
                    to,
                    require_revocation,
                    transfer_fee,
                    memo,
                    now,
                ),
            ),
            pending: self.pending.insert(to, self.pending_of(to).push(transfer_id)),
            transfer_count: self.transfer_count + 1,
            ..self
        }
    }

    /// Whether `recipient` may accept or reject the transfer under `transfer_id`.
    pub open spec fn answer_check(self, transfer_id: Seq<char>, recipient: Seq<char>) -> Result<
        (),
        CertificateError,
    > {
        match self.transfer(transfer_id) {
            None => Err(CertificateError::TransferNotFound),
            Some(transfer) => transfer.answer_check(recipient),
        }
    }

    /// The registry with the transfer under `transfer_id` replaced by `next`
    /// and taken out of its recipient's index.
    pub open spec fn settle(self, transfer_id: Seq<char>, next: TransferRequestView)
        -> RegistryState {
        let to = self.transfers[transfer_id].to_address;
        RegistryState {
            transfers: self.transfers.insert(transfer_id, next),
            pending: self.pending.insert(to, without(self.pending_of(to), transfer_id)),
            ..self
        }
    }

    /// The registry after the recipient accepted the transfer at `now`.
    pub open spec fn accept(self, transfer_id: Seq<char>, now: u64) -> RegistryState {
        self.settle(transfer_id, self.transfers[transfer_id].accepted(now))
    }

    /// The registry after the recipient rejected the transfer.
    pub open spec fn reject(self, transfer_id: Seq<char>) -> RegistryState {
        self.settle(transfer_id, self.transfers[transfer_id].rejected())
    }

    /// Whether `sender` may cancel the transfer under `transfer_id`.
    pub open spec fn cancel_check(self, transfer_id: Seq<char>, sender: Seq<char>) -> Result<
        (),
        CertificateError,
    > {
        match self.transfer(transfer_id) {
            None => Err(CertificateError::TransferNotFound),
            Some(transfer) => transfer.cancel_check(sender),
        }
    }

    /// The registry after the sender cancelled the transfer.
    pub open spec fn cancel(self, transfer_id: Seq<char>) -> RegistryState {
        self.settle(transfer_id, self.transfers[transfer_id].cancelled())
    }

    /// Whether `executor` may complete the transfer under `transfer_id`.
    pub open spec fn complete_check(self, transfer_id: Seq<char>, executor: Seq<char>) -> Result<
        (),
        CertificateError,
    > {
        match self.transfer(transfer_id) {
            None => Err(CertificateError::TransferNotFound),
            Some(transfer) => transfer.complete_check(
                self.certificate(transfer.certificate_id),
                executor,
            ),
        }
    }

    /// The registry after the transfer was completed at `now`: the
    /// certificate handed over, the request completed, and one entry appended
    /// to the certificate's audit trail.
    pub open spec fn complete(self, transfer_id: Seq<char>, now: u64) -> RegistryState {
        let transfer = self.transfers[transfer_id];
        let certificate_id = transfer.certificate_id;
        RegistryState {
            certificates: self.certificates.insert(
                certificate_id,
                transfer.hand_over(self.certificates[certificate_id], now),
            ),
            transfers: self.transfers.insert(transfer_id, transfer.completed(now)),
            history: self.history.insert(
                certificate_id,
                self.history_of(certificate_id).push(transfer.history_entry(now)),
            ),
            ..self
        }
    }

    // ---- What holds of the registry at all times ----

    /// Every transfer ever initiated is kept, and counted once.
    pub open spec fn counted(self) -> bool {
        &&& self.transfers.dom().finite()
        &&& self.transfer_count == self.transfers.dom().len()
    }

    /// Every certificate is kept under its own id, with its revocation fields
    /// set exactly when it is revoked.
    pub open spec fn certificates_filed(self) -> bool {
        forall|id: Seq<char>| #[trigger]
            self.certificates.contains_key(id) ==> self.certificates[id].id == id
                && self.certificates[id].consistent()
    }

    /// Every transfer is kept under its own id, is coherent, and names a
    /// certificate that exists.
    pub open spec fn transfers_filed(self) -> bool {
        forall|id: Seq<char>| #[trigger]
            self.transfers.contains_key(id) ==> self.transfers[id].id == id
                && self.transfers[id].coherent() && self.certificates.contains_key(
                self.transfers[id].certificate_id,
            )
    }

    /// The index of an identity names exactly the transfers that are pending
    /// and addressed to it, each once.
    pub open spec fn pending_exact(self) -> bool {
        &&& forall|identity: Seq<char>, transfer_id: Seq<char>|
            #![trigger self.pending_of(identity).contains(transfer_id)]
            #![trigger self.awaits(transfer_id, identity)]
            self.pending_of(identity).contains(transfer_id) <==> self.awaits(transfer_id, identity)
        &&& forall|identity: Seq<char>| #[trigger] self.pending_of(identity).no_duplicates()
    }

    /// The audit trail of a certificate holds exactly one entry for each of
    /// its completed transfers, taken from the transfer at its completion, and
    /// nothing else.
    pub open spec fn history_exact(self) -> bool {
        &&& forall|certificate_id: Seq<char>, i: int|
            0 <= i < self.history_of(certificate_id).len() ==> self.entry_matches(
                certificate_id,
                #[trigger] self.history_of(certificate_id)[i],
            )
        &&& forall|certificate_id: Seq<char>, i: int, j: int|
            0 <= i < j < self.history_of(certificate_id).len() ==> (#[trigger] self.history_of(
                certificate_id,
            )[i]).transfer_id != (#[trigger] self.history_of(certificate_id)[j]).transfer_id
        &&& forall|transfer_id: Seq<char>| #[trigger]
            self.transfers.contains_key(transfer_id) && self.transfers[transfer_id].status
                == TransferStatus::Completed ==> self.recorded(
                self.transfers[transfer_id].certificate_id,
                transfer_id,
            )
    }

    /// `entry`, found in the audit trail of `certificate_id`, is the snapshot
    /// of a completed transfer of that certificate.
    pub open spec fn entry_matches(self, certificate_id: Seq<char>, entry: TransferHistoryView)
        -> bool {
        &&& self.transfers.contains_key(entry.transfer_id)
        &&& self.transfers[entry.transfer_id].status == TransferStatus::Completed
        &&& self.transfers[entry.transfer_id].completed_at is Some
        &&& entry == self.transfers[entry.transfer_id].history_entry(
            self.transfers[entry.transfer_id].completed_at->0,
        )
        &&& entry.certificate_id == certificate_id
    }

    /// The registry is well formed.
    pub open spec fn wf(self) -> bool {
        &&& self.counted()
        &&& self.certificates_filed()
        &&& self.transfers_filed()
        &&& self.pending_exact()
        &&& self.history_exact()
    }

    // ---- Every call keeps the registry well formed ----

    /// The empty registry is well formed.
    pub proof fn lemma_empty_wf()
        ensures
            RegistryState::empty().wf(),
    {
        let s = RegistryState::empty();
        assert(s.transfers.dom() =~= Set::<Seq<char>>::empty());
    }

    /// Issuing a certificate keeps the registry well formed.
    pub proof fn lemma_issue_wf(
        self,
        id: Seq<char>,
        issuer: Seq<char>,
        owner: Seq<char>,
        metadata_uri: Seq<char>,
        now: u64,
    )
        requires
            self.wf(),
            self.issue_check(id) is Ok,
        ensures
            self.issue(id, issuer, owner, metadata_uri, now).wf(),
    {
        let next = self.issue(id, issuer, owner, metadata_uri, now);
        self.lemma_same_transfers(next);
    }

    /// Revoking a certificate keeps the registry well formed.
    pub proof fn lemma_revoke_wf(self, id: Seq<char>, reason: Seq<char>, now: u64)
        requires
            self.wf(),
            self.revoke_check(id) is Ok,
        ensures
            self.revoke(id, reason, now).wf(),
    {
        let next = self.revoke(id, reason, now);
        self.lemma_same_transfers(next);
    }

    /// Initiating a transfer keeps the registry well formed.
    pub proof fn lemma_initiate_wf(
        self,
        transfer_id: Seq<char>,
        certificate_id: Seq<char>,
        from: Seq<char>,
        to: Seq<char>,
        require_revocation: bool,
        transfer_fee: u64,
        memo: Option<Seq<char>>,
        now: u64,
    )
        requires
            self.wf(),
            self.initiate_check(transfer_id, certificate_id, from, to) is Ok,
        ensures
            self.initiate(
                transfer_id,
                certificate_id,
                from,
                to,
                require_revocation,
                transfer_fee,
                memo,
                now,
            ).wf(),
    {
        let next = self.initiate(
            transfer_id,
            certificate_id,
            from,
            to,
            require_revocation,
            transfer_fee,
            memo,
            now,
        );
        assert(!self.transfers.contains_key(transfer_id));
        assert(next.transfers.dom() =~= self.transfers.dom().insert(transfer_id));
        assert(next.counted());
        assert(next.transfers_filed());
        assert forall|identity: Seq<char>| #[trigger]
            next.pending_of(identity).no_duplicates() by {
            assert(self.pending_of(identity).no_duplicates());
            if identity == to {
                assert(!self.pending_of(to).contains(transfer_id)) by {
                    assert(!self.awaits(transfer_id, to));
                }
            }
        }
        assert forall|identity: Seq<char>, id: Seq<char>|
            #![trigger next.pending_of(identity).contains(id)]
            #![trigger next.awaits(id, identity)]
            next.pending_of(identity).contains(id) <==> next.awaits(id, identity) by {
            assert(self.pending_of(identity).contains(id) <==> self.awaits(id, identity));
            if identity == to {
                let before = self.pending_of(to);
                let after = next.pending_of(to);
                assert(after == before.push(transfer_id));
                if after.contains(id) {
                    let i = choose|i: int| 0 <= i < after.len() && after[i] == id;
                    if i < before.len() {
                        assert(before[i] == id);
                    }
                }
                if before.contains(id) {
                    let i = choose|i: int| 0 <= i < before.len() && before[i] == id;
                    assert(after[i] == id);
                }
                assert(after[before.len() as int] == transfer_id);
            }
        }
        assert(next.pending_exact());
        self.lemma_history_kept(next, transfer_id);
    }

    /// Where one transfer that is not completed is written, and it is not
    /// completed afterwards either, the audit trails stay exact.
    proof fn lemma_history_kept(self, next: RegistryState, transfer_id: Seq<char>)
        requires
            self.wf(),
            next.history == self.history,
            next.transfers.contains_key(transfer_id),
            next.transfers == self.transfers.insert(transfer_id, next.transfers[transfer_id]),
            next.transfers[transfer_id].status != TransferStatus::Completed,
            self.transfers.contains_key(transfer_id) ==> self.transfers[transfer_id].status
                != TransferStatus::Completed,
        ensures
            next.history_exact(),
    {
        assert forall|certificate_id: Seq<char>, i: int|
            0 <= i < next.history_of(certificate_id).len() implies next.entry_matches(
            certificate_id,
            #[trigger] next.history_of(certificate_id)[i],
        ) by {
            assert(next.history_of(certificate_id) == self.history_of(certificate_id));
            assert(self.entry_matches(certificate_id, self.history_of(certificate_id)[i]));
        }
        assert forall|certificate_id: Seq<char>, i: int, j: int|
            0 <= i < j < next.history_of(certificate_id).len() implies (#[trigger] next.history_of(
            certificate_id,
        )[i]).transfer_id != (#[trigger] next.history_of(certificate_id)[j]).transfer_id by {
            assert(next.history_of(certificate_id) == self.history_of(certificate_id));
            assert(self.history_of(certificate_id)[i].transfer_id != self.history_of(
                certificate_id,
            )[j].transfer_id);
        }
        assert forall|id: Seq<char>| #[trigger]
            next.transfers.contains_key(id) && next.transfers[id].status
                == TransferStatus::Completed implies next.recorded(
            next.transfers[id].certificate_id,
            id,
        ) by {
            let c = self.transfers[id].certificate_id;
            assert(id != transfer_id);
            assert(self.transfers.contains_key(id));
            assert(self.recorded(c, id));
            assert(next.history_of(c) == self.history_of(c));
        }
    }

    /// Taking a pending transfer to `next_transfer`, a later status of the
    /// same request other than completion, and out of its recipient's index
    /// keeps the registry well formed.
    pub proof fn lemma_settle_wf(self, transfer_id: Seq<char>, next_transfer: TransferRequestView)
        requires
            self.wf(),
            self.transfers.contains_key(transfer_id),
            self.transfers[transfer_id].status == TransferStatus::Pending,
            next_transfer.id == transfer_id,
            next_transfer.certificate_id == self.transfers[transfer_id].certificate_id,
            next_transfer.to_address == self.transfers[transfer_id].to_address,
            next_transfer.coherent(),
            next_transfer.status != TransferStatus::Pending,
            next_transfer.status != TransferStatus::Completed,
        ensures
            self.settle(transfer_id, next_transfer).wf(),
    {
        let next = self.settle(transfer_id, next_transfer);
        let to = self.transfers[transfer_id].to_address;
        assert(next.transfers.dom() =~= self.transfers.dom());
        assert(next.counted());
        assert(next.transfers_filed());
        lemma_without(self.pending_of(to), transfer_id);
        assert forall|identity: Seq<char>| #[trigger]
            next.pending_of(identity).no_duplicates() by {
            assert(self.pending_of(identity).no_duplicates());
        }
        assert forall|identity: Seq<char>, id: Seq<char>|
            #![trigger next.pending_of(identity).contains(id)]
            #![trigger next.awaits(id, identity)]
            next.pending_of(identity).contains(id) <==> next.awaits(id, identity) by {
            assert(self.pending_of(identity).contains(id) <==> self.awaits(id, identity));
            if identity == to {
                assert(next.pending_of(to) == without(self.pending_of(to), transfer_id));
                assert(without(self.pending_of(to), transfer_id).contains(id)
                    <==> self.pending_of(to).contains(id) && id != transfer_id);
            }
        }
        assert(next.pending_exact());
        self.lemma_history_kept(next, transfer_id);
    }

    /// Completing an accepted transfer keeps the registry well formed.
    pub proof fn lemma_complete_wf(self, transfer_id: Seq<char>, executor: Seq<char>, now: u64)
        requires
            self.wf(),
            self.complete_check(transfer_id, executor) is Ok,
        ensures
            self.complete(transfer_id, now).wf(),
    {
        let next = self.complete(transfer_id, now);
        let transfer = self.transfers[transfer_id];
        let cid = transfer.certificate_id;
        let entry = transfer.history_entry(now);
        let trail = self.history_of(cid);
        assert(self.transfers.contains_key(transfer_id));
        assert(transfer.status == TransferStatus::Accepted);
        assert(self.certificates.contains_key(cid));
        assert(next.transfers.dom() =~= self.transfers.dom());
        assert(next.counted());
        assert(next.certificates_filed());
        assert(next.transfers_filed());
        assert forall|identity: Seq<char>| #[trigger]
            next.pending_of(identity).no_duplicates() by {
            assert(next.pending_of(identity) == self.pending_of(identity));
        }
        assert forall|identity: Seq<char>, id: Seq<char>|
            #![trigger next.pending_of(identity).contains(id)]
            #![trigger next.awaits(id, identity)]
            next.pending_of(identity).contains(id) <==> next.awaits(id, identity) by {
            assert(next.pending_of(identity) == self.pending_of(identity));
            assert(self.pending_of(identity).contains(id) <==> self.awaits(id, identity));
        }
        assert(next.pending_exact());
        assert(next.history_of(cid) == trail.push(entry));
        assert forall|certificate_id: Seq<char>, i: int|
            0 <= i < next.history_of(certificate_id).len() implies next.entry_matches(
            certificate_id,
            #[trigger] next.history_of(certificate_id)[i],
        ) by {
            if certificate_id == cid && i == trail.len() {
                assert(next.history_of(cid)[i] == entry);
            } else {
                assert(next.history_of(certificate_id)[i] == self.history_of(certificate_id)[i]);
                assert(self.entry_matches(certificate_id, self.history_of(certificate_id)[i]));
            }
        }
        assert forall|certificate_id: Seq<char>, i: int, j: int|
            0 <= i < j < next.history_of(certificate_id).len() implies (#[trigger] next.history_of(
            certificate_id,
        )[i]).transfer_id != (#[trigger] next.history_of(certificate_id)[j]).transfer_id by {
            assert(next.history_of(certificate_id)[i] == self.history_of(certificate_id)[i]);
            assert(self.entry_matches(certificate_id, self.history_of(certificate_id)[i]));
            if certificate_id == cid && j == trail.len() {
                assert(next.history_of(cid)[j] == entry);
            } else {
                assert(next.history_of(certificate_id)[j] == self.history_of(certificate_id)[j]);
                assert(self.history_of(certificate_id)[i].transfer_id != self.history_of(
                    certificate_id,
                )[j].transfer_id);
            }
        }
        assert forall|id: Seq<char>| #[trigger]
            next.transfers.contains_key(id) && next.transfers[id].status
                == TransferStatus::Completed implies next.recorded(
            next.transfers[id].certificate_id,
            id,
        ) by {
            if id == transfer_id {
                assert(next.history_of(cid)[trail.len() as int].transfer_id == transfer_id);
            } else {
                let c = self.transfers[id].certificate_id;
                assert(self.recorded(c, id));
                let i = choose|i: int|
                    0 <= i < self.history_of(c).len() && (#[trigger] self.history_of(
                        c,
                    )[i]).transfer_id == id;
                assert(next.history_of(c)[i] == self.history_of(c)[i]);
            }
        }
        assert(next.history_exact());
    }

    /// Where the transfers, the index and the trails stay as they are, and no
    /// certificate goes away, what holds of them stays true.
    proof fn lemma_same_transfers(self, next: RegistryState)
        requires
            self.wf(),
            next.transfers == self.transfers,
            next.pending == self.pending,
            next.history == self.history,
            next.transfer_count == self.transfer_count,
            forall|id: Seq<char>|
                self.certificates.contains_key(id) ==> next.certificates.contains_key(id),
        ensures
            next.counted(),
            next.transfers_filed(),
            next.pending_exact(),
            next.history_exact(),
    {
        assert forall|identity: Seq<char>, transfer_id: Seq<char>|
            #![trigger next.pending_of(identity).contains(transfer_id)]
            #![trigger next.awaits(transfer_id, identity)]
            next.pending_of(identity).contains(transfer_id) <==> next.awaits(
                transfer_id,
                identity,
            ) by {
            assert(next.pending_of(identity) == self.pending_of(identity));
            assert(next.awaits(transfer_id, identity) == self.awaits(transfer_id, identity));
        }
        assert forall|identity: Seq<char>| #[trigger]
            next.pending_of(identity).no_duplicates() by {
            assert(next.pending_of(identity) == self.pending_of(identity));
        }
        assert forall|certificate_id: Seq<char>, i: int|
            0 <= i < next.history_of(certificate_id).len() implies next.entry_matches(
            certificate_id,
            #[trigger] next.history_of(certificate_id)[i],
        ) by {
            assert(next.history_of(certificate_id) == self.history_of(certificate_id));
            assert(self.entry_matches(certificate_id, self.history_of(certificate_id)[i]));
        }
        assert forall|certificate_id: Seq<char>, i: int, j: int|
            0 <= i < j < next.history_of(certificate_id).len() implies (#[trigger] next.history_of(
            certificate_id,
        )[i]).transfer_id != (#[trigger] next.history_of(certificate_id)[j]).transfer_id by {
            assert(next.history_of(certificate_id) == self.history_of(certificate_id));
            assert(self.history_of(certificate_id)[i].transfer_id != self.history_of(
                certificate_id,
            )[j].transfer_id);
        }
        assert forall|transfer_id: Seq<char>| #[trigger]
            next.transfers.contains_key(transfer_id) && next.transfers[transfer_id].status
                == TransferStatus::Completed implies next.recorded(
            next.transfers[transfer_id].certificate_id,
            transfer_id,
        ) by {
            let c = self.transfers[transfer_id].certificate_id;
            assert(self.transfers.contains_key(transfer_id));
            assert(self.recorded(c, transfer_id));
            assert(next.history_of(c) == self.history_of(c));
        }
    }
}

} // verus!
