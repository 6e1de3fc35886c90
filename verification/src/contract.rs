use vstd::prelude::*;

use crate::address::Address;
use crate::calls::Call;
use crate::certificate::Certificate;
use crate::error::CertificateError;
use crate::events::{
    TransferAcceptedEvent, TransferCancelledEvent, TransferCompletedEvent,
    TransferInitiatedEvent, TransferRejectedEvent,
};
use crate::history::{append, copy_trail, TransferHistory};
use crate::pending::{append_id, copy_ids, remove_id};
use crate::state::RegistryState;
use crate::store::RecordStore;
use crate::transfer::{Completion, TransferRequest, TransferStatus};

verus! {

/// The records of a registry, one table for each class of keys, and the
/// counter.
struct Records {
    certificates: RecordStore<Certificate>,
    transfers: RecordStore<TransferRequest>,
    pending: RecordStore<Vec<String>>,
    history: RecordStore<Vec<TransferHistory>>,
    transfer_count: u64,
}

impl View for Records {
    type V = RegistryState;

    closed spec fn view(&self) -> RegistryState {
        RegistryState {
            certificates: self.certificates@,
            transfers: self.transfers@,
            pending: self.pending@,
            history: self.history@,
            transfer_count: self.transfer_count as nat,
        }
    }
}

impl Records {
    fn new() -> (records: Records)
        ensures
            records@ == RegistryState::empty(),
            records@.wf(),
    {
        let records = Records {
            certificates: RecordStore::new(),
            transfers: RecordStore::new(),
            pending: RecordStore::new(),
            history: RecordStore::new(),
            transfer_count: 0,
        };
        proof {
            assert(records@ =~= RegistryState::empty());
            RegistryState::lemma_empty_wf();
        }
        records
    }

    /// Writes `transfer` back under `transfer_id` and rebuilds its
    /// recipient's pending index without it.
    fn settle(&mut self, transfer_id: String, transfer: TransferRequest)
        requires
            old(self)@.transfers.contains_key(transfer_id@),
            transfer@.to_address == old(self)@.transfers[transfer_id@].to_address,
        ensures
            final(self)@ == old(self)@.settle(transfer_id@, transfer@),
    {
        let ghost before = self@;
        let recipient = transfer.to_address.key().clone();
        let rest = match self.pending.get(&recipient) {
            Some(list) => remove_id(list, &transfer_id),
            None => {
                let empty: Vec<String> = Vec::new();
                assert(empty.deep_view() =~= Seq::empty());
                remove_id(&empty, &transfer_id)
            },
        };
        self.transfers.set(transfer_id, transfer);
        self.pending.set(recipient, rest);
        assert(self@ =~= before.settle(transfer_id@, transfer@));
    }
}

/// The certificate registry: the certificate ledger, the transfer state
/// machine, the pending index and the history ledger over one record store.
///
/// Every mutating call either applies all of its effects and returns `Ok`, or
/// applies none and returns the error. Authentication is the caller's part:
/// each call names the identity whose control the caller has proven before it.
/// A registry is well formed at all times, whatever calls were made on it.
pub struct CertificateContract {
    records: Records,
}

impl View for CertificateContract {
    type V = RegistryState;

    closed spec fn view(&self) -> RegistryState {
        self.records@
    }
}

impl CertificateContract {
    #[verifier::type_invariant]
    spec fn well_formed(&self) -> bool {
        self.records@.wf()
    }

    /// A registry that keeps nothing yet.
    pub fn new() -> (contract: CertificateContract)
        ensures
            contract@ == RegistryState::empty(),
            contract@.wf(),
    {
        CertificateContract { records: Records::new() }
    }

    /// Issues a certificate under `id` to `owner` in the name of `issuer`.
    ///
    /// The caller has proven control of `issuer`; `now` is the ledger time.
    /// The new certificate is not revoked, and its revocation fields are
    /// unset. An id that is already taken is refused with `AlreadyExists`,
    /// and nothing changes.
    pub fn issue_certificate(
        &mut self,
        id: String,
        issuer: Address,
        owner: Address,
        metadata_uri: String,
        now: u64,
    ) -> (result: Result<(), CertificateError>)
        ensures
            final(self)@.wf(),
            result == old(self)@.issue_check(id@),
            result is Ok <==> !old(self)@.certificates.contains_key(id@),
            result is Ok ==> final(self)@ == old(self)@.issue(
                id@,
                issuer@,
                owner@,
                metadata_uri@,
                now,
            ),
            result is Err ==> final(self)@ == old(self)@,
            final(self)@ == old(self)@.after(
                (Call::Issue {
                    id: id@,
                    issuer: issuer@,
                    owner: owner@,
                    metadata_uri: metadata_uri@,
                    now,
                }),
            ),
    {
        proof {
            use_type_invariant(&*self);
        }
        let ghost before = self@;
        let id_in_use = self.records.certificates.contains_key(&id);
        let key = id.clone();
        let certificate = match Certificate::issue(id_in_use, id, issuer, owner, metadata_uri, now) {
            Ok(c) => c,
            Err(e) => {
                return Err(e);
            },
        };
        let mut records = Records::new();
        std::mem::swap(&mut records, &mut self.records);
        records.certificates.set(key, certificate);
        proof {
            assert(records@ =~= before.issue(id@, issuer@, owner@, metadata_uri@, now));
            before.lemma_issue_wf(id@, issuer@, owner@, metadata_uri@, now);
        }
        self.records = records;
        Ok(())
    }

    /// Revokes the certificate under `id` in the name of its issuer.
    ///
    /// The caller has proven control of the certificate's recorded issuer,
    /// not of its owner; `now` is the ledger time. On success the certificate
    /// is revoked, with `reason`, `now` and the issuer recorded. An unknown id
    /// is refused with `NotFound`, a certificate that is already revoked with
    /// `AlreadyRevoked`; nothing changes then.
    pub fn revoke_certificate(&mut self, id: String, reason: String, now: u64) -> (result: Result<
        (),
        CertificateError,
    >)
        ensures
            final(self)@.wf(),
            result == old(self)@.revoke_check(id@),
            result is Ok ==> final(self)@ == old(self)@.revoke(id@, reason@, now),
            result is Err ==> final(self)@ == old(self)@,
            final(self)@ == old(self)@.after((Call::Revoke { id: id@, reason: reason@, now })),
            old(self)@.certificates.contains_key(id@) ==> final(self)@.certificates[id@].revoked,
    {
        proof {
            use_type_invariant(&*self);
        }
        let ghost before = self@;
        let mut certificate = match self.records.certificates.get(&id) {
            Some(c) => c.clone(),
            None => {
                return Err(CertificateError::NotFound);
            },
        };
        match certificate.revoke(reason, now) {
            Ok(()) => {},
            Err(e) => {
                return Err(e);
            },
        }
        let mut records = Records::new();
        std::mem::swap(&mut records, &mut self.records);
        records.certificates.set(id, certificate);
        proof {
            assert(records@ =~= before.revoke(id@, reason@, now));
            before.lemma_revoke_wf(id@, reason@, now);
        }
        self.records = records;
        Ok(())
    }

    /// Initiates the transfer of a certificate from its owner to `to_address`.
    ///
    /// The caller has proven control of `from_address`; `now` is the ledger
    /// time. A transfer id is never reused, whatever became of the transfer
    /// that had it. On success the request is kept as `Pending`, appended to
    /// the recipient's pending index, and the transfer count grows by one. The
    /// fee is recorded, not moved. The result is the notice to emit.
    pub fn initiate_transfer(
        &mut self,
        transfer_id: String,
        certificate_id: String,
        from_address: Address,
        to_address: Address,
        require_revocation: bool,
        transfer_fee: u64,
        memo: Option<String>,
        now: u64,
    ) -> (result: Result<TransferInitiatedEvent, CertificateError>)
        ensures
            final(self)@.wf(),
            final(self)@ == old(self)@.after(
                (Call::Initiate {
                    transfer_id: transfer_id@,
                    certificate_id: certificate_id@,
                    from: from_address@,
                    to: to_address@,
                    require_revocation,
                    transfer_fee,
                    memo: memo.deep_view(),
                    now,
                }),
            ),
            match result {
                Ok(event) => {
                    &&& old(self)@.initiate_check(
                        transfer_id@,
                        certificate_id@,
                        from_address@,
                        to_address@,
                    ) is Ok
                    &&& final(self)@ == old(self)@.initiate(
                        transfer_id@,
                        certificate_id@,
                        from_address@,
                        to_address@,
                        require_revocation,
                        transfer_fee,
                        memo.deep_view(),
                        now,
                    )
                    &&& final(self)@.transfer_count == old(self)@.transfer_count + 1
                    &&& event.transfer_id@ == transfer_id@
                    &&& event.certificate_id@ == certificate_id@
                    &&& event.from_address@ == from_address@
                    &&& event.to_address@ == to_address@
                    &&& event.initiated_at == now
                    &&& event.transfer_fee == transfer_fee
                },
                Err(e) => {
                    &&& old(self)@.initiate_check(
                        transfer_id@,
                        certificate_id@,
                        from_address@,
                        to_address@,
                    ) == Err::<(), CertificateError>(e)
                    &&& final(self)@ == old(self)@
                },
            },
    {
        proof {
            use_type_invariant(&*self);
        }
        let ghost before = self@;
        let id_in_use = self.records.transfers.contains_key(&transfer_id);
        let certificate = self.records.certificates.get(&certificate_id);
        let transfer = match TransferRequest::initiate(
            id_in_use,
            certificate,
            transfer_id,
            certificate_id,
            from_address,
            to_address,
            require_revocation,
            transfer_fee,
            memo,
            now,
        ) {
            Ok(t) => t,
            Err(e) => {
                return Err(e);
            },
        };
        let event = transfer.initiated_event();
        let recipient = transfer.to_address.key().clone();
        let waiting = match self.records.pending.get(&recipient) {
            Some(list) => append_id(list, transfer.id.clone()),
            None => {
                let empty: Vec<String> = Vec::new();
                assert(empty.deep_view() =~= Seq::empty());
                append_id(&empty, transfer.id.clone())
            },
        };
        let mut records = Records::new();
        std::mem::swap(&mut records, &mut self.records);
        records.transfers.set(transfer.id.clone(), transfer);
        records.pending.set(recipient, waiting);
        let kept = records.transfers.len();
        proof {
            assert(records.transfers@.dom() =~= before.transfers.dom().insert(transfer_id@));
            assert(kept == before.transfer_count + 1);
        }
        records.transfer_count = records.transfer_count + 1;
        proof {
            assert(records@ =~= before.initiate(
                transfer_id@,
                certificate_id@,
                from_address@,
                to_address@,
                require_revocation,
                transfer_fee,
                memo.deep_view(),
                now,
            ));
            before.lemma_initiate_wf(
                transfer_id@,
                certificate_id@,
                from_address@,
                to_address@,
                require_revocation,
                transfer_fee,
                memo.deep_view(),
                now,
            );
        }
        self.records = records;
        Ok(event)
    }

    /// Accepts a pending transfer in the name of `recipient` at `now`.
    ///
    /// The caller has proven control of `recipient`, who must be the
    /// transfer's recipient. On success the transfer is `Accepted`, with the
    /// time of acceptance, and no longer in the recipient's pending index. The
    /// result is the notice to emit.
    pub fn accept_transfer(&mut self, transfer_id: String, recipient: Address, now: u64) -> (result:
        Result<TransferAcceptedEvent, CertificateError>)
        ensures
            final(self)@.wf(),
            final(self)@ == old(self)@.after(
                (Call::Accept { transfer_id: transfer_id@, recipient: recipient@, now }),
            ),
            match result {
                Ok(event) => {
                    &&& old(self)@.answer_check(transfer_id@, recipient@) is Ok
                    &&& final(self)@ == old(self)@.accept(transfer_id@, now)
                    &&& final(self)@.transfers[transfer_id@].status == TransferStatus::Accepted
                    &&& !final(self)@.pending_of(recipient@).contains(transfer_id@)
                    &&& event.transfer_id@ == transfer_id@
                    &&& event.accepted_at == now
                },
                Err(e) => {
                    &&& old(self)@.answer_check(transfer_id@, recipient@) == Err::<
                        (),
                        CertificateError,
                    >(e)
                    &&& final(self)@ == old(self)@
                },
            },
    {
        proof {
            use_type_invariant(&*self);
        }
        let ghost before = self@;
        let mut transfer = match self.records.transfers.get(&transfer_id) {
            Some(t) => t.clone(),
            None => {
                return Err(CertificateError::TransferNotFound);
            },
        };
        let event = match transfer.accept(&recipient, now) {
            Ok(event) => event,
            Err(e) => {
                return Err(e);
            },
        };
        let mut records = Records::new();
        std::mem::swap(&mut records, &mut self.records);
        records.settle(transfer_id, transfer);
        proof {
            before.lemma_settle_wf(transfer_id@, before.transfers[transfer_id@].accepted(now));
            assert(!records@.awaits(transfer_id@, recipient@));
        }
        self.records = records;
        Ok(event)
    }

    /// Rejects a pending transfer in the name of `recipient` at `now`.
    ///
    /// The caller has proven control of `recipient`, who must be the
    /// transfer's recipient. On success the transfer is `Rejected` for good
    /// and no longer in the recipient's pending index; no certificate
    /// changes. The result is the notice to emit, with `now` as the time of
    /// rejection.
    pub fn reject_transfer(&mut self, transfer_id: String, recipient: Address, now: u64) -> (result:
        Result<TransferRejectedEvent, CertificateError>)
        ensures
            final(self)@.wf(),
            final(self)@ == old(self)@.after(
                (Call::Reject { transfer_id: transfer_id@, recipient: recipient@, now }),
            ),
            match result {
                Ok(event) => {
                    &&& old(self)@.answer_check(transfer_id@, recipient@) is Ok
                    &&& final(self)@ == old(self)@.reject(transfer_id@)
                    &&& final(self)@.transfers[transfer_id@].status == TransferStatus::Rejected
                    &&& !final(self)@.pending_of(recipient@).contains(transfer_id@)
                    &&& event.transfer_id@ == transfer_id@
                    &&& event.rejected_at == now
                },
                Err(e) => {
                    &&& old(self)@.answer_check(transfer_id@, recipient@) == Err::<
                        (),
                        CertificateError,
                    >(e)
                    &&& final(self)@ == old(self)@
                },
            },
    {
        proof {
            use_type_invariant(&*self);
        }
        let ghost before = self@;
        let mut transfer = match self.records.transfers.get(&transfer_id) {
            Some(t) => t.clone(),
            None => {
                return Err(CertificateError::TransferNotFound);
            },
        };
        let event = match transfer.reject(&recipient, now) {
            Ok(event) => event,
            Err(e) => {
                return Err(e);
            },
        };
        let mut records = Records::new();
        std::mem::swap(&mut records, &mut self.records);
        records.settle(transfer_id, transfer);
        proof {
            before.lemma_settle_wf(transfer_id@, before.transfers[transfer_id@].rejected());
            assert(!records@.awaits(transfer_id@, recipient@));
        }
        self.records = records;
        Ok(event)
    }

    /// Cancels a pending transfer in the name of `sender` at `now`.
    ///
    /// The caller has proven control of `sender`, who must be the transfer's
    /// sender. On success the transfer is `Cancelled` for good and no longer
    /// in its recipient's pending index. The result is the notice to emit,
    /// with `now` as the time of cancellation.
    pub fn cancel_transfer(&mut self, transfer_id: String, sender: Address, now: u64) -> (result:
        Result<TransferCancelledEvent, CertificateError>)
        ensures
            final(self)@.wf(),
            final(self)@ == old(self)@.after(
                (Call::Cancel { transfer_id: transfer_id@, sender: sender@, now }),
            ),
            match result {
                Ok(event) => {
                    &&& old(self)@.cancel_check(transfer_id@, sender@) is Ok
                    &&& final(self)@ == old(self)@.cancel(transfer_id@)
                    &&& final(self)@.transfers[transfer_id@].status == TransferStatus::Cancelled
                    &&& !final(self)@.pending_of(
                        old(self)@.transfers[transfer_id@].to_address,
                    ).contains(transfer_id@)
                    &&& event.transfer_id@ == transfer_id@
                    &&& event.cancelled_at == now
                },
                Err(e) => {
                    &&& old(self)@.cancel_check(transfer_id@, sender@) == Err::<
                        (),
                        CertificateError,
                    >(e)
                    &&& final(self)@ == old(self)@
                },
            },
    {
        proof {
            use_type_invariant(&*self);
        }
        let ghost before = self@;
        let mut transfer = match self.records.transfers.get(&transfer_id) {
            Some(t) => t.clone(),
            None => {
                return Err(CertificateError::TransferNotFound);
            },
        };
        let event = match transfer.cancel(&sender, now) {
            Ok(event) => event,
            Err(e) => {
                return Err(e);
            },
        };
        let mut records = Records::new();
        std::mem::swap(&mut records, &mut self.records);
        records.settle(transfer_id, transfer);
        proof {
            before.lemma_settle_wf(transfer_id@, before.transfers[transfer_id@].cancelled());
            assert(!records@.awaits(transfer_id@, before.transfers[transfer_id@].to_address));
        }
        self.records = records;
        Ok(event)
    }

    /// Completes an accepted transfer in the name of `executor` at `now`.
    ///
    /// The caller has proven control of `executor`, who must be the
    /// transfer's sender, its recipient or the certificate's issuer. Only a
    /// transfer that is exactly `Accepted` can be completed. On success the
    /// certificate belongs to the recipient, revoked in the sender's name
    /// first if the transfer asks for it; the transfer is `Completed`; and one
    /// entry is appended to the certificate's audit trail. The result is the
    /// notice to emit.
    pub fn complete_transfer(&mut self, transfer_id: String, executor: Address, now: u64) -> (result:
        Result<TransferCompletedEvent, CertificateError>)
        ensures
            final(self)@.wf(),
            final(self)@ == old(self)@.after(
                (Call::Complete { transfer_id: transfer_id@, executor: executor@, now }),
            ),
            match result {
                Ok(event) => {
                    let transfer = old(self)@.transfers[transfer_id@];
                    let certificate = final(self)@.certificates[transfer.certificate_id];
                    &&& old(self)@.complete_check(transfer_id@, executor@) is Ok
                    &&& final(self)@ == old(self)@.complete(transfer_id@, now)
                    &&& old(self)@.transfers.contains_key(transfer_id@)
                    &&& transfer.status == TransferStatus::Accepted
                    &&& final(self)@.transfers[transfer_id@].status == TransferStatus::Completed
                    &&& final(self)@.transfers[transfer_id@].completed_at == Some(now)
                    &&& certificate.owner == transfer.to_address
                    &&& transfer.require_revocation ==> certificate.revoked
                        && certificate.revoked_by == Some(transfer.from_address)
                        && certificate.revoked_at == Some(now)
                    &&& !transfer.require_revocation ==> certificate
                        == old(self)@.certificates[transfer.certificate_id].owned_by(
                        transfer.to_address,
                    )
                    &&& final(self)@.history_of(transfer.certificate_id) == old(self)@.history_of(
                        transfer.certificate_id,
                    ).push(transfer.history_entry(now))
                    &&& event.transfer_id@ == transfer_id@
                    &&& event.certificate_id@ == transfer.certificate_id
                    &&& event.from_address@ == transfer.from_address
                    &&& event.to_address@ == transfer.to_address
                    &&& event.completed_at == now
                    &&& event.transfer_fee == transfer.transfer_fee
                },
                Err(e) => {
                    &&& old(self)@.complete_check(transfer_id@, executor@) == Err::<
                        (),
                        CertificateError,
                    >(e)
                    &&& final(self)@ == old(self)@
                    &&& e == CertificateError::TransferNotFound <==> !old(
                        self,
                    )@.transfers.contains_key(transfer_id@)
                    &&& e == CertificateError::InvalidTransferStatus <==> old(
                        self,
                    )@.transfers.contains_key(transfer_id@) && old(
                        self,
                    )@.transfers[transfer_id@].status != TransferStatus::Accepted
                    &&& e != CertificateError::NotFound
                },
            },
    {
        proof {
            use_type_invariant(&*self);
        }
        let ghost before = self@;
        let transfer = match self.records.transfers.get(&transfer_id) {
            Some(t) => t,
            None => {
                return Err(CertificateError::TransferNotFound);
            },
        };
        let certificate = self.records.certificates.get(&transfer.certificate_id);
        let done = match transfer.complete(certificate, &executor, now) {
            Ok(d) => d,
            Err(e) => {
                return Err(e);
            },
        };
        let Completion { transfer: completed, certificate: handed, entry, event } = done;
        let certificate_id = completed.certificate_id.clone();
        let trail = match self.records.history.get(&certificate_id) {
            Some(t) => append(t, entry),
            None => {
                let empty: Vec<TransferHistory> = Vec::new();
                assert(empty.deep_view() =~= Seq::empty());
                append(&empty, entry)
            },
        };
        let mut records = Records::new();
        std::mem::swap(&mut records, &mut self.records);
        records.certificates.set(certificate_id.clone(), handed);
        records.transfers.set(transfer_id, completed);
        records.history.set(certificate_id, trail);
        proof {
            assert(records@ =~= before.complete(transfer_id@, now));
            before.lemma_complete_wf(transfer_id@, executor@, now);
        }
        self.records = records;
        Ok(event)
    }

    /// Whether the certificate under `id` is revoked; `NotFound` where no
    /// certificate is kept under `id`.
    pub fn is_revoked(&self, id: String) -> (result: Result<bool, CertificateError>)
        ensures
            self@.wf(),
            match result {
                Ok(revoked) => self@.certificates.contains_key(id@) && revoked
                    == self@.certificates[id@].revoked,
                Err(e) => !self@.certificates.contains_key(id@) && e == CertificateError::NotFound,
            },
    {
        proof {
            use_type_invariant(self);
        }
        match self.records.certificates.get(&id) {
            Some(certificate) => Ok(certificate.revoked),
            None => Err(CertificateError::NotFound),
        }
    }

    /// The certificate under `id`; `NotFound` where none is kept under `id`.
    pub fn get_certificate(&self, id: String) -> (result: Result<Certificate, CertificateError>)
        ensures
            self@.wf(),
            match result {
                Ok(certificate) => self@.certificates.contains_key(id@) && certificate@
                    == self@.certificates[id@] && certificate@.id == id@,
                Err(e) => !self@.certificates.contains_key(id@) && e == CertificateError::NotFound,
            },
    {
        proof {
            use_type_invariant(self);
        }
        match self.records.certificates.get(&id) {
            Some(certificate) => Ok(certificate.clone()),
            None => Err(CertificateError::NotFound),
        }
    }

    /// The transfer under `transfer_id`; `TransferNotFound` where none is
    /// kept under it.
    pub fn get_transfer(&self, transfer_id: String) -> (result: Result<
        TransferRequest,
        CertificateError,
    >)
        ensures
            self@.wf(),
            match result {
                Ok(transfer) => self@.transfers.contains_key(transfer_id@) && transfer@
                    == self@.transfers[transfer_id@] && transfer@.id == transfer_id@,
                Err(e) => !self@.transfers.contains_key(transfer_id@) && e
                    == CertificateError::TransferNotFound,
            },
    {
        proof {
            use_type_invariant(self);
        }
        match self.records.transfers.get(&transfer_id) {
            Some(transfer) => Ok(transfer.clone()),
            None => Err(CertificateError::TransferNotFound),
        }
    }

    /// The ids of the transfers that await the answer of `address`, oldest
    /// first; empty where nothing was indexed for it yet.
    pub fn get_pending_transfers(&self, address: Address) -> (waiting: Vec<String>)
        ensures
            self@.wf(),
            waiting.deep_view() == self@.pending_of(address@),
            forall|transfer_id: Seq<char>|
                waiting.deep_view().contains(transfer_id) <==> self@.awaits(
                    transfer_id,
                    address@,
                ),
    {
        proof {
            use_type_invariant(self);
        }
        let waiting = match self.records.pending.get(address.key()) {
            Some(list) => copy_ids(list),
            None => Vec::new(),
        };
        assert(waiting.deep_view() =~= self@.pending_of(address@));
        assert forall|transfer_id: Seq<char>|
            waiting.deep_view().contains(transfer_id) <==> self@.awaits(
                transfer_id,
                address@,
            ) by {
            assert(self@.pending_of(address@).contains(transfer_id) <==> self@.awaits(
                transfer_id,
                address@,
            ));
        }
        waiting
    }

    /// The audit trail of the certificate under `certificate_id`, oldest
    /// entry first; empty where no transfer of it was completed yet.
    pub fn get_transfer_history(&self, certificate_id: String) -> (trail: Vec<TransferHistory>)
        ensures
            self@.wf(),
            trail.deep_view() == self@.history_of(certificate_id@),
    {
        proof {
            use_type_invariant(self);
        }
        let trail = match self.records.history.get(&certificate_id) {
            Some(entries) => copy_trail(entries),
            None => Vec::new(),
        };
        assert(trail.deep_view() =~= self@.history_of(certificate_id@));
        trail
    }

    /// The number of transfers ever initiated; 0 before the first.
    pub fn get_transfer_count(&self) -> (count: u64)
        ensures
            self@.wf(),
            count == self@.transfer_count,
            count == self@.transfers.dom().len(),
    {
        proof {
            use_type_invariant(self);
        }
        self.records.transfer_count
    }
}

} // verus!
