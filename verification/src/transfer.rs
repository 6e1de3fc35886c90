use vstd::prelude::*;

use crate::address::Address;
use crate::certificate::{copy_text, Certificate, CertificateView};
use crate::error::CertificateError;
use crate::events::{
    TransferAcceptedEvent, TransferCancelledEvent, TransferCompletedEvent,
    TransferInitiatedEvent, TransferRejectedEvent,
};
use crate::history::{TransferHistory, TransferHistoryView};

verus! {

/// The reason recorded on a certificate that is revoked by its own transfer.
pub const TRANSFER_REVOCATION_REASON: &'static str = "Transferred to new owner";

/// Where a transfer stands in its handshake.
///
/// `Pending` and `Accepted` are the states from which a transfer can still
/// move; `Rejected`, `Cancelled` and `Completed` are terminal.
#[derive(Clone, Copy, Debug, PartialEq, Eq, Structural)]
pub enum TransferStatus {
    Pending,
    Accepted,
    Rejected,
    Cancelled,
    Completed,
}

impl TransferStatus {
    /// No transition leaves this status.
    pub open spec fn terminal(self) -> bool {
        self == TransferStatus::Rejected || self == TransferStatus::Cancelled || self
            == TransferStatus::Completed
    }

    /// `next` is this status or one transition after it.
    pub open spec fn steps_to(self, next: TransferStatus) -> bool {
        ||| next == self
        ||| self == TransferStatus::Pending && (next == TransferStatus::Accepted || next
            == TransferStatus::Rejected || next == TransferStatus::Cancelled)
        ||| self == TransferStatus::Accepted && next == TransferStatus::Completed
    }

    /// `later` is this status or lies further along one of the two paths,
    /// `Pending`, `Accepted`, `Completed` and `Pending`, `Rejected` or `Cancelled`.
    pub open spec fn leads_to(self, later: TransferStatus) -> bool {
        ||| later == self
        ||| self == TransferStatus::Pending
        ||| self == TransferStatus::Accepted && later == TransferStatus::Completed
    }

    /// Whether no transition leaves this status.
    pub fn is_terminal(&self) -> (terminal: bool)
        ensures
            terminal == self.terminal(),
    {
        match self {
            TransferStatus::Pending => false,
            TransferStatus::Accepted => false,
            TransferStatus::Rejected => true,
            TransferStatus::Cancelled => true,
            TransferStatus::Completed => true,
        }
    }
}

/// A negotiated request to move a certificate from one identity to another.
#[derive(Debug)]
pub struct TransferRequest {
    pub id: String,
    pub certificate_id: String,
    pub from_address: Address,
    pub to_address: Address,
    pub initiated_at: u64,
    pub accepted_at: Option<u64>,
    pub completed_at: Option<u64>,
    pub status: TransferStatus,
    pub require_revocation: bool,
    pub transfer_fee: u64,
    pub memo: Option<String>,
}

/// What a transfer request says, with every text as its characters.
pub struct TransferRequestView {
    pub id: Seq<char>,
    pub certificate_id: Seq<char>,
    pub from_address: Seq<char>,
    pub to_address: Seq<char>,
    pub initiated_at: u64,
    pub accepted_at: Option<u64>,
    pub completed_at: Option<u64>,
    pub status: TransferStatus,
    pub require_revocation: bool,
    pub transfer_fee: u64,
    pub memo: Option<Seq<char>>,
}

impl View for TransferRequest {
    type V = TransferRequestView;

    open spec fn view(&self) -> TransferRequestView {
        TransferRequestView {
            id: self.id@,
            certificate_id: self.certificate_id@,
            from_address: self.from_address@,
            to_address: self.to_address@,
            initiated_at: self.initiated_at,
            accepted_at: self.accepted_at,
            completed_at: self.completed_at,
            status: self.status,
            require_revocation: self.require_revocation,
            transfer_fee: self.transfer_fee,
            memo: self.memo.deep_view(),
        }
    }
}

impl DeepView for TransferRequest {
    type V = TransferRequestView;

    open spec fn deep_view(&self) -> TransferRequestView {
        self@
    }
}

impl TransferRequestView {
    /// Whether a transfer of `certificate` from `from` to `to` may be opened
    /// under an id of which `id_in_use` says whether it was ever used.
    pub open spec fn initiate_check(
        id_in_use: bool,
        certificate: Option<CertificateView>,
        from: Seq<char>,
        to: Seq<char>,
    ) -> Result<(), CertificateError> {
        if id_in_use {
            Err(CertificateError::AlreadyExists)
        } else if certificate is None {
            Err(CertificateError::NotFound)
        } else if certificate->0.owner != from {
            Err(CertificateError::Unauthorized)
        } else if certificate->0.revoked {
            Err(CertificateError::AlreadyRevoked)
        } else if from == to {
            Err(CertificateError::InvalidData)
        } else {
            Ok(())
        }
    }

    /// The request as it stands right after initiation.
    pub open spec fn initiated(
        id: Seq<char>,
        certificate_id: Seq<char>,
        from: Seq<char>,
        to: Seq<char>,
        require_revocation: bool,
        transfer_fee: u64,
        memo: Option<Seq<char>>,
        now: u64,
    ) -> TransferRequestView {
        TransferRequestView {
            id,
            certificate_id,
            from_address: from,
            to_address: to,
            initiated_at: now,
            accepted_at: None,
            completed_at: None,
            status: TransferStatus::Pending,
            require_revocation,
            transfer_fee,
            memo,
        }
    }

    /// Whether `recipient` may accept or reject the request.
    pub open spec fn answer_check(self, recipient: Seq<char>) -> Result<(), CertificateError> {
        if self.to_address != recipient {
            Err(CertificateError::Unauthorized)
        } else if self.status != TransferStatus::Pending {
            Err(CertificateError::TransferNotPending)
        } else {
            Ok(())
        }
    }

    /// Whether `sender` may cancel the request.
    pub open spec fn cancel_check(self, sender: Seq<char>) -> Result<(), CertificateError> {
        if self.from_address != sender {
            Err(CertificateError::Unauthorized)
        } else if self.status != TransferStatus::Pending {
            Err(CertificateError::TransferNotPending)
        } else {
            Ok(())
        }
    }

    /// Whether `executor` may complete the request on `certificate`, the
    /// certificate kept under the request's certificate id, if any.
    pub open spec fn complete_check(self, certificate: Option<CertificateView>, executor: Seq<char>)
        -> Result<(), CertificateError> {
        if self.status != TransferStatus::Accepted {
            Err(CertificateError::InvalidTransferStatus)
        } else if certificate is None {
            Err(CertificateError::NotFound)
        } else if executor != self.from_address && executor != self.to_address && executor
            != certificate->0.issuer {
            Err(CertificateError::Unauthorized)
        } else {
            Ok(())
        }
    }

    /// The request after its recipient accepted it at `now`.
    pub open spec fn accepted(self, now: u64) -> TransferRequestView {
        TransferRequestView { status: TransferStatus::Accepted, accepted_at: Some(now), ..self }
    }

    /// The request after its recipient rejected it.
    pub open spec fn rejected(self) -> TransferRequestView {
        TransferRequestView { status: TransferStatus::Rejected, ..self }
    }

    /// The request after its sender cancelled it.
    pub open spec fn cancelled(self) -> TransferRequestView {
        TransferRequestView { status: TransferStatus::Cancelled, ..self }
    }

    /// The request after it was completed at `now`.
    pub open spec fn completed(self, now: u64) -> TransferRequestView {
        TransferRequestView { status: TransferStatus::Completed, completed_at: Some(now), ..self }
    }

    /// The certificate after this request was completed on it at `now`: in
    /// the recipient's hands, and revoked in the sender's name if the request
    /// asks for it.
    pub open spec fn hand_over(self, certificate: CertificateView, now: u64) -> CertificateView {
        let marked = if self.require_revocation {
            certificate.revoked_with(TRANSFER_REVOCATION_REASON@, now, self.from_address)
        } else {
            certificate
        };
        marked.owned_by(self.to_address)
    }

    /// The audit entry for this request's completion at `now`.
    pub open spec fn history_entry(self, now: u64) -> TransferHistoryView {
        TransferHistoryView {
            transfer_id: self.id,
            certificate_id: self.certificate_id,
            from_address: self.from_address,
            to_address: self.to_address,
            transferred_at: now,
            transfer_fee: self.transfer_fee,
            memo: self.memo,
        }
    }

    /// The times recorded on the request fit its status, and it does not
    /// send a certificate to its own sender.
    pub open spec fn coherent(self) -> bool {
        &&& self.from_address != self.to_address
        &&& self.accepted_at.is_some() == (self.status == TransferStatus::Accepted || self.status
            == TransferStatus::Completed)
        &&& self.completed_at.is_some() == (self.status == TransferStatus::Completed)
    }
}

/// All that the completion of a transfer writes and announces.
#[derive(Debug)]
pub struct Completion {
    /// The request, now completed.
    pub transfer: TransferRequest,
    /// The certificate, now with its new owner.
    pub certificate: Certificate,
    /// The entry to append to the certificate's audit trail.
    pub entry: TransferHistory,
    /// The notice to emit.
    pub event: TransferCompletedEvent,
}

impl Clone for TransferRequest {
    fn clone(&self) -> (copy: TransferRequest)
        ensures
            copy@ == self@,
    {
        TransferRequest {
            id: self.id.clone(),
            certificate_id: self.certificate_id.clone(),
            from_address: self.from_address.clone(),
            to_address: self.to_address.clone(),
            initiated_at: self.initiated_at,
            accepted_at: self.accepted_at,
            completed_at: self.completed_at,
            status: self.status,
            require_revocation: self.require_revocation,
            transfer_fee: self.transfer_fee,
            memo: copy_text(&self.memo),
        }
    }
}

impl TransferRequest {
    /// Opens a transfer of `certificate` from `from_address` to `to_address`.
    ///
    /// `id_in_use` says whether `transfer_id` was ever given to a transfer;
    /// `certificate` is the certificate kept under `certificate_id`, if any.
    /// The caller has proven control of `from_address`; `now` is the ledger
    /// time. The checks are made in this order: the id is fresh, the
    /// certificate exists, the sender owns it, it is not revoked, and the
    /// recipient is not the sender.
    pub fn initiate(
        id_in_use: bool,
        certificate: Option<&Certificate>,
        transfer_id: String,
        certificate_id: String,
        from_address: Address,
        to_address: Address,
        require_revocation: bool,
        transfer_fee: u64,
        memo: Option<String>,
        now: u64,
    ) -> (result: Result<TransferRequest, CertificateError>)
        ensures
            match result {
                Ok(transfer) => {
                    &&& TransferRequestView::initiate_check(
                        id_in_use,
                        certificate.deep_view(),
                        from_address@,
                        to_address@,
                    ) is Ok
                    &&& transfer@ == TransferRequestView::initiated(
                        transfer_id@,
                        certificate_id@,
                        from_address@,
                        to_address@,
                        require_revocation,
                        transfer_fee,
                        memo.deep_view(),
                        now,
                    )
                },
                Err(e) => TransferRequestView::initiate_check(
                    id_in_use,
                    certificate.deep_view(),
                    from_address@,
                    to_address@,
                ) == Err::<(), CertificateError>(e),
            },
    {
        if id_in_use {
            return Err(CertificateError::AlreadyExists);
        }
        let certificate = match certificate {
            Some(c) => c,
            None => {
                return Err(CertificateError::NotFound);
            },
        };
        if certificate.owner != from_address {
            return Err(CertificateError::Unauthorized);
        }
        if certificate.revoked {
            return Err(CertificateError::AlreadyRevoked);
        }
        if from_address == to_address {
            return Err(CertificateError::InvalidData);
        }
        Ok(
            TransferRequest {
                id: transfer_id,
                certificate_id,
                from_address,
                to_address,
                initiated_at: now,
                accepted_at: None,
                completed_at: None,
                status: TransferStatus::Pending,
                require_revocation,
                transfer_fee,
                memo,
            },
        )
    }

    /// The notice of this request's initiation.
    pub fn initiated_event(&self) -> (event: TransferInitiatedEvent)
        ensures
            event.transfer_id@ == self@.id,
            event.certificate_id@ == self@.certificate_id,
            event.from_address@ == self@.from_address,
            event.to_address@ == self@.to_address,
            event.initiated_at == self@.initiated_at,
            event.transfer_fee == self@.transfer_fee,
    {
        TransferInitiatedEvent {
            transfer_id: self.id.clone(),
            certificate_id: self.certificate_id.clone(),
            from_address: self.from_address.clone(),
            to_address: self.to_address.clone(),
            initiated_at: self.initiated_at,
            transfer_fee: self.transfer_fee,
        }
    }

    /// Accepts the request in the name of `recipient` at `now`.
    ///
    /// The caller has proven control of `recipient`. Only the request's
    /// recipient may accept, and only while the request is pending.
    pub fn accept(&mut self, recipient: &Address, now: u64) -> (result: Result<
        TransferAcceptedEvent,
        CertificateError,
    >)
        ensures
            match result {
                Ok(event) => {
                    &&& old(self)@.answer_check(recipient@) is Ok
                    &&& final(self)@ == old(self)@.accepted(now)
                    &&& event.transfer_id@ == old(self)@.id
                    &&& event.accepted_at == now
                },
                Err(e) => {
                    &&& old(self)@.answer_check(recipient@) == Err::<(), CertificateError>(e)
                    &&& final(self)@ == old(self)@
                },
            },
    {
        if self.to_address != *recipient {
            return Err(CertificateError::Unauthorized);
        }
        if self.status != TransferStatus::Pending {
            return Err(CertificateError::TransferNotPending);
        }
        self.status = TransferStatus::Accepted;
        self.accepted_at = Some(now);
        Ok(TransferAcceptedEvent { transfer_id: self.id.clone(), accepted_at: now })
    }

    /// Rejects the request in the name of `recipient` at `now`.
    ///
    /// The caller has proven control of `recipient`. Only the request's
    /// recipient may reject, and only while the request is pending.
    pub fn reject(&mut self, recipient: &Address, now: u64) -> (result: Result<
        TransferRejectedEvent,
        CertificateError,
    >)
        ensures
            match result {
                Ok(event) => {
                    &&& old(self)@.answer_check(recipient@) is Ok
                    &&& final(self)@ == old(self)@.rejected()
                    &&& event.transfer_id@ == old(self)@.id
                    &&& event.rejected_at == now
                },
                Err(e) => {
                    &&& old(self)@.answer_check(recipient@) == Err::<(), CertificateError>(e)
                    &&& final(self)@ == old(self)@
                },
            },
    {
        if self.to_address != *recipient {
            return Err(CertificateError::Unauthorized);
        }
        if self.status != TransferStatus::Pending {
            return Err(CertificateError::TransferNotPending);
        }
        self.status = TransferStatus::Rejected;
        Ok(TransferRejectedEvent { transfer_id: self.id.clone(), rejected_at: now })
    }

    /// Cancels the request in the name of `sender` at `now`.
    ///
    /// The caller has proven control of `sender`. Only the request's sender
    /// may cancel, and only while the request is pending.
    pub fn cancel(&mut self, sender: &Address, now: u64) -> (result: Result<
        TransferCancelledEvent,
        CertificateError,
    >)
        ensures
            match result {
                Ok(event) => {
                    &&& old(self)@.cancel_check(sender@) is Ok
                    &&& final(self)@ == old(self)@.cancelled()
                    &&& event.transfer_id@ == old(self)@.id
                    &&& event.cancelled_at == now
                },
                Err(e) => {
                    &&& old(self)@.cancel_check(sender@) == Err::<(), CertificateError>(e)
                    &&& final(self)@ == old(self)@
                },
            },
    {
        if self.from_address != *sender {
            return Err(CertificateError::Unauthorized);
        }
        if self.status != TransferStatus::Pending {
            return Err(CertificateError::TransferNotPending);
        }
        self.status = TransferStatus::Cancelled;
        Ok(TransferCancelledEvent { transfer_id: self.id.clone(), cancelled_at: now })
    }

    /// Completes the request on `certificate` in the name of `executor`.
    ///
    /// `certificate` is the certificate kept under the request's certificate
    /// id, if any. The caller has proven control of `executor`, who must be
    /// the sender, the recipient or the certificate's issuer. Only an accepted
    /// request can be completed. On success the certificate goes to the
    /// recipient, revoked in the sender's name first if the request asks for
    /// it, and the request is completed at `now`.
    pub fn complete(&self, certificate: Option<&Certificate>, executor: &Address, now: u64) -> (result:
        Result<Completion, CertificateError>)
        ensures
            match result {
                Ok(done) => {
                    &&& self@.complete_check(certificate.deep_view(), executor@) is Ok
                    &&& self@.status == TransferStatus::Accepted
                    &&& done.transfer@ == self@.completed(now)
                    &&& done.certificate@ == self@.hand_over(certificate.unwrap()@, now)
                    &&& done.certificate@.owner == self@.to_address
                    &&& self@.require_revocation ==> done.certificate@.revoked
                        && done.certificate@.revoked_by == Some(self@.from_address)
                    &&& done.entry@ == self@.history_entry(now)
                    &&& done.event.transfer_id@ == self@.id
                    &&& done.event.certificate_id@ == self@.certificate_id
                    &&& done.event.from_address@ == self@.from_address
                    &&& done.event.to_address@ == self@.to_address
                    &&& done.event.completed_at == now
                    &&& done.event.transfer_fee == self@.transfer_fee
                },
                Err(e) => self@.complete_check(certificate.deep_view(), executor@) == Err::<
                    (),
                    CertificateError,
                >(e),
            },
    {
        if self.status != TransferStatus::Accepted {
            return Err(CertificateError::InvalidTransferStatus);
        }
        let certificate = match certificate {
            Some(c) => c,
            None => {
                return Err(CertificateError::NotFound);
            },
        };
        if *executor != self.from_address && *executor != self.to_address && *executor
            != certificate.issuer {
            return Err(CertificateError::Unauthorized);
        }
        let mut handed = certificate.clone();
        if self.require_revocation {
            handed.revoked = true;
            handed.revocation_reason = Some(String::from_str(TRANSFER_REVOCATION_REASON));
            handed.revoked_at = Some(now);
            handed.revoked_by = Some(self.from_address.clone());
        }
        handed.owner = self.to_address.clone();
        let mut transfer = self.clone();
        transfer.status = TransferStatus::Completed;
        transfer.completed_at = Some(now);
        let entry = TransferHistory {
            transfer_id: self.id.clone(),
            certificate_id: self.certificate_id.clone(),
            from_address: self.from_address.clone(),
            to_address: self.to_address.clone(),
            transferred_at: now,
            transfer_fee: self.transfer_fee,
            memo: copy_text(&self.memo),
        };
        let event = TransferCompletedEvent {
            transfer_id: self.id.clone(),
            certificate_id: self.certificate_id.clone(),
            from_address: self.from_address.clone(),
            to_address: self.to_address.clone(),
            completed_at: now,
            transfer_fee: self.transfer_fee,
        };
        Ok(Completion { transfer, certificate: handed, entry, event })
    }
}

} // verus!
