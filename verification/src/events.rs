use vstd::prelude::*;

use crate::address::Address;

verus! {

/// Notice that a transfer was initiated and awaits its recipient.
#[derive(Debug)]
pub struct TransferInitiatedEvent {
    pub transfer_id: String,
    pub certificate_id: String,
    pub from_address: Address,
    pub to_address: Address,
    pub initiated_at: u64,
    pub transfer_fee: u64,
}

/// Notice that the recipient accepted a transfer.
#[derive(Debug)]
pub struct TransferAcceptedEvent {
    pub transfer_id: String,
    pub accepted_at: u64,
}

/// Notice that a transfer was completed and the certificate changed hands.
#[derive(Debug)]
pub struct TransferCompletedEvent {
    pub transfer_id: String,
    pub certificate_id: String,
    pub from_address: Address,
    pub to_address: Address,
    pub completed_at: u64,
    pub transfer_fee: u64,
}

/// Notice that the recipient rejected a transfer.
#[derive(Debug)]
pub struct TransferRejectedEvent {
    pub transfer_id: String,
    pub rejected_at: u64,
}

/// Notice that the sender cancelled a transfer.
#[derive(Debug)]
pub struct TransferCancelledEvent {
    pub transfer_id: String,
    pub cancelled_at: u64,
}

impl Clone for TransferInitiatedEvent {
    fn clone(&self) -> (copy: TransferInitiatedEvent)
        ensures
            copy.transfer_id@ == self.transfer_id@,
            copy.certificate_id@ == self.certificate_id@,
            copy.from_address@ == self.from_address@,
            copy.to_address@ == self.to_address@,
            copy.initiated_at == self.initiated_at,
            copy.transfer_fee == self.transfer_fee,
    {
        TransferInitiatedEvent {
            transfer_id: self.transfer_id.clone(),
            certificate_id: self.certificate_id.clone(),
            from_address: self.from_address.clone(),
            to_address: self.to_address.clone(),
            initiated_at: self.initiated_at,
            transfer_fee: self.transfer_fee,
        }
    }
}

impl Clone for TransferAcceptedEvent {
    fn clone(&self) -> (copy: TransferAcceptedEvent)
        ensures
            copy.transfer_id@ == self.transfer_id@,
            copy.accepted_at == self.accepted_at,
    {
        TransferAcceptedEvent { transfer_id: self.transfer_id.clone(), accepted_at: self.accepted_at }
    }
}

impl Clone for TransferCompletedEvent {
    fn clone(&self) -> (copy: TransferCompletedEvent)
        ensures
            copy.transfer_id@ == self.transfer_id@,
            copy.certificate_id@ == self.certificate_id@,
            copy.from_address@ == self.from_address@,
            copy.to_address@ == self.to_address@,
            copy.completed_at == self.completed_at,
            copy.transfer_fee == self.transfer_fee,
    {
        TransferCompletedEvent {
            transfer_id: self.transfer_id.clone(),
            certificate_id: self.certificate_id.clone(),
            from_address: self.from_address.clone(),
            to_address: self.to_address.clone(),
            completed_at: self.completed_at,
            transfer_fee: self.transfer_fee,
        }
    }
}

impl Clone for TransferRejectedEvent {
    fn clone(&self) -> (copy: TransferRejectedEvent)
        ensures
            copy.transfer_id@ == self.transfer_id@,
            copy.rejected_at == self.rejected_at,
    {
        TransferRejectedEvent { transfer_id: self.transfer_id.clone(), rejected_at: self.rejected_at }
    }
}

impl Clone for TransferCancelledEvent {
    fn clone(&self) -> (copy: TransferCancelledEvent)
        ensures
            copy.transfer_id@ == self.transfer_id@,
            copy.cancelled_at == self.cancelled_at,
    {
        TransferCancelledEvent {
            transfer_id: self.transfer_id.clone(),
            cancelled_at: self.cancelled_at,
        }
    }
}

} // verus!
