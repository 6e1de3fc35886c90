use vstd::prelude::*;

use crate::address::Address;
use crate::certificate::copy_text;

verus! {

/// The snapshot of one completed transfer in a certificate's audit trail.
#[derive(Debug)]
pub struct TransferHistory {
    pub transfer_id: String,
    pub certificate_id: String,
    pub from_address: Address,
    pub to_address: Address,
    pub transferred_at: u64,
    pub transfer_fee: u64,
    pub memo: Option<String>,
}

/// What a history entry says, with every text as its characters.
pub struct TransferHistoryView {
    pub transfer_id: Seq<char>,
    pub certificate_id: Seq<char>,
    pub from_address: Seq<char>,
    pub to_address: Seq<char>,
    pub transferred_at: u64,
    pub transfer_fee: u64,
    pub memo: Option<Seq<char>>,
}

impl View for TransferHistory {
    type V = TransferHistoryView;

    open spec fn view(&self) -> TransferHistoryView {
        TransferHistoryView {
            transfer_id: self.transfer_id@,
            certificate_id: self.certificate_id@,
            from_address: self.from_address@,
            to_address: self.to_address@,
            transferred_at: self.transferred_at,
            transfer_fee: self.transfer_fee,
            memo: self.memo.deep_view(),
        }
    }
}

impl DeepView for TransferHistory {
    type V = TransferHistoryView;

    open spec fn deep_view(&self) -> TransferHistoryView {
        self@
    }
}

impl Clone for TransferHistory {
    fn clone(&self) -> (copy: TransferHistory)
        ensures
            copy@ == self@,
    {
        TransferHistory {
            transfer_id: self.transfer_id.clone(),
            certificate_id: self.certificate_id.clone(),
            from_address: self.from_address.clone(),
            to_address: self.to_address.clone(),
            transferred_at: self.transferred_at,
            transfer_fee: self.transfer_fee,
            memo: copy_text(&self.memo),
        }
    }
}

/// The audit trail with one more entry at its end.
pub fn append(trail: &Vec<TransferHistory>, entry: TransferHistory) -> (longer: Vec<
    TransferHistory,
>)
    ensures
        longer.deep_view() == trail.deep_view().push(entry@),
{
    let mut longer: Vec<TransferHistory> = copy_trail(trail);
    longer.push(entry);
    assert(longer.deep_view() =~= trail.deep_view().push(entry@));
    longer
}

/// A copy of an audit trail, entry by entry.
pub fn copy_trail(trail: &Vec<TransferHistory>) -> (copy: Vec<TransferHistory>)
    ensures
        copy.deep_view() == trail.deep_view(),
{
    let mut copy: Vec<TransferHistory> = Vec::new();
    let mut i: usize = 0;
    while i < trail.len()
        invariant
            i <= trail@.len(),
            copy@.len() == i,
            forall|j: int| 0 <= j < i ==> copy@[j]@ == trail@[j]@,
        decreases trail@.len() - i,
    {
        copy.push(trail[i].clone());
        i = i + 1;
    }
    assert(copy.deep_view() =~= trail.deep_view());
    copy
}

} // verus!
