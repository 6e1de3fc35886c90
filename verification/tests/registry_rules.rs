use certificate_registry::address::Address;
use certificate_registry::contract::CertificateContract;
use certificate_registry::error::CertificateError;
use certificate_registry::transfer::{TransferStatus, TRANSFER_REVOCATION_REASON};

fn text(s: &str) -> String {
    String::from(s)
}

fn who(s: &str) -> Address {
    Address::from_str(s)
}

/// A registry with certificate "C1", issued by "I" to "O" at time 10.
fn registry_with_c1() -> CertificateContract {
    let mut registry = CertificateContract::new();
    registry.issue_certificate(text("C1"), who("I"), who("O"), text("ipfs://c1"), 10).unwrap();
    registry
}

fn initiate(
    registry: &mut CertificateContract,
    transfer: &str,
    certificate: &str,
    from: &str,
    to: &str,
    require_revocation: bool,
    now: u64,
) -> Result<(), CertificateError> {
    registry
        .initiate_transfer(
            text(transfer),
            text(certificate),
            who(from),
            who(to),
            require_revocation,
            0,
            None,
            now,
        )
        .map(|_| ())
}

fn status_of(registry: &CertificateContract, transfer: &str) -> TransferStatus {
    registry.get_transfer(text(transfer)).unwrap().status
}

#[test]
fn empty_registry_answers_queries_with_defaults() {
    let registry = CertificateContract::new();
    assert_eq!(registry.get_transfer_count(), 0);
    assert!(registry.get_pending_transfers(who("N")).is_empty());
    assert!(registry.get_transfer_history(text("C1")).is_empty());
    assert_eq!(registry.get_certificate(text("C1")).unwrap_err(), CertificateError::NotFound);
    assert_eq!(registry.is_revoked(text("C1")).unwrap_err(), CertificateError::NotFound);
    assert_eq!(
        registry.get_transfer(text("T1")).unwrap_err(),
        CertificateError::TransferNotFound
    );
}

#[test]
fn issued_certificate_has_no_revocation_fields() {
    let registry = registry_with_c1();
    let cert = registry.get_certificate(text("C1")).unwrap();
    assert_eq!(cert.id, "C1");
    assert_eq!(cert.issuer, who("I"));
    assert_eq!(cert.owner, who("O"));
    assert_eq!(cert.metadata_uri, "ipfs://c1");
    assert_eq!(cert.issued_at, 10);
    assert!(!cert.revoked);
    assert_eq!(cert.revocation_reason, None);
    assert_eq!(cert.revoked_at, None);
    assert_eq!(cert.revoked_by, None);
    assert_eq!(registry.is_revoked(text("C1")), Ok(false));
}

#[test]
fn issuing_a_taken_id_fails_and_keeps_the_first_certificate() {
    let mut registry = registry_with_c1();
    let first = registry.get_certificate(text("C1")).unwrap();
    let again = registry.issue_certificate(text("C1"), who("X"), who("Y"), text("other"), 99);
    assert_eq!(again, Err(CertificateError::AlreadyExists));
    assert_eq!(registry.get_certificate(text("C1")).unwrap(), first);
}

#[test]
fn revoke_records_reason_time_and_issuer() {
    let mut registry = registry_with_c1();
    assert_eq!(registry.revoke_certificate(text("C1"), text("fraud"), 20), Ok(()));
    let cert = registry.get_certificate(text("C1")).unwrap();
    assert!(cert.revoked);
    assert_eq!(cert.revocation_reason, Some(text("fraud")));
    assert_eq!(cert.revoked_at, Some(20));
    assert_eq!(cert.revoked_by, Some(who("I")));
    assert_eq!(cert.owner, who("O"));
    assert_eq!(registry.is_revoked(text("C1")), Ok(true));
}

#[test]
fn second_revoke_fails_and_changes_nothing() {
    let mut registry = registry_with_c1();
    registry.revoke_certificate(text("C1"), text("first"), 20).unwrap();
    let after_first = registry.get_certificate(text("C1")).unwrap();
    assert_eq!(
        registry.revoke_certificate(text("C1"), text("second"), 30),
        Err(CertificateError::AlreadyRevoked)
    );
    assert_eq!(registry.get_certificate(text("C1")).unwrap(), after_first);
}

#[test]
fn revoke_of_unknown_certificate_is_not_found() {
    let mut registry = CertificateContract::new();
    assert_eq!(
        registry.revoke_certificate(text("C9"), text("why"), 1),
        Err(CertificateError::NotFound)
    );
}

#[test]
fn revoked_stays_revoked_through_a_transfer() {
    let mut registry = registry_with_c1();
    initiate(&mut registry, "T1", "C1", "O", "N", false, 11).unwrap();
    registry.revoke_certificate(text("C1"), text("late"), 12).unwrap();
    registry.accept_transfer(text("T1"), who("N"), 13).unwrap();
    registry.complete_transfer(text("T1"), who("N"), 14).unwrap();
    let cert = registry.get_certificate(text("C1")).unwrap();
    assert_eq!(cert.owner, who("N"));
    assert!(cert.revoked);
    assert_eq!(cert.revocation_reason, Some(text("late")));
    assert_eq!(cert.revoked_at, Some(12));
    assert_eq!(cert.revoked_by, Some(who("I")));
    assert_eq!(
        registry.revoke_certificate(text("C1"), text("again"), 15),
        Err(CertificateError::AlreadyRevoked)
    );
}

#[test]
fn initiate_creates_a_pending_request_and_announces_it() {
    let mut registry = registry_with_c1();
    let event = registry
        .initiate_transfer(
            text("T1"),
            text("C1"),
            who("O"),
            who("N"),
            true,
            250,
            Some(text("gift")),
            42,
        )
        .unwrap();
    assert_eq!(event.transfer_id, "T1");
    assert_eq!(event.certificate_id, "C1");
    assert_eq!(event.from_address, who("O"));
    assert_eq!(event.to_address, who("N"));
    assert_eq!(event.initiated_at, 42);
    assert_eq!(event.transfer_fee, 250);

    let transfer = registry.get_transfer(text("T1")).unwrap();
    assert_eq!(transfer.id, "T1");
    assert_eq!(transfer.certificate_id, "C1");
    assert_eq!(transfer.from_address, who("O"));
    assert_eq!(transfer.to_address, who("N"));
    assert_eq!(transfer.initiated_at, 42);
    assert_eq!(transfer.accepted_at, None);
    assert_eq!(transfer.completed_at, None);
    assert_eq!(transfer.status, TransferStatus::Pending);
    assert!(transfer.require_revocation);
    assert_eq!(transfer.transfer_fee, 250);
    assert_eq!(transfer.memo, Some(text("gift")));
    assert_eq!(registry.get_pending_transfers(who("N")), vec![text("T1")]);
    assert_eq!(registry.get_transfer_count(), 1);
}

#[test]
fn initiate_refuses_a_used_transfer_id_even_after_its_end() {
    let mut registry = registry_with_c1();
    registry.issue_certificate(text("C2"), who("I"), who("P"), text("ipfs://c2"), 10).unwrap();
    initiate(&mut registry, "T1", "C1", "O", "N", false, 11).unwrap();
    registry.reject_transfer(text("T1"), who("N"), 12).unwrap();
    assert_eq!(
        initiate(&mut registry, "T1", "C1", "O", "N", false, 13),
        Err(CertificateError::AlreadyExists)
    );
    // Not on another certificate either.
    assert_eq!(
        initiate(&mut registry, "T1", "C2", "P", "N", false, 14),
        Err(CertificateError::AlreadyExists)
    );
    assert_eq!(status_of(&registry, "T1"), TransferStatus::Rejected);
    assert_eq!(registry.get_transfer_count(), 1);
}

#[test]
fn initiate_on_unknown_certificate_is_not_found() {
    let mut registry = registry_with_c1();
    assert_eq!(
        initiate(&mut registry, "T1", "C9", "O", "N", false, 11),
        Err(CertificateError::NotFound)
    );
    assert_eq!(
        registry.get_transfer(text("T1")).unwrap_err(),
        CertificateError::TransferNotFound
    );
}

#[test]
fn initiate_by_non_owner_is_unauthorized_and_leaves_no_trace() {
    let mut registry = registry_with_c1();
    assert_eq!(
        initiate(&mut registry, "T2", "C1", "U", "N", false, 11),
        Err(CertificateError::Unauthorized)
    );
    assert_eq!(
        registry.get_transfer(text("T2")).unwrap_err(),
        CertificateError::TransferNotFound
    );
    assert!(registry.get_pending_transfers(who("N")).is_empty());
    assert_eq!(registry.get_transfer_count(), 0);
}

#[test]
fn initiate_by_issuer_who_is_not_owner_is_unauthorized() {
    let mut registry = registry_with_c1();
    assert_eq!(
        initiate(&mut registry, "T1", "C1", "I", "N", false, 11),
        Err(CertificateError::Unauthorized)
    );
}

#[test]
fn initiate_on_revoked_certificate_is_already_revoked() {
    let mut registry = registry_with_c1();
    registry.revoke_certificate(text("C1"), text("fraud"), 11).unwrap();
    assert_eq!(
        initiate(&mut registry, "T1", "C1", "O", "N", false, 12),
        Err(CertificateError::AlreadyRevoked)
    );
    assert_eq!(registry.get_transfer_count(), 0);
}

#[test]
fn initiate_to_oneself_is_invalid_data() {
    let mut registry = registry_with_c1();
    assert_eq!(
        initiate(&mut registry, "T1", "C1", "O", "O", false, 11),
        Err(CertificateError::InvalidData)
    );
    assert!(registry.get_pending_transfers(who("O")).is_empty());
}

#[test]
fn initiate_checks_come_in_their_order() {
    let mut registry = registry_with_c1();
    initiate(&mut registry, "T1", "C1", "O", "N", false, 11).unwrap();
    // A used id wins over an unknown certificate.
    assert_eq!(
        initiate(&mut registry, "T1", "C9", "O", "N", false, 12),
        Err(CertificateError::AlreadyExists)
    );
    registry.revoke_certificate(text("C1"), text("fraud"), 13).unwrap();
    // A stranger wins over the revocation, and over sending to oneself.
    assert_eq!(
        initiate(&mut registry, "T2", "C1", "U", "U", false, 14),
        Err(CertificateError::Unauthorized)
    );
    // The revocation wins over sending to oneself.
    assert_eq!(
        initiate(&mut registry, "T2", "C1", "O", "O", false, 15),
        Err(CertificateError::AlreadyRevoked)
    );
}

#[test]
fn accept_sets_status_and_time_and_clears_the_index() {
    let mut registry = registry_with_c1();
    initiate(&mut registry, "T1", "C1", "O", "N", false, 11).unwrap();
    let event = registry.accept_transfer(text("T1"), who("N"), 77).unwrap();
    assert_eq!(event.transfer_id, "T1");
    assert_eq!(event.accepted_at, 77);
    let transfer = registry.get_transfer(text("T1")).unwrap();
    assert_eq!(transfer.status, TransferStatus::Accepted);
    assert_eq!(transfer.accepted_at, Some(77));
    assert_eq!(transfer.completed_at, None);
    assert!(registry.get_pending_transfers(who("N")).is_empty());
    // The certificate has not moved yet.
    assert_eq!(registry.get_certificate(text("C1")).unwrap().owner, who("O"));
}

#[test]
fn accept_fails_for_unknown_wrong_recipient_and_non_pending() {
    let mut registry = registry_with_c1();
    assert_eq!(
        registry.accept_transfer(text("T1"), who("N"), 1).unwrap_err(),
        CertificateError::TransferNotFound
    );
    initiate(&mut registry, "T1", "C1", "O", "N", false, 11).unwrap();
    assert_eq!(
        registry.accept_transfer(text("T1"), who("O"), 12).unwrap_err(),
        CertificateError::Unauthorized
    );
    assert_eq!(status_of(&registry, "T1"), TransferStatus::Pending);
    assert_eq!(registry.get_pending_transfers(who("N")), vec![text("T1")]);
    registry.accept_transfer(text("T1"), who("N"), 13).unwrap();
    assert_eq!(
        registry.accept_transfer(text("T1"), who("N"), 14).unwrap_err(),
        CertificateError::TransferNotPending
    );
    // The wrong recipient is told so before the status is looked at.
    assert_eq!(
        registry.accept_transfer(text("T1"), who("O"), 15).unwrap_err(),
        CertificateError::Unauthorized
    );
    assert_eq!(registry.get_transfer(text("T1")).unwrap().accepted_at, Some(13));
}

#[test]
fn reject_is_terminal_and_announces_the_time() {
    let mut registry = registry_with_c1();
    initiate(&mut registry, "T1", "C1", "O", "N", false, 11).unwrap();
    assert_eq!(
        registry.reject_transfer(text("T1"), who("X"), 12).unwrap_err(),
        CertificateError::Unauthorized
    );
    let event = registry.reject_transfer(text("T1"), who("N"), 13).unwrap();
    assert_eq!(event.transfer_id, "T1");
    assert_eq!(event.rejected_at, 13);
    let transfer = registry.get_transfer(text("T1")).unwrap();
    assert_eq!(transfer.status, TransferStatus::Rejected);
    assert_eq!(transfer.accepted_at, None);
    assert_eq!(transfer.completed_at, None);
    assert!(registry.get_pending_transfers(who("N")).is_empty());

    assert_eq!(
        registry.accept_transfer(text("T1"), who("N"), 14).unwrap_err(),
        CertificateError::TransferNotPending
    );
    assert_eq!(
        registry.reject_transfer(text("T1"), who("N"), 14).unwrap_err(),
        CertificateError::TransferNotPending
    );
    assert_eq!(
        registry.cancel_transfer(text("T1"), who("O"), 14).unwrap_err(),
        CertificateError::TransferNotPending
    );
    assert_eq!(
        registry.complete_transfer(text("T1"), who("O"), 14).unwrap_err(),
        CertificateError::InvalidTransferStatus
    );
    assert_eq!(status_of(&registry, "T1"), TransferStatus::Rejected);
    assert_eq!(
        registry.reject_transfer(text("T0"), who("N"), 14).unwrap_err(),
        CertificateError::TransferNotFound
    );
}

#[test]
fn cancel_is_terminal_and_clears_the_recipients_index() {
    let mut registry = registry_with_c1();
    initiate(&mut registry, "T1", "C1", "O", "N", false, 11).unwrap();
    // The recipient cannot cancel; only the sender can.
    assert_eq!(
        registry.cancel_transfer(text("T1"), who("N"), 12).unwrap_err(),
        CertificateError::Unauthorized
    );
    let event = registry.cancel_transfer(text("T1"), who("O"), 13).unwrap();
    assert_eq!(event.transfer_id, "T1");
    assert_eq!(event.cancelled_at, 13);
    assert_eq!(status_of(&registry, "T1"), TransferStatus::Cancelled);
    assert!(registry.get_pending_transfers(who("N")).is_empty());
    assert!(registry.get_pending_transfers(who("O")).is_empty());

    assert_eq!(
        registry.accept_transfer(text("T1"), who("N"), 14).unwrap_err(),
        CertificateError::TransferNotPending
    );
    assert_eq!(
        registry.cancel_transfer(text("T1"), who("O"), 14).unwrap_err(),
        CertificateError::TransferNotPending
    );
    assert_eq!(
        registry.complete_transfer(text("T1"), who("O"), 14).unwrap_err(),
        CertificateError::InvalidTransferStatus
    );
    assert_eq!(
        registry.cancel_transfer(text("T0"), who("O"), 14).unwrap_err(),
        CertificateError::TransferNotFound
    );
}

#[test]
fn cancel_after_acceptance_is_not_pending() {
    let mut registry = registry_with_c1();
    initiate(&mut registry, "T1", "C1", "O", "N", false, 11).unwrap();
    registry.accept_transfer(text("T1"), who("N"), 12).unwrap();
    assert_eq!(
        registry.cancel_transfer(text("T1"), who("O"), 13).unwrap_err(),
        CertificateError::TransferNotPending
    );
    assert_eq!(
        registry.reject_transfer(text("T1"), who("N"), 13).unwrap_err(),
        CertificateError::TransferNotPending
    );
    assert_eq!(status_of(&registry, "T1"), TransferStatus::Accepted);
}

#[test]
fn complete_needs_an_accepted_transfer() {
    let mut registry = registry_with_c1();
    assert_eq!(
        registry.complete_transfer(text("T1"), who("O"), 1).unwrap_err(),
        CertificateError::TransferNotFound
    );
    initiate(&mut registry, "T1", "C1", "O", "N", false, 11).unwrap();
    // Pending: not yet.
    assert_eq!(
        registry.complete_transfer(text("T1"), who("O"), 12).unwrap_err(),
        CertificateError::InvalidTransferStatus
    );
    assert_eq!(registry.get_certificate(text("C1")).unwrap().owner, who("O"));
    assert!(registry.get_transfer_history(text("C1")).is_empty());
    registry.accept_transfer(text("T1"), who("N"), 13).unwrap();
    registry.complete_transfer(text("T1"), who("O"), 14).unwrap();
    // Completed: not twice.
    assert_eq!(
        registry.complete_transfer(text("T1"), who("O"), 15).unwrap_err(),
        CertificateError::InvalidTransferStatus
    );
    assert_eq!(registry.get_transfer_history(text("C1")).len(), 1);
    assert_eq!(registry.get_transfer(text("T1")).unwrap().completed_at, Some(14));
}

#[test]
fn complete_by_a_stranger_is_unauthorized_but_status_is_looked_at_first() {
    let mut registry = registry_with_c1();
    initiate(&mut registry, "T1", "C1", "O", "N", false, 11).unwrap();
    assert_eq!(
        registry.complete_transfer(text("T1"), who("S"), 12).unwrap_err(),
        CertificateError::InvalidTransferStatus
    );
    registry.accept_transfer(text("T1"), who("N"), 13).unwrap();
    assert_eq!(
        registry.complete_transfer(text("T1"), who("S"), 14).unwrap_err(),
        CertificateError::Unauthorized
    );
    assert_eq!(status_of(&registry, "T1"), TransferStatus::Accepted);
    assert_eq!(registry.get_certificate(text("C1")).unwrap().owner, who("O"));
    assert!(registry.get_transfer_history(text("C1")).is_empty());
}

#[test]
fn complete_may_be_executed_by_sender_recipient_or_issuer() {
    for executor in ["O", "N", "I"] {
        let mut registry = registry_with_c1();
        initiate(&mut registry, "T1", "C1", "O", "N", false, 11).unwrap();
        registry.accept_transfer(text("T1"), who("N"), 12).unwrap();
        let event = registry.complete_transfer(text("T1"), who(executor), 13).unwrap();
        assert_eq!(event.transfer_id, "T1");
        assert_eq!(event.certificate_id, "C1");
        assert_eq!(event.from_address, who("O"));
        assert_eq!(event.to_address, who("N"));
        assert_eq!(event.completed_at, 13);
        assert_eq!(event.transfer_fee, 0);
        assert_eq!(registry.get_certificate(text("C1")).unwrap().owner, who("N"));
    }
}

#[test]
fn complete_with_revocation_changes_owner_and_revokes_in_the_senders_name() {
    let mut registry = registry_with_c1();
    initiate(&mut registry, "T3", "C1", "O", "X", true, 11).unwrap();
    registry.accept_transfer(text("T3"), who("X"), 12).unwrap();
    registry.complete_transfer(text("T3"), who("I"), 13).unwrap();
    let cert = registry.get_certificate(text("C1")).unwrap();
    assert_eq!(cert.owner, who("X"));
    assert!(cert.revoked);
    assert_eq!(cert.revocation_reason, Some(text("Transferred to new owner")));
    assert_eq!(cert.revocation_reason, Some(text(TRANSFER_REVOCATION_REASON)));
    assert_eq!(cert.revoked_at, Some(13));
    assert_eq!(cert.revoked_by, Some(who("O")));
    assert_eq!(cert.issuer, who("I"));
    assert_eq!(registry.is_revoked(text("C1")), Ok(true));
}

#[test]
fn complete_without_revocation_leaves_the_certificate_unrevoked() {
    let mut registry = registry_with_c1();
    initiate(&mut registry, "T1", "C1", "O", "N", false, 11).unwrap();
    registry.accept_transfer(text("T1"), who("N"), 12).unwrap();
    registry.complete_transfer(text("T1"), who("O"), 13).unwrap();
    let cert = registry.get_certificate(text("C1")).unwrap();
    assert_eq!(cert.owner, who("N"));
    assert!(!cert.revoked);
    assert_eq!(cert.revocation_reason, None);
    assert_eq!(cert.revoked_at, None);
    assert_eq!(cert.revoked_by, None);
    assert_eq!(cert.issued_at, 10);
}

#[test]
fn scenario_transfer_of_c1_from_owner_to_new_owner() {
    let mut registry = registry_with_c1();
    initiate(&mut registry, "T1", "C1", "O", "N", false, 11).unwrap();
    assert_eq!(registry.get_pending_transfers(who("N")), vec![text("T1")]);
    registry.accept_transfer(text("T1"), who("N"), 12).unwrap();
    assert_eq!(registry.get_pending_transfers(who("N")), Vec::<String>::new());
    registry.complete_transfer(text("T1"), who("O"), 13).unwrap();
    assert_eq!(registry.get_certificate(text("C1")).unwrap().owner, who("N"));
    let history = registry.get_transfer_history(text("C1"));
    assert_eq!(history.len(), 1);
    assert_eq!(history[0].transfer_id, "T1");
    assert_eq!(history[0].certificate_id, "C1");
    assert_eq!(history[0].from_address, who("O"));
    assert_eq!(history[0].to_address, who("N"));
    assert_eq!(history[0].transfer_fee, 0);
    assert_eq!(history[0].transferred_at, 13);
    assert_eq!(history[0].memo, None);
}

#[test]
fn history_grows_by_one_entry_per_completion_in_order() {
    let mut registry = registry_with_c1();
    registry.issue_certificate(text("C2"), who("I"), who("O"), text("ipfs://c2"), 10).unwrap();
    initiate(&mut registry, "T1", "C1", "O", "N", false, 11).unwrap();
    registry.accept_transfer(text("T1"), who("N"), 12).unwrap();
    registry.complete_transfer(text("T1"), who("O"), 13).unwrap();
    registry
        .initiate_transfer(text("T2"), text("C1"), who("N"), who("M"), false, 5, Some(text("on")), 14)
        .unwrap();
    assert_eq!(registry.get_transfer_history(text("C1")).len(), 1);
    registry.accept_transfer(text("T2"), who("M"), 15).unwrap();
    assert_eq!(registry.get_transfer_history(text("C1")).len(), 1);
    registry.complete_transfer(text("T2"), who("M"), 16).unwrap();
    let history = registry.get_transfer_history(text("C1"));
    assert_eq!(history.len(), 2);
    assert_eq!(history[0].transfer_id, "T1");
    assert_eq!(history[0].transferred_at, 13);
    assert_eq!(history[1].transfer_id, "T2");
    assert_eq!(history[1].from_address, who("N"));
    assert_eq!(history[1].to_address, who("M"));
    assert_eq!(history[1].transferred_at, 16);
    assert_eq!(history[1].transfer_fee, 5);
    assert_eq!(history[1].memo, Some(text("on")));
    // The other certificate's trail is its own.
    assert!(registry.get_transfer_history(text("C2")).is_empty());
}

#[test]
fn pending_index_lists_exactly_the_pending_transfers_of_each_identity() {
    let mut registry = registry_with_c1();
    registry.issue_certificate(text("C2"), who("I"), who("O"), text("ipfs://c2"), 10).unwrap();
    registry.issue_certificate(text("C3"), who("I"), who("P"), text("ipfs://c3"), 10).unwrap();
    initiate(&mut registry, "T1", "C1", "O", "N", false, 11).unwrap();
    initiate(&mut registry, "T2", "C2", "O", "N", false, 12).unwrap();
    initiate(&mut registry, "T3", "C3", "P", "N", false, 13).unwrap();
    initiate(&mut registry, "T4", "C1", "O", "M", false, 14).unwrap();
    assert_eq!(
        registry.get_pending_transfers(who("N")),
        vec![text("T1"), text("T2"), text("T3")]
    );
    assert_eq!(registry.get_pending_transfers(who("M")), vec![text("T4")]);
    assert!(registry.get_pending_transfers(who("O")).is_empty());

    registry.accept_transfer(text("T2"), who("N"), 15).unwrap();
    assert_eq!(registry.get_pending_transfers(who("N")), vec![text("T1"), text("T3")]);
    registry.cancel_transfer(text("T1"), who("O"), 16).unwrap();
    assert_eq!(registry.get_pending_transfers(who("N")), vec![text("T3")]);
    registry.reject_transfer(text("T3"), who("N"), 17).unwrap();
    assert!(registry.get_pending_transfers(who("N")).is_empty());
    assert_eq!(registry.get_pending_transfers(who("M")), vec![text("T4")]);

    // A failed call leaves the index alone.
    assert!(registry.accept_transfer(text("T4"), who("N"), 18).is_err());
    assert_eq!(registry.get_pending_transfers(who("M")), vec![text("T4")]);
    registry.complete_transfer(text("T2"), who("N"), 19).unwrap();
    assert_eq!(registry.get_pending_transfers(who("M")), vec![text("T4")]);
    assert!(registry.get_pending_transfers(who("N")).is_empty());
}

#[test]
fn transfer_count_counts_successful_initiations_only() {
    let mut registry = registry_with_c1();
    registry.issue_certificate(text("C2"), who("I"), who("O"), text("ipfs://c2"), 10).unwrap();
    assert_eq!(registry.get_transfer_count(), 0);
    initiate(&mut registry, "T1", "C1", "O", "N", false, 11).unwrap();
    assert_eq!(registry.get_transfer_count(), 1);
    assert!(initiate(&mut registry, "T1", "C1", "O", "N", false, 12).is_err());
    assert!(initiate(&mut registry, "T2", "C1", "U", "N", false, 12).is_err());
    assert!(initiate(&mut registry, "T2", "C9", "O", "N", false, 12).is_err());
    assert!(initiate(&mut registry, "T2", "C1", "O", "O", false, 12).is_err());
    assert_eq!(registry.get_transfer_count(), 1);
    initiate(&mut registry, "T2", "C2", "O", "N", false, 13).unwrap();
    initiate(&mut registry, "T3", "C2", "O", "M", false, 14).unwrap();
    assert_eq!(registry.get_transfer_count(), 3);
    registry.accept_transfer(text("T1"), who("N"), 15).unwrap();
    registry.reject_transfer(text("T2"), who("N"), 16).unwrap();
    registry.cancel_transfer(text("T3"), who("O"), 17).unwrap();
    registry.complete_transfer(text("T1"), who("O"), 18).unwrap();
    assert_eq!(registry.get_transfer_count(), 3);
}

#[test]
fn former_owner_cannot_initiate_after_completion() {
    let mut registry = registry_with_c1();
    initiate(&mut registry, "transfer-1", "C1", "O", "R1", false, 11).unwrap();
    registry.accept_transfer(text("transfer-1"), who("R1"), 12).unwrap();
    registry.complete_transfer(text("transfer-1"), who("O"), 13).unwrap();
    assert_eq!(
        initiate(&mut registry, "transfer-2", "C1", "O", "R2", false, 14),
        Err(CertificateError::Unauthorized)
    );
    assert_eq!(registry.get_transfer_count(), 1);
    initiate(&mut registry, "transfer-2", "C1", "R1", "R2", false, 15).unwrap();
    assert_eq!(registry.get_transfer_count(), 2);
}

#[test]
fn a_second_accepted_transfer_of_the_same_certificate_still_completes() {
    let mut registry = registry_with_c1();
    initiate(&mut registry, "T1", "C1", "O", "N", false, 11).unwrap();
    initiate(&mut registry, "T2", "C1", "O", "M", true, 12).unwrap();
    registry.accept_transfer(text("T1"), who("N"), 13).unwrap();
    registry.accept_transfer(text("T2"), who("M"), 14).unwrap();
    registry.complete_transfer(text("T1"), who("N"), 15).unwrap();
    assert_eq!(registry.get_certificate(text("C1")).unwrap().owner, who("N"));
    registry.complete_transfer(text("T2"), who("M"), 16).unwrap();
    let cert = registry.get_certificate(text("C1")).unwrap();
    assert_eq!(cert.owner, who("M"));
    assert!(cert.revoked);
    assert_eq!(cert.revoked_by, Some(who("O")));
    assert_eq!(cert.revoked_at, Some(16));
    let history = registry.get_transfer_history(text("C1"));
    assert_eq!(history.len(), 2);
    assert_eq!(history[0].transfer_id, "T1");
    assert_eq!(history[1].transfer_id, "T2");
}

#[test]
fn transfer_revocation_overwrites_an_earlier_revocation() {
    let mut registry = registry_with_c1();
    initiate(&mut registry, "T1", "C1", "O", "N", true, 11).unwrap();
    registry.accept_transfer(text("T1"), who("N"), 12).unwrap();
    registry.revoke_certificate(text("C1"), text("by issuer"), 13).unwrap();
    registry.complete_transfer(text("T1"), who("N"), 14).unwrap();
    let cert = registry.get_certificate(text("C1")).unwrap();
    assert!(cert.revoked);
    assert_eq!(cert.owner, who("N"));
    assert_eq!(cert.revocation_reason, Some(text(TRANSFER_REVOCATION_REASON)));
    assert_eq!(cert.revoked_at, Some(14));
    assert_eq!(cert.revoked_by, Some(who("O")));
}

#[test]
fn queries_return_copies_and_change_nothing() {
    let mut registry = registry_with_c1();
    initiate(&mut registry, "T1", "C1", "O", "N", false, 11).unwrap();
    let mut cert = registry.get_certificate(text("C1")).unwrap();
    cert.owner = who("thief");
    cert.revoked = true;
    let mut transfer = registry.get_transfer(text("T1")).unwrap();
    transfer.status = TransferStatus::Completed;
    let mut pending = registry.get_pending_transfers(who("N"));
    pending.clear();
    assert_eq!(registry.get_certificate(text("C1")).unwrap().owner, who("O"));
    assert_eq!(registry.is_revoked(text("C1")), Ok(false));
    assert_eq!(status_of(&registry, "T1"), TransferStatus::Pending);
    assert_eq!(registry.get_pending_transfers(who("N")), vec![text("T1")]);
}

#[test]
fn reserved_errors_are_values_of_their_own() {
    let all = [
        CertificateError::AlreadyExists,
        CertificateError::NotFound,
        CertificateError::Unauthorized,
        CertificateError::InvalidData,
        CertificateError::AlreadyRevoked,
        CertificateError::TransferNotFound,
        CertificateError::TransferNotPending,
        CertificateError::TransferNotAuthorized,
        CertificateError::InsufficientBalance,
        CertificateError::InvalidTransferStatus,
    ];
    for (i, a) in all.iter().enumerate() {
        for (j, b) in all.iter().enumerate() {
            assert_eq!(a == b, i == j);
        }
    }
}
