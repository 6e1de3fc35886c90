use vstd::prelude::*;

use crate::address::Address;
use crate::error::CertificateError;

verus! {

/// An issued, revocable record of ownership over a metadata reference.
#[derive(Debug)]
pub struct Certificate {
    pub id: String,
    pub issuer: Address,
    pub owner: Address,
    pub metadata_uri: String,
    pub issued_at: u64,
    pub revoked: bool,
    pub revocation_reason: Option<String>,
    pub revoked_at: Option<u64>,
    pub revoked_by: Option<Address>,
}

/// What a certificate says, with every text as its characters.
pub struct CertificateView {
    pub id: Seq<char>,
    pub issuer: Seq<char>,
    pub owner: Seq<char>,
    pub metadata_uri: Seq<char>,
    pub issued_at: u64,
    pub revoked: bool,
    pub revocation_reason: Option<Seq<char>>,
    pub revoked_at: Option<u64>,
    pub revoked_by: Option<Seq<char>>,
}

impl View for Certificate {
    type V = CertificateView;

    open spec fn view(&self) -> CertificateView {
        CertificateView {
            id: self.id@,
            issuer: self.issuer@,
            owner: self.owner@,
            metadata_uri: self.metadata_uri@,
            issued_at: self.issued_at,
            revoked: self.revoked,
            revocation_reason: self.revocation_reason.deep_view(),
            revoked_at: self.revoked_at,
            revoked_by: self.revoked_by.deep_view(),
        }
    }
}

impl DeepView for Certificate {
    type V = CertificateView;

    open spec fn deep_view(&self) -> CertificateView {
        self@
    }
}

impl CertificateView {
    /// The certificate as it stands right after issuance: not revoked, with
    /// every revocation field unset.
    pub open spec fn issued(
        id: Seq<char>,
        issuer: Seq<char>,
        owner: Seq<char>,
        metadata_uri: Seq<char>,
        now: u64,
    ) -> CertificateView {
        CertificateView {
            id,
            issuer,
            owner,
            metadata_uri,
            issued_at: now,
            revoked: false,
            revocation_reason: None,
            revoked_at: None,
            revoked_by: None,
        }
    }

    /// Whether an id may be given to a new certificate.
    pub open spec fn issue_check(id_in_use: bool) -> Result<(), CertificateError> {
        if id_in_use {
            Err(CertificateError::AlreadyExists)
        } else {
            Ok(())
        }
    }

    /// Whether the certificate may be revoked by its issuer.
    pub open spec fn revoke_check(self) -> Result<(), CertificateError> {
        if self.revoked {
            Err(CertificateError::AlreadyRevoked)
        } else {
            Ok(())
        }
    }

    /// The certificate after `revoker` revoked it at `now` for `reason`.
    pub open spec fn revoked_with(self, reason: Seq<char>, now: u64, revoker: Seq<char>)
        -> CertificateView {
        CertificateView {
            revoked: true,
            revocation_reason: Some(reason),
            revoked_at: Some(now),
            revoked_by: Some(revoker),
            ..self
        }
    }

    /// The certificate after its issuer revoked it.
    pub open spec fn revoked_by_issuer(self, reason: Seq<char>, now: u64) -> CertificateView {
        self.revoked_with(reason, now, self.issuer)
    }

    /// The certificate in the hands of a new owner.
    pub open spec fn owned_by(self, owner: Seq<char>) -> CertificateView {
        CertificateView { owner, ..self }
    }

    /// The revocation fields are set exactly when the certificate is revoked.
    pub open spec fn consistent(self) -> bool {
        &&& self.revoked == self.revocation_reason.is_some()
        &&& self.revoked == self.revoked_at.is_some()
        &&& self.revoked == self.revoked_by.is_some()
    }
}

/// A copy of an optional text.
pub fn copy_text(text: &Option<String>) -> (copy: Option<String>)
    ensures
        copy.deep_view() == text.deep_view(),
{
    match text {
        Some(t) => Some(t.clone()),
        None => None,
    }
}

/// A copy of an optional identity.
pub fn copy_identity(identity: &Option<Address>) -> (copy: Option<Address>)
    ensures
        copy.deep_view() == identity.deep_view(),
{
    match identity {
        Some(a) => Some(a.clone()),
        None => None,
    }
}

fn same_text(a: &Option<String>, b: &Option<String>) -> (same: bool)
    ensures
        same == (a.deep_view() == b.deep_view()),
{
    match (a, b) {
        (Some(x), Some(y)) => *x == *y,
        (None, None) => true,
        _ => false,
    }
}

fn same_identity(a: &Option<Address>, b: &Option<Address>) -> (same: bool)
    ensures
        same == (a.deep_view() == b.deep_view()),
{
    match (a, b) {
        (Some(x), Some(y)) => *x == *y,
        (None, None) => true,
        _ => false,
    }
}

impl Certificate {
    /// Issues a certificate under `id`, unless the id is already taken.
    ///
    /// `id_in_use` says whether a certificate is already kept under `id`. The
    /// caller has proven control of `issuer`; `now` is the ledger time.
    pub fn issue(
        id_in_use: bool,
        id: String,
        issuer: Address,
        owner: Address,
        metadata_uri: String,
        now: u64,
    ) -> (result: Result<Certificate, CertificateError>)
        ensures
            match result {
                Ok(certificate) => !id_in_use && certificate@ == CertificateView::issued(
                    id@,
                    issuer@,
                    owner@,
                    metadata_uri@,
                    now,
                ),
                Err(e) => id_in_use && e == CertificateError::AlreadyExists,
            },
    {
        if id_in_use {
            return Err(CertificateError::AlreadyExists);
        }
        Ok(
            Certificate {
                id,
                issuer,
                owner,
                metadata_uri,
                issued_at: now,
                revoked: false,
                revocation_reason: None,
                revoked_at: None,
                revoked_by: None,
            },
        )
    }

    /// The identity whose control must be proven before the certificate is
    /// revoked: its recorded issuer, not its owner.
    pub fn revocation_authority(&self) -> (authority: &Address)
        ensures
            authority@ == self@.issuer,
    {
        &self.issuer
    }

    /// Revokes the certificate in the name of its issuer.
    ///
    /// The caller has proven control of the recorded issuer. A certificate
    /// that is already revoked is left as it is.
    pub fn revoke(&mut self, reason: String, now: u64) -> (result: Result<(), CertificateError>)
        ensures
            result == old(self)@.revoke_check(),
            result is Ok ==> final(self)@ == old(self)@.revoked_by_issuer(reason@, now),
            result is Err ==> final(self)@ == old(self)@,
            final(self)@.revoked,
    {
        if self.revoked {
            return Err(CertificateError::AlreadyRevoked);
        }
        self.revoked = true;
        self.revocation_reason = Some(reason);
        self.revoked_at = Some(now);
        self.revoked_by = Some(self.issuer.clone());
        Ok(())
    }
}

impl Clone for Certificate {
    fn clone(&self) -> (copy: Certificate)
        ensures
            copy@ == self@,
    {
        Certificate {
            id: self.id.clone(),
            issuer: self.issuer.clone(),
            owner: self.owner.clone(),
            metadata_uri: self.metadata_uri.clone(),
            issued_at: self.issued_at,
            revoked: self.revoked,
            revocation_reason: copy_text(&self.revocation_reason),
            revoked_at: self.revoked_at,
            revoked_by: copy_identity(&self.revoked_by),
        }
    }
}

impl PartialEq for Certificate {
    fn eq(&self, other: &Certificate) -> (same: bool) {
        self.id == other.id && self.issuer == other.issuer && self.owner == other.owner
            && self.metadata_uri == other.metadata_uri && self.issued_at == other.issued_at
            && self.revoked == other.revoked && same_text(
            &self.revocation_reason,
            &other.revocation_reason,
        ) && self.revoked_at == other.revoked_at && same_identity(
            &self.revoked_by,
            &other.revoked_by,
        )
    }
}

impl Eq for Certificate {}

impl vstd::std_specs::cmp::PartialEqSpecImpl for Certificate {
    open spec fn obeys_eq_spec() -> bool {
        true
    }

    open spec fn eq_spec(&self, other: &Certificate) -> bool {
        self@ == other@
    }
}

} // verus!
