use vstd::prelude::*;

verus! {

/// A certificate record as persisted in the record store.
#[derive(Debug)]
pub struct Certificate {
    /// Unique key of the record.
    pub id: String,
    /// Identity that issued the certificate; the only identity that may
    /// revoke it.
    pub issuer: String,
    /// Identity the certificate was granted to.
    pub owner: String,
    /// Opaque metadata locator, e.g. a content-addressed URI.
    pub metadata_uri: String,
    /// Ledger/clock time of issuance.
    pub issued_at: u64,
    /// Set once by revocation, never cleared again.
    pub revoked: bool,
    /// Set exactly when `revoked` becomes true.
    pub revocation_reason: Option<String>,
    /// Set exactly when `revoked` becomes true.
    pub revoked_at: Option<u64>,
    /// Set exactly when `revoked` becomes true, to the recorded issuer.
    pub revoked_by: Option<String>,
}

/// The mathematical value of a certificate: each string as its sequence of
/// characters.
pub ghost struct CertificateView {
    pub id: Seq<char>,
    pub issuer: Seq<char>,
    pub owner: Seq<char>,
    pub metadata_uri: Seq<char>,
    pub issued_at: u64,
    pub revoked: bool,
    pub revocation_reason: Option<Seq<char>>,
    pub revoked_at: Option<u64>,
    pub revoked_by: Option<Seq<char>>,
}

impl View for Certificate {
    type V = CertificateView;

    open spec fn view(&self) -> CertificateView {
        CertificateView {
            id: self.id@,
            issuer: self.issuer@,
            owner: self.owner@,
            metadata_uri: self.metadata_uri@,
            issued_at: self.issued_at,
            revoked: self.revoked,
            revocation_reason: match self.revocation_reason {
                Some(r) => Some(r@),
                None => None,
            },
            revoked_at: self.revoked_at,
            revoked_by: match self.revoked_by {
                Some(r) => Some(r@),
                None => None,
            },
        }
    }
}

impl CertificateView {
    /// The revocation fields are all set together, consistently, exactly when
    /// the revoked flag is set, and the revoking identity is the recorded
    /// issuer.
    pub open spec fn wf(self) -> bool {
        if self.revoked {
            &&& self.revocation_reason is Some
            &&& self.revoked_at is Some
            &&& self.revoked_by == Some(self.issuer)
        } else {
            &&& self.revocation_reason is None
            &&& self.revoked_at is None
            &&& self.revoked_by is None
        }
    }
}

/// The record written by a successful issuance at time `now`: not revoked,
/// all revocation fields empty.
pub open spec fn issued_cert(
    id: Seq<char>,
    issuer: Seq<char>,
    owner: Seq<char>,
    metadata_uri: Seq<char>,
    now: u64,
) -> CertificateView {
    CertificateView {
        id: id,
        issuer: issuer,
        owner: owner,
        metadata_uri: metadata_uri,
        issued_at: now,
        revoked: false,
        revocation_reason: None,
        revoked_at: None,
        revoked_by: None,
    }
}

/// The record after a successful revocation of `c` at time `now`: revoked,
/// with the reason, the time, and the recorded issuer filled in, and every
/// other field kept.
pub open spec fn revoked_cert(c: CertificateView, reason: Seq<char>, now: u64) -> CertificateView {
    CertificateView {
        revoked: true,
        revocation_reason: Some(reason),
        revoked_at: Some(now),
        revoked_by: Some(c.issuer),
        ..c
    }
}

impl Clone for Certificate {
    fn clone(&self) -> (r: Self)
        ensures
            r@ == self@,
    {
        Certificate {
            id: self.id.clone(),
            issuer: self.issuer.clone(),
            owner: self.owner.clone(),
            metadata_uri: self.metadata_uri.clone(),
            issued_at: self.issued_at,
            revoked: self.revoked,
            revocation_reason: match &self.revocation_reason {
                Some(r) => Some(r.clone()),
                None => None,
            },
            revoked_at: self.revoked_at,
            revoked_by: match &self.revoked_by {
                Some(r) => Some(r.clone()),
                None => None,
            },
        }
    }
}

} // verus!
