use vstd::prelude::*;
use vstd::hash_map::StringHashMap;

use crate::certificate::{Certificate, CertificateView, issued_cert, revoked_cert};
use crate::errors::CertError;

verus! {

/// The certificate registry: a record store keyed by certificate id, together
/// with the lifecycle, batch-verification and Merkle-verification operations.
pub struct CertificateContract {
    store: StringHashMap<Certificate>,
}

impl View for CertificateContract {
    type V = Map<Seq<char>, CertificateView>;

    closed spec fn view(&self) -> Map<Seq<char>, CertificateView> {
        self.store@.map_values(|c: Certificate| c@)
    }
}

/// The error a call of `issue_certificate` returns, if any: the caller must
/// authenticate as the issuer, and the id must be fresh.
pub open spec fn spec_issue_err(
    m: Map<Seq<char>, CertificateView>,
    id: Seq<char>,
    issuer: Seq<char>,
    caller: Seq<char>,
) -> Option<CertError> {
    if caller != issuer {
        Some(CertError::Unauthorized)
    } else if m.contains_key(id) {
        Some(CertError::AlreadyExists)
    } else {
        None
    }
}

/// The error a call of `revoke_certificate` returns, if any: the record must
/// exist, the caller must authenticate as the *recorded* issuer, and the
/// certificate must not be revoked yet.
pub open spec fn spec_revoke_err(
    m: Map<Seq<char>, CertificateView>,
    id: Seq<char>,
    caller: Seq<char>,
) -> Option<CertError> {
    if !m.contains_key(id) {
        Some(CertError::NotFound)
    } else if caller != m[id].issuer {
        Some(CertError::Unauthorized)
    } else if m[id].revoked {
        Some(CertError::AlreadyRevoked)
    } else {
        None
    }
}

impl CertificateContract {
    /// Every stored record is well formed and filed under its own id.
    pub open spec fn wf(&self) -> bool {
        forall|k: Seq<char>|
            self@.contains_key(k) ==> (#[trigger] self@[k]).wf() && self@[k].id == k
    }

    /// An empty registry.
    pub fn new() -> (r: Self)
        ensures
            r@ == Map::<Seq<char>, CertificateView>::empty(),
            r.wf(),
    {
        let r = CertificateContract { store: StringHashMap::new() };
        proof {
            assert(r@ =~= Map::<Seq<char>, CertificateView>::empty());
        }
        r
    }

    /// Records a new certificate under `id`, issued by `issuer` to `owner` at
    /// time `now`, with all revocation fields empty. Fails with Unauthorized
    /// when the caller does not authenticate as the issuer, and with
    /// AlreadyExists when the id is already recorded; a failed call changes
    /// nothing.
    pub fn issue_certificate(
        &mut self,
        id: String,
        issuer: String,
        owner: String,
        metadata_uri: String,
        caller: &String,
        now: u64,
    ) -> (r: Result<(), CertError>)
        requires
            old(self).wf(),
        ensures
            final(self).wf(),
            match r {
                Ok(()) => {
                    &&& spec_issue_err(old(self)@, id@, issuer@, caller@) is None
                    &&& final(self)@ == old(self)@.insert(
                        id@,
                        issued_cert(id@, issuer@, owner@, metadata_uri@, now),
                    )
                },
                Err(e) => {
                    &&& spec_issue_err(old(self)@, id@, issuer@, caller@) == Some(e)
                    &&& final(self)@ == old(self)@
                },
            },
    {
        if !(*caller == issuer) {
            return Err(CertError::Unauthorized);
        }
        if self.store.contains_key(id.as_str()) {
            return Err(CertError::AlreadyExists);
        }
        let cert = Certificate {
            id: id.clone(),
            issuer,
            owner,
            metadata_uri,
            issued_at: now,
            revoked: false,
            revocation_reason: None,
            revoked_at: None,
            revoked_by: None,
        };
        self.store.insert(id, cert);
        proof {
            assert(self@ =~= old(self)@.insert(
                id@,
                issued_cert(id@, issuer@, owner@, metadata_uri@, now),
            ));
        }
        Ok(())
    }

    /// Marks the certificate under `id` as revoked at time `now` for the given
    /// reason, recording the issuer as the revoking identity. Fails with
    /// NotFound when the id is not recorded, with Unauthorized when the caller
    /// does not authenticate as the recorded issuer, and with AlreadyRevoked
    /// when the certificate is already revoked; a failed call changes nothing.
    pub fn revoke_certificate(
        &mut self,
        id: &String,
        reason: String,
        caller: &String,
        now: u64,
    ) -> (r: Result<(), CertError>)
        requires
            old(self).wf(),
        ensures
            final(self).wf(),
            match r {
                Ok(()) => {
                    &&& spec_revoke_err(old(self)@, id@, caller@) is None
                    &&& final(self)@ == old(self)@.insert(
                        id@,
                        revoked_cert(old(self)@[id@], reason@, now),
                    )
                },
                Err(e) => {
                    &&& spec_revoke_err(old(self)@, id@, caller@) == Some(e)
                    &&& final(self)@ == old(self)@
                },
            },
    {
        let cert = match self.store.get(id.as_str()) {
            None => {
                return Err(CertError::NotFound);
            },
            Some(c) => c,
        };
        if !(*caller == cert.issuer) {
            return Err(CertError::Unauthorized);
        }
        if cert.revoked {
            return Err(CertError::AlreadyRevoked);
        }
        let updated = Certificate {
            id: cert.id.clone(),
            issuer: cert.issuer.clone(),
            owner: cert.owner.clone(),
            metadata_uri: cert.metadata_uri.clone(),
            issued_at: cert.issued_at,
            revoked: true,
            revocation_reason: Some(reason),
            revoked_at: Some(now),
            revoked_by: Some(cert.issuer.clone()),
        };
        self.store.insert(id.clone(), updated);
        proof {
            assert(self@ =~= old(self)@.insert(
                id@,
                revoked_cert(old(self)@[id@], reason@, now),
            ));
        }
        Ok(())
    }

    /// Whether the certificate under `id` is revoked; fails with NotFound when
    /// the id is not recorded.
    pub fn is_revoked(&self, id: &String) -> (r: Result<bool, CertError>)
        ensures
            match r {
                Ok(b) => self@.contains_key(id@) && b == self@[id@].revoked,
                Err(e) => e == CertError::NotFound && !self@.contains_key(id@),
            },
    {
        match self.store.get(id.as_str()) {
            None => Err(CertError::NotFound),
            Some(c) => Ok(c.revoked),
        }
    }

    /// A copy of the certificate under `id`; fails with NotFound when the id
    /// is not recorded.
    pub fn get_certificate(&self, id: &String) -> (r: Result<Certificate, CertError>)
        ensures
            match r {
                Ok(c) => self@.contains_key(id@) && c@ == self@[id@],
                Err(e) => e == CertError::NotFound && !self@.contains_key(id@),
            },
    {
        match self.store.get(id.as_str()) {
            None => Err(CertError::NotFound),
            Some(c) => Ok(c.clone()),
        }
    }
}

} // verus!
