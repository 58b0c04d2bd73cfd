use vstd::prelude::*;

use crate::certificate::{CertificateView, issued_cert, revoked_cert};
use crate::contract::{spec_issue_err, spec_revoke_err};
use crate::errors::CertError;
use crate::merkle::{MerkleProofView, merkle_root_from, sha256_of, spec_proof_valid};

verus! {

/// Issuing a fresh id records a certificate that is present and not revoked —
/// so `is_revoked` then answers false — and a second issuance of the same id
/// by the same issuer fails with AlreadyExists.
pub proof fn lemma_issue_fresh(
    m: Map<Seq<char>, CertificateView>,
    id: Seq<char>,
    issuer: Seq<char>,
    owner: Seq<char>,
    metadata_uri: Seq<char>,
    now: u64,
)
    requires
        !m.contains_key(id),
    ensures
        ({
            let m2 = m.insert(id, issued_cert(id, issuer, owner, metadata_uri, now));
            &&& m2.contains_key(id)
            &&& !m2[id].revoked
            &&& spec_issue_err(m2, id, issuer, issuer) == Some(CertError::AlreadyExists)
        }),
{
}

/// Issuing an id that is already recorded fails with AlreadyExists whenever
/// the caller authenticates as the issuer (a caller who does not gets
/// Unauthorized first); by `issue_certificate`'s contract, the failed call
/// leaves the registry unchanged.
pub proof fn lemma_issue_existing_fails(
    m: Map<Seq<char>, CertificateView>,
    id: Seq<char>,
    issuer: Seq<char>,
)
    requires
        m.contains_key(id),
    ensures
        spec_issue_err(m, id, issuer, issuer) == Some(CertError::AlreadyExists),
{
}

/// Revoking an already-revoked certificate fails with AlreadyRevoked whenever
/// the caller authenticates as the recorded issuer (any other caller gets
/// Unauthorized first): revocation is strictly one-shot. By
/// `revoke_certificate`'s contract, the failed call leaves the registry
/// unchanged.
pub proof fn lemma_revoke_revoked_fails(m: Map<Seq<char>, CertificateView>, id: Seq<char>)
    requires
        m.contains_key(id),
        m[id].revoked,
    ensures
        spec_revoke_err(m, id, m[id].issuer) == Some(CertError::AlreadyRevoked),
{
}

/// A successful revocation marks the certificate as revoked, so `is_revoked`
/// then answers true.
pub proof fn lemma_revoke_marks_revoked(
    m: Map<Seq<char>, CertificateView>,
    id: Seq<char>,
    reason: Seq<char>,
    now: u64,
)
    requires
        m.contains_key(id),
    ensures
        ({
            let m2 = m.insert(id, revoked_cert(m[id], reason, now));
            &&& m2.contains_key(id)
            &&& m2[id].revoked
            &&& spec_revoke_err(m2, id, m[id].issuer) == Some(CertError::AlreadyRevoked)
        }),
{
}

/// A revoked certificate stays revoked across any later successful issuance:
/// issuance succeeds only for a fresh id, so it cannot touch the revoked
/// record.
pub proof fn lemma_revoked_survives_issue(
    m: Map<Seq<char>, CertificateView>,
    id: Seq<char>,
    other_id: Seq<char>,
    issuer: Seq<char>,
    owner: Seq<char>,
    metadata_uri: Seq<char>,
    now: u64,
)
    requires
        m.contains_key(id),
        m[id].revoked,
        !m.contains_key(other_id),
    ensures
        ({
            let m2 = m.insert(other_id, issued_cert(other_id, issuer, owner, metadata_uri, now));
            &&& m2.contains_key(id)
            &&& m2[id].revoked
        }),
{
}

/// A revoked certificate stays revoked across any later successful
/// revocation: revoking the same id again fails with AlreadyRevoked, and
/// revoking another id leaves the record alone. Together with
/// `lemma_revoked_survives_issue`, and with failed operations changing
/// nothing, the revoked flag never transitions back to false.
pub proof fn lemma_revoked_survives_revoke(
    m: Map<Seq<char>, CertificateView>,
    id: Seq<char>,
    other_id: Seq<char>,
    reason: Seq<char>,
    now: u64,
)
    requires
        m.contains_key(id),
        m[id].revoked,
        m.contains_key(other_id),
        !m[other_id].revoked,
    ensures
        ({
            let m2 = m.insert(other_id, revoked_cert(m[other_id], reason, now));
            &&& m2.contains_key(id)
            &&& m2[id].revoked
        }),
{
}

/// Only the recorded issuer may revoke: any other caller — the recorded owner
/// included — fails with Unauthorized, whether or not the certificate is
/// already revoked.
pub proof fn lemma_revoke_requires_recorded_issuer(
    m: Map<Seq<char>, CertificateView>,
    id: Seq<char>,
    caller: Seq<char>,
)
    requires
        m.contains_key(id),
        caller != m[id].issuer,
    ensures
        spec_revoke_err(m, id, caller) == Some(CertError::Unauthorized),
{
}

/// With no siblings, the validity of a Merkle proof reduces to direct
/// equality of the leaf with the root.
pub proof fn lemma_empty_path_is_direct_equality(root: Seq<u8>, leaf: Seq<u8>)
    ensures
        spec_proof_valid(root, MerkleProofView { leaf: leaf, siblings: Seq::empty() }) <==> leaf
            == root,
{
}

/// The root recomputed from a leaf with a single sibling is the digest of the
/// leaf followed by the sibling.
pub proof fn lemma_single_sibling_root(leaf: Seq<u8>, sibling: Seq<u8>)
    ensures
        merkle_root_from(leaf, seq![sibling]) == sha256_of(leaf + sibling),
{
    let sibs = seq![sibling];
    assert(sibs.drop_first() =~= Seq::<Seq<u8>>::empty());
    assert(sibs[0] == sibling);
    assert(merkle_root_from(leaf, sibs) == merkle_root_from(
        sha256_of(leaf + sibling),
        Seq::<Seq<u8>>::empty(),
    ));
    assert(merkle_root_from(sha256_of(leaf + sibling), Seq::<Seq<u8>>::empty()) == sha256_of(
        leaf + sibling,
    ));
}

/// Concatenation order is load-bearing for single-sibling proofs: a proof of
/// leaf `l` with sibling `s` is valid against the root hashed from `l`
/// followed by `s`, and the swapped proof is valid against that same root
/// exactly when the digests of the two concatenation orders collide.
pub proof fn lemma_single_sibling_order_sensitivity(l: Seq<u8>, s: Seq<u8>)
    ensures
        spec_proof_valid(sha256_of(l + s), MerkleProofView { leaf: l, siblings: seq![s] }),
        spec_proof_valid(sha256_of(l + s), MerkleProofView { leaf: s, siblings: seq![l] })
            <==> sha256_of(s + l) == sha256_of(l + s),
{
    lemma_single_sibling_root(l, s);
    lemma_single_sibling_root(s, l);
}

} // verus!
