use vstd::prelude::*;

use crate::batch::MAX_BATCH_SIZE;
use crate::contract::CertificateContract;
use crate::errors::CertError;

verus! {

/// The SHA-256 digest of a byte sequence, as computed by the provided hash
/// primitive. A pure function of the bytes alone; nothing more is assumed of
/// it than that it yields 32 bytes.
pub uninterp spec fn sha256_of(data: Seq<u8>) -> Seq<u8>;

/// Relies on sha2's `Digest::digest` for `Sha256`: the SHA-256 digest of the
/// input bytes, 32 bytes long, a function of the input bytes alone, computed
/// for any input length.
#[verifier::external_body]
fn sha256_digest(data: &Vec<u8>) -> (r: Vec<u8>)
    ensures
        r@ == sha256_of(data@),
        r@.len() == 32,
{
    let digest = <sha2::Sha256 as sha2::Digest>::digest(data.as_slice());
    digest.as_slice().to_vec()
}

/// One Merkle inclusion proof: a leaf digest and the sibling digests on the
/// path from the leaf to the root, bottom to top. Left/right position is
/// baked into the concatenation order by the caller; it is not tracked here.
pub struct MerkleProof {
    pub leaf: Vec<u8>,
    pub siblings: Vec<Vec<u8>>,
}

/// The mathematical value of a Merkle proof.
pub ghost struct MerkleProofView {
    pub leaf: Seq<u8>,
    pub siblings: Seq<Seq<u8>>,
}

impl View for MerkleProof {
    type V = MerkleProofView;

    open spec fn view(&self) -> MerkleProofView {
        MerkleProofView { leaf: self.leaf@, siblings: self.siblings@.map_values(|s: Vec<u8>| s@) }
    }
}

/// The validity verdict for one proof, paired with the original leaf digest;
/// order matches the input proof order.
pub struct MerkleVerificationResult {
    pub leaf: Vec<u8>,
    pub is_valid: bool,
}

/// The root recomputed from `leaf` by absorbing the siblings in the given
/// order: each step hashes the current digest followed by the next sibling,
/// in that byte order.
pub open spec fn merkle_root_from(leaf: Seq<u8>, siblings: Seq<Seq<u8>>) -> Seq<u8>
    decreases siblings.len(),
{
    if siblings.len() == 0 {
        leaf
    } else {
        merkle_root_from(sha256_of(leaf + siblings[0]), siblings.drop_first())
    }
}

/// A proof is valid exactly when the root recomputed from it equals `root`.
pub open spec fn spec_proof_valid(root: Seq<u8>, p: MerkleProofView) -> bool {
    merkle_root_from(p.leaf, p.siblings) == root
}

/// A copy of a byte vector.
fn clone_bytes(v: &Vec<u8>) -> (r: Vec<u8>)
    ensures
        r@ == v@,
{
    let mut r: Vec<u8> = Vec::new();
    let mut i: usize = 0;
    while i < v.len()
        invariant
            i <= v.len(),
            r@ == v@.take(i as int),
        decreases v.len() - i,
    {
        r.push(v[i]);
        proof {
            assert(v@.take(i + 1 as int) =~= v@.take(i as int).push(v@[i as int]));
        }
        i = i + 1;
    }
    proof {
        assert(v@.take(v@.len() as int) =~= v@);
    }
    r
}

/// The concatenation of two byte vectors, `a` first.
fn concat_bytes(a: &Vec<u8>, b: &Vec<u8>) -> (r: Vec<u8>)
    ensures
        r@ == a@ + b@,
{
    let mut r = clone_bytes(a);
    let mut i: usize = 0;
    while i < b.len()
        invariant
            i <= b.len(),
            r@ == a@ + b@.take(i as int),
        decreases b.len() - i,
    {
        r.push(b[i]);
        proof {
            assert(a@ + b@.take(i + 1 as int) =~= (a@ + b@.take(i as int)).push(b@[i as int]));
        }
        i = i + 1;
    }
    proof {
        assert(a@ + b@.take(b@.len() as int) =~= a@ + b@);
        assert(a@ + b@.take(0int) =~= a@);
    }
    r
}

/// Whether two byte vectors hold the same bytes.
fn bytes_eq(a: &Vec<u8>, b: &Vec<u8>) -> (r: bool)
    ensures
        r == (a@ == b@),
{
    if a.len() != b.len() {
        return false;
    }
    let mut i: usize = 0;
    while i < a.len()
        invariant
            i <= a.len(),
            a@.len() == b@.len(),
            forall|j: int| 0 <= j < i ==> a@[j] == b@[j],
        decreases a.len() - i,
    {
        if a[i] != b[i] {
            return false;
        }
        i = i + 1;
    }
    proof {
        assert(a@ =~= b@);
    }
    true
}

impl CertificateContract {
    /// Recomputes a root from `leaf` by hashing in each sibling of `siblings`
    /// in the given order, current digest first, and compares the outcome
    /// with `root`. With no siblings this is a direct comparison of `leaf`
    /// with `root`.
    pub fn verify_single_merkle_proof(
        root: &Vec<u8>,
        leaf: &Vec<u8>,
        siblings: &Vec<Vec<u8>>,
    ) -> (valid: bool)
        ensures
            valid == (merkle_root_from(leaf@, siblings@.map_values(|s: Vec<u8>| s@)) == root@),
    {
        let ghost sibs: Seq<Seq<u8>> = siblings@.map_values(|s: Vec<u8>| s@);
        let mut hash = clone_bytes(leaf);
        proof {
            assert(sibs.skip(0int) =~= sibs);
        }
        let mut i: usize = 0;
        while i < siblings.len()
            invariant
                i <= siblings.len(),
                merkle_root_from(hash@, sibs.skip(i as int)) == merkle_root_from(leaf@, sibs),
            decreases siblings.len() - i,
        {
            let combined = concat_bytes(&hash, &siblings[i]);
            proof {
                assert(sibs.skip(i as int)[0] == sibs[i as int]);
                assert(sibs.skip(i as int).drop_first() =~= sibs.skip(i + 1 as int));
            }
            hash = sha256_digest(&combined);
            i = i + 1;
        }
        proof {
            assert(sibs.skip(siblings@.len() as int) =~= Seq::<Seq<u8>>::empty());
        }
        bytes_eq(&hash, root)
    }

    /// Checks every proof of `proofs` independently against `root` and
    /// reports, in input order, each original leaf with its validity. An
    /// empty batch yields an empty report. A batch of more than
    /// `MAX_BATCH_SIZE` proofs fails with BatchTooLarge and reports nothing.
    pub fn verify_merkle_batch(root: &Vec<u8>, proofs: &Vec<MerkleProof>) -> (r: Result<
        Vec<MerkleVerificationResult>,
        CertError,
    >)
        ensures
            match r {
                Ok(res) => {
                    &&& proofs@.len() <= MAX_BATCH_SIZE
                    &&& res@.len() == proofs@.len()
                    &&& forall|i: int|
                        0 <= i < res@.len() ==> {
                            &&& (#[trigger] res@[i]).leaf@ == proofs@[i]@.leaf
                            &&& res@[i].is_valid == spec_proof_valid(root@, proofs@[i]@)
                        }
                },
                Err(e) => e == CertError::BatchTooLarge && proofs@.len() > MAX_BATCH_SIZE,
            },
    {
        let count = proofs.len();
        if count == 0 {
            return Ok(Vec::new());
        }
        if count > MAX_BATCH_SIZE as usize {
            return Err(CertError::BatchTooLarge);
        }
        let mut results: Vec<MerkleVerificationResult> = Vec::new();
        let mut i: usize = 0;
        while i < count
            invariant
                i <= count,
                results@.len() == i,
                forall|j: int|
                    0 <= j < i ==> {
                        &&& (#[trigger] results@[j]).leaf@ == proofs@[j]@.leaf
                        &&& results@[j].is_valid == spec_proof_valid(root@, proofs@[j]@)
                    },
            decreases count - i,
        {
            let p = &proofs[i];
            let valid = Self::verify_single_merkle_proof(root, &p.leaf, &p.siblings);
            results.push(MerkleVerificationResult { leaf: clone_bytes(&p.leaf), is_valid: valid });
            i = i + 1;
        }
        Ok(results)
    }
}

} // verus!
