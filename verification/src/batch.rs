use vstd::prelude::*;

use crate::certificate::CertificateView;
use crate::contract::CertificateContract;
use crate::errors::CertError;

verus! {

/// The most items one batch call accepts, for certificate ids and for Merkle
/// proofs alike.
pub const MAX_BATCH_SIZE: u32 = 50;

/// Flat accounting cost of a non-empty batch-verification call.
pub const BASE_VERIFICATION_COST: u64 = 10;

/// Accounting cost per input id of a non-empty batch-verification call.
pub const COST_PER_CERTIFICATE: u64 = 5;

/// The classification of one certificate id, produced fresh per batch call
/// and never persisted.
pub struct SingleVerificationResult {
    pub id: String,
    pub exists: bool,
    pub revoked: bool,
    pub message: String,
}

/// The mathematical value of a classification.
pub ghost struct SingleVerificationResultView {
    pub id: Seq<char>,
    pub exists: bool,
    pub revoked: bool,
    pub message: Seq<char>,
}

impl View for SingleVerificationResult {
    type V = SingleVerificationResultView;

    open spec fn view(&self) -> SingleVerificationResultView {
        SingleVerificationResultView {
            id: self.id@,
            exists: self.exists,
            revoked: self.revoked,
            message: self.message@,
        }
    }
}

/// The report of one batch-verification call: one classification per input
/// id, in input order, with the counts and the flat cost figure.
pub struct BatchVerificationResult {
    pub results: Vec<SingleVerificationResult>,
    pub total: u32,
    pub successful: u32,
    pub failed: u32,
    pub total_cost: u64,
}

/// An id passes verification exactly when it is recorded and not revoked.
pub open spec fn spec_is_valid(m: Map<Seq<char>, CertificateView>, id: Seq<char>) -> bool {
    m.contains_key(id) && !m[id].revoked
}

/// The classification of `id` against the registry `m`: exactly one of
/// not-found, revoked, and valid.
pub open spec fn spec_classify(
    m: Map<Seq<char>, CertificateView>,
    id: Seq<char>,
) -> SingleVerificationResultView {
    if !m.contains_key(id) {
        SingleVerificationResultView {
            id: id,
            exists: false,
            revoked: false,
            message: "Certificate not found"@,
        }
    } else if m[id].revoked {
        SingleVerificationResultView {
            id: id,
            exists: true,
            revoked: true,
            message: "Certificate is revoked"@,
        }
    } else {
        SingleVerificationResultView {
            id: id,
            exists: true,
            revoked: false,
            message: "Certificate is valid"@,
        }
    }
}

/// The views of a sequence of ids.
pub open spec fn ids_view(ids: Seq<String>) -> Seq<Seq<char>> {
    ids.map_values(|s: String| s@)
}

/// The views of a sequence of classifications.
pub open spec fn svr_views(rs: Seq<SingleVerificationResult>) -> Seq<SingleVerificationResultView> {
    rs.map_values(|s: SingleVerificationResult| s@)
}

/// The classifications of a sequence of ids against `m`, in order.
pub open spec fn spec_results(
    m: Map<Seq<char>, CertificateView>,
    ids: Seq<Seq<char>>,
) -> Seq<SingleVerificationResultView> {
    ids.map_values(|id: Seq<char>| spec_classify(m, id))
}

/// How many of the ids pass verification against `m`.
pub open spec fn spec_successful(m: Map<Seq<char>, CertificateView>, ids: Seq<Seq<char>>) -> int
    decreases ids.len(),
{
    if ids.len() == 0 {
        0
    } else {
        spec_successful(m, ids.drop_last()) + if spec_is_valid(m, ids.last()) {
            1int
        } else {
            0int
        }
    }
}

/// The flat cost figure of a batch over `n` input ids: zero for an empty
/// batch, otherwise the base cost plus the per-certificate cost for each
/// input id, successful or not.
pub open spec fn spec_cost(n: int) -> int {
    if n == 0 {
        0
    } else {
        BASE_VERIFICATION_COST + COST_PER_CERTIFICATE * n
    }
}

impl CertificateContract {
    /// Classifies every id of `ids`, in input order and without
    /// short-circuiting, into exactly one of not-found, revoked, and valid,
    /// and reports the classifications together with the counts and the flat
    /// cost figure. An empty batch yields the empty report with zero cost.
    /// A batch of more than `MAX_BATCH_SIZE` ids fails with BatchTooLarge and
    /// reports nothing. The call never changes the registry.
    pub fn batch_verify_certificates(&self, ids: &Vec<String>) -> (r: Result<
        BatchVerificationResult,
        CertError,
    >)
        ensures
            match r {
                Ok(rep) => {
                    &&& ids@.len() <= MAX_BATCH_SIZE
                    &&& svr_views(rep.results@) == spec_results(self@, ids_view(ids@))
                    &&& rep.results@.len() == ids@.len()
                    &&& rep.total == ids@.len()
                    &&& rep.successful == spec_successful(self@, ids_view(ids@))
                    &&& rep.failed == ids@.len() - spec_successful(self@, ids_view(ids@))
                    &&& rep.total_cost == spec_cost(ids@.len() as int)
                },
                Err(e) => e == CertError::BatchTooLarge && ids@.len() > MAX_BATCH_SIZE,
            },
    {
        let count = ids.len();
        if count == 0 {
            let rep = BatchVerificationResult {
                results: Vec::new(),
                total: 0,
                successful: 0,
                failed: 0,
                total_cost: 0,
            };
            proof {
                assert(svr_views(rep.results@) =~= spec_results(self@, ids_view(ids@)));
            }
            return Ok(rep);
        }
        if count > MAX_BATCH_SIZE as usize {
            return Err(CertError::BatchTooLarge);
        }
        let ghost idsv: Seq<Seq<char>> = ids_view(ids@);
        let mut results: Vec<SingleVerificationResult> = Vec::new();
        let mut successful: u32 = 0;
        let mut failed: u32 = 0;
        let mut i: usize = 0;
        while i < count
            invariant
                i <= count,
                results@.len() == i,
                forall|j: int|
                    0 <= j < i ==> (#[trigger] results@[j])@ == spec_classify(self@, idsv[j]),
                successful == spec_successful(self@, idsv.take(i as int)),
                successful <= i,
                failed == i - successful,
            decreases count - i,
        {
            let id = &ids[i];
            let valid: bool;
            let result = match self.is_revoked(id) {
                Err(_) => {
                    valid = false;
                    SingleVerificationResult {
                        id: id.clone(),
                        exists: false,
                        revoked: false,
                        message: "Certificate not found".to_owned(),
                    }
                },
                Ok(true) => {
                    valid = false;
                    SingleVerificationResult {
                        id: id.clone(),
                        exists: true,
                        revoked: true,
                        message: "Certificate is revoked".to_owned(),
                    }
                },
                Ok(false) => {
                    valid = true;
                    SingleVerificationResult {
                        id: id.clone(),
                        exists: true,
                        revoked: false,
                        message: "Certificate is valid".to_owned(),
                    }
                },
            };
            if valid {
                successful = successful + 1;
            } else {
                failed = failed + 1;
            }
            results.push(result);
            proof {
                assert(idsv.take(i + 1 as int).drop_last() =~= idsv.take(i as int));
                assert(idsv.take(i + 1 as int).last() == idsv[i as int]);
            }
            i = i + 1;
        }
        proof {
            assert(idsv.take(count as int) =~= idsv);
            assert(svr_views(results@) =~= spec_results(self@, idsv));
        }
        let total_cost: u64 = BASE_VERIFICATION_COST + COST_PER_CERTIFICATE * (count as u64);
        Ok(
            BatchVerificationResult {
                results,
                total: count as u32,
                successful,
                failed,
                total_cost,
            },
        )
    }
}

} // verus!
