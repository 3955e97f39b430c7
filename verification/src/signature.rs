use vstd::prelude::*;

use crate::errors::GatewayError;
use crate::state::MessageSignature;
use crate::state::SignaturePolicy;

verus! {

/// `signer` is one of the policy's authorized identities.
pub open spec fn signer_authorized(policy: SignaturePolicy, signer: Seq<u8>) -> bool {
    exists|j: int|
        0 <= j < policy.authorized_signers@.len() && policy.authorized_signers@[j]@ == signer
}

/// The first per-signature failure, scanning in order: an unauthorized
/// signer rejects before an invalid verdict on the same signature.
/// `verdicts[k]` is the external verification oracle's verdict on whether
/// `signatures[k]` is valid over the message digest.
pub open spec fn signature_scan(
    policy: SignaturePolicy,
    signatures: Seq<MessageSignature>,
    verdicts: Seq<bool>,
) -> Option<GatewayError>
    decreases signatures.len(),
{
    if signatures.len() == 0 {
        None
    } else if !signer_authorized(policy, signatures[0].signer@) {
        Some(GatewayError::UnauthorizedSigner)
    } else if !verdicts[0] {
        Some(GatewayError::InvalidSignature)
    } else {
        signature_scan(policy, signatures.drop_first(), verdicts.drop_first())
    }
}

/// Outcome of applying the signature policy. When enforcement is
/// disabled, no candidate is rejected here; when enabled, every
/// signature must come from an authorized signer and carry a valid
/// verdict, and at least `required_signatures` of them must be attached.
pub open spec fn policy_outcome(
    policy: SignaturePolicy,
    signatures: Seq<MessageSignature>,
    verdicts: Seq<bool>,
) -> Option<GatewayError> {
    if !policy.signatures_enabled {
        None
    } else if signature_scan(policy, signatures, verdicts) is Some {
        signature_scan(policy, signatures, verdicts)
    } else if signatures.len() < policy.required_signatures {
        Some(GatewayError::InsufficientSignatures)
    } else {
        None
    }
}

/// Byte-for-byte equality of two byte vectors.
pub fn bytes_equal(a: &Vec<u8>, b: &Vec<u8>) -> (r: bool)
    ensures
        r == (a@ == b@),
{
    if a.len() != b.len() {
        return false;
    }
    let n = a.len();
    let mut k: usize = 0;
    while k < n
        invariant
            k <= n,
            n == a@.len(),
            n == b@.len(),
            forall|i: int| 0 <= i < k ==> a@[i] == b@[i],
        decreases n - k,
    {
        if a[k] != b[k] {
            return false;
        }
        k = k + 1;
    }
    assert(a@ =~= b@);
    true
}

/// Whether `signer` is in the policy's authorized set.
pub fn is_authorized_signer(policy: &SignaturePolicy, signer: &Vec<u8>) -> (r: bool)
    ensures
        r == signer_authorized(*policy, signer@),
{
    let n = policy.authorized_signers.len();
    let mut k: usize = 0;
    while k < n
        invariant
            k <= n,
            n == policy.authorized_signers@.len(),
            forall|j: int| 0 <= j < k ==> policy.authorized_signers@[j]@ != signer@,
        decreases n - k,
    {
        if bytes_equal(&policy.authorized_signers[k], signer) {
            return true;
        }
        k = k + 1;
    }
    false
}

/// Applies the signature policy to the attached signatures and to the
/// external verification oracle's verdicts over the message digest. The
/// decision is taken from the verdicts alone; the cryptography itself
/// ran in the oracle.
pub fn check_signature_policy(
    policy: &SignaturePolicy,
    signatures: &Vec<MessageSignature>,
    verdicts: &Vec<bool>,
) -> (r: Result<(), GatewayError>)
    requires
        verdicts@.len() == signatures@.len(),
    ensures
        r == (match policy_outcome(*policy, signatures@, verdicts@) {
            None => Ok::<(), GatewayError>(()),
            Some(e) => Err::<(), GatewayError>(e),
        }),
{
    if !policy.signatures_enabled {
        return Ok(());
    }
    let n = signatures.len();
    let mut k: usize = 0;
    proof {
        assert(signatures@.skip(0) =~= signatures@);
        assert(verdicts@.skip(0) =~= verdicts@);
    }
    while k < n
        invariant
            k <= n,
            n == signatures@.len(),
            n == verdicts@.len(),
            policy.signatures_enabled,
            signature_scan(*policy, signatures@.skip(k as int), verdicts@.skip(k as int))
                == signature_scan(*policy, signatures@, verdicts@),
        decreases n - k,
    {
        if !is_authorized_signer(policy, &signatures[k].signer) {
            assert(signatures@.skip(k as int)[0] == signatures@[k as int]);
            return Err(GatewayError::UnauthorizedSigner);
        }
        if !verdicts[k] {
            assert(signatures@.skip(k as int)[0] == signatures@[k as int]);
            assert(verdicts@.skip(k as int)[0] == verdicts@[k as int]);
            return Err(GatewayError::InvalidSignature);
        }
        proof {
            assert(signatures@.skip(k as int).drop_first() =~= signatures@.skip(k as int + 1));
            assert(verdicts@.skip(k as int).drop_first() =~= verdicts@.skip(k as int + 1));
        }
        k = k + 1;
    }
    if signatures.len() < policy.required_signatures {
        return Err(GatewayError::InsufficientSignatures);
    }
    Ok(())
}

} // verus!
