use vstd::prelude::*;

use crate::constants::MAX_OFF_CHAIN_DATA_SIZE;
use crate::constants::MAX_ON_CHAIN_DATA_SIZE;
use crate::constants::MAX_RECIPIENT_SIZE;
use crate::constants::MAX_SENDER_SIZE;
use crate::errors::GatewayError;
use crate::instructions::create_tx_pda::admission_error;
use crate::signature::policy_outcome;
use crate::state::GatewayState;
use crate::state::MessageSignature;

verus! {

/// One successful admission step on `source_chain_id` with sequence id
/// `tx_id`: everything a successful admission promises about how the
/// persisted state moves from `pre` to `post`. No counter appears or
/// disappears, the admitted chain's watermark jumps to `tx_id` (strictly
/// above its old value), every other watermark is untouched, and the
/// record set grows by exactly the admitted pair.
pub open spec fn admit_transition(
    pre: GatewayState,
    post: GatewayState,
    source_chain_id: u64,
    tx_id: u128,
) -> bool {
    &&& pre.wf()
    &&& post.wf()
    &&& pre.has_counter(source_chain_id)
    &&& !pre.admitted(source_chain_id, tx_id)
    &&& pre.watermark(source_chain_id) < tx_id
    &&& forall|c: u64|
        #![trigger post.has_counter(c)]
        #![trigger pre.has_counter(c)]
        post.has_counter(c) <==> pre.has_counter(c)
    &&& post.watermark(source_chain_id) == tx_id
    &&& forall|c: u64|
        #![trigger post.watermark(c)]
        #![trigger pre.watermark(c)]
        c != source_chain_id && pre.has_counter(c) ==> post.watermark(c) == pre.watermark(c)
    &&& forall|c: u64, t: u128|
        #![trigger post.admitted(c, t)]
        #![trigger pre.admitted(c, t)]
        post.admitted(c, t) <==> (pre.admitted(c, t) || (c == source_chain_id && t == tx_id))
    &&& post.gateway == pre.gateway
    &&& post.signature_policy == pre.signature_policy
}

/// A run of successful admissions on one source chain: `states` is the
/// trace of persisted states and `ids[m]` the sequence id the step from
/// `states[m]` to `states[m + 1]` admitted.
pub open spec fn admission_run(states: Seq<GatewayState>, ids: Seq<u128>, chain: u64) -> bool {
    &&& states.len() == ids.len() + 1
    &&& forall|m: int|
        0 <= m < ids.len() ==> #[trigger] admit_transition(states[m], states[m + 1], chain, ids[m])
}

/// Along a run on one chain, the watermark never decreases: the highest
/// sequence id seen is monotone across the counter's lifetime.
pub proof fn lemma_watermark_monotone(
    states: Seq<GatewayState>,
    ids: Seq<u128>,
    chain: u64,
    a: int,
    b: int,
)
    requires
        admission_run(states, ids, chain),
        0 <= a <= b <= ids.len(),
    ensures
        states[a].watermark(chain) <= states[b].watermark(chain),
    decreases b - a,
{
    if a < b {
        assert(admit_transition(states[a], states[a + 1], chain, ids[a]));
        lemma_watermark_monotone(states, ids, chain, a + 1, b);
    }
}

/// Monotonicity: along any run of successful admissions on one source
/// chain, the admitted sequence ids, in commit order, are strictly
/// increasing.
pub proof fn lemma_admitted_ids_strictly_increase(
    states: Seq<GatewayState>,
    ids: Seq<u128>,
    chain: u64,
    j: int,
    k: int,
)
    requires
        admission_run(states, ids, chain),
        0 <= j < k < ids.len(),
    ensures
        ids[j] < ids[k],
{
    assert(admit_transition(states[j], states[j + 1], chain, ids[j]));
    assert(admit_transition(states[k], states[k + 1], chain, ids[k]));
    lemma_watermark_monotone(states, ids, chain, j + 1, k);
}

/// A run of successful admissions on possibly different chains:
/// the step from `states[m]` to `states[m + 1]` admitted sequence id
/// `ids[m]` on chain `chains[m]`.
pub open spec fn mixed_admission_run(
    states: Seq<GatewayState>,
    chains: Seq<u64>,
    ids: Seq<u128>,
) -> bool {
    &&& states.len() == ids.len() + 1
    &&& chains.len() == ids.len()
    &&& forall|m: int|
        0 <= m < ids.len() ==> #[trigger] admit_transition(
            states[m],
            states[m + 1],
            chains[m],
            ids[m],
        )
}

/// Once a pair is admitted it stays admitted across any later
/// admissions: records are never removed.
pub proof fn lemma_admitted_persists(
    states: Seq<GatewayState>,
    chains: Seq<u64>,
    ids: Seq<u128>,
    c: u64,
    t: u128,
    a: int,
    b: int,
)
    requires
        mixed_admission_run(states, chains, ids),
        0 <= a <= b <= ids.len(),
        states[a].admitted(c, t),
    ensures
        states[b].admitted(c, t),
    decreases b - a,
{
    if a < b {
        assert(admit_transition(states[a], states[a + 1], chains[a], ids[a]));
        lemma_admitted_persists(states, chains, ids, c, t, a + 1, b);
    }
}

/// Uniqueness: along any run of successful admissions, no
/// (source chain, sequence id) pair is ever admitted twice.
pub proof fn lemma_admission_unique(
    states: Seq<GatewayState>,
    chains: Seq<u64>,
    ids: Seq<u128>,
    j: int,
    k: int,
)
    requires
        mixed_admission_run(states, chains, ids),
        0 <= j < k < ids.len(),
    ensures
        !(chains[j] == chains[k] && ids[j] == ids[k]),
{
    assert(admit_transition(states[j], states[j + 1], chains[j], ids[j]));
    assert(admit_transition(states[k], states[k + 1], chains[k], ids[k]));
    assert(states[j + 1].admitted(chains[j], ids[j]));
    lemma_admitted_persists(states, chains, ids, chains[j], ids[j], j + 1, k);
}

/// Idempotent rejection: an attempt to admit an already admitted pair
/// never succeeds, and once it passes the size and signature gates it
/// fails exactly with `DuplicateTxId`, however often it is retried.
pub proof fn lemma_replay_rejected(
    pre: GatewayState,
    tx_id: u128,
    source_chain_id: u64,
    sender: Seq<u8>,
    recipient: Seq<u8>,
    on_chain_data: Seq<u8>,
    off_chain_data: Seq<u8>,
    signatures: Seq<MessageSignature>,
    verdicts: Seq<bool>,
)
    requires
        pre.wf(),
        pre.admitted(source_chain_id, tx_id),
    ensures
        admission_error(
            pre,
            tx_id,
            source_chain_id,
            sender,
            recipient,
            on_chain_data,
            off_chain_data,
            signatures,
            verdicts,
        ) is Some,
        (sender.len() <= MAX_SENDER_SIZE && recipient.len() <= MAX_RECIPIENT_SIZE
            && on_chain_data.len() <= MAX_ON_CHAIN_DATA_SIZE && off_chain_data.len()
            <= MAX_OFF_CHAIN_DATA_SIZE && policy_outcome(pre.signature_policy, signatures, verdicts)
            is None) ==> admission_error(
            pre,
            tx_id,
            source_chain_id,
            sender,
            recipient,
            on_chain_data,
            off_chain_data,
            signatures,
            verdicts,
        ) == Some(GatewayError::DuplicateTxId),
{
    let i = choose|i: int|
        0 <= i < pre.records@.len() && pre.records@[i].source_chain_id == source_chain_id
            && pre.records@[i].tx_id == tx_id;
    assert(pre.has_counter(pre.records@[i].source_chain_id));
}

} // verus!
