use vstd::prelude::*;

use crate::constants::MAX_OFF_CHAIN_DATA_SIZE;
use crate::constants::MAX_ON_CHAIN_DATA_SIZE;
use crate::constants::MAX_RECIPIENT_SIZE;
use crate::constants::MAX_SENDER_SIZE;
use crate::errors::GatewayError;
use crate::events::TxPdaCreated;
use crate::hash::create_message_hash_for_signing;
use crate::protocol::admit_transition;
use crate::signature::check_signature_policy;
use crate::signature::policy_outcome;
use crate::state::lemma_counter_index_agrees;
use crate::state::CounterPDA;
use crate::state::GatewayState;
use crate::state::MessageSignature;
use crate::state::TxIdPDA;

verus! {

/// The rejection, if any, that an admission attempt meets against
/// pre-state `pre`, gate by gate: the four size bounds, then the
/// signature policy over the oracle's verdicts, then the ordering and
/// uniqueness gates against the chain's counter and the record set.
pub open spec fn admission_error(
    pre: GatewayState,
    tx_id: u128,
    source_chain_id: u64,
    sender: Seq<u8>,
    recipient: Seq<u8>,
    on_chain_data: Seq<u8>,
    off_chain_data: Seq<u8>,
    signatures: Seq<MessageSignature>,
    verdicts: Seq<bool>,
) -> Option<GatewayError> {
    if sender.len() > MAX_SENDER_SIZE {
        Some(GatewayError::SenderTooLong)
    } else if recipient.len() > MAX_RECIPIENT_SIZE {
        Some(GatewayError::RecipientTooLong)
    } else if on_chain_data.len() > MAX_ON_CHAIN_DATA_SIZE {
        Some(GatewayError::OnChainDataTooLarge)
    } else if off_chain_data.len() > MAX_OFF_CHAIN_DATA_SIZE {
        Some(GatewayError::OffChainDataTooLarge)
    } else if policy_outcome(pre.signature_policy, signatures, verdicts) is Some {
        policy_outcome(pre.signature_policy, signatures, verdicts)
    } else if !pre.has_counter(source_chain_id) {
        Some(GatewayError::CounterNotInitialized)
    } else if pre.admitted(source_chain_id, tx_id) {
        Some(GatewayError::DuplicateTxId)
    } else if tx_id <= pre.watermark(source_chain_id) {
        Some(GatewayError::TxIdTooOld)
    } else {
        None
    }
}

/// Admits one candidate message, or rejects it leaving the state
/// byte-for-byte unchanged. On success the admission record for
/// `(source_chain_id, tx_id)` is created and the chain's watermark
/// advances to `tx_id`, atomically. `verdicts[k]` is the external
/// verification oracle's verdict on `signatures[k]` over this message's
/// digest; with the signature policy disabled the verdicts are ignored.
pub fn handler(
    state: &mut GatewayState,
    tx_id: u128,
    source_chain_id: u64,
    dest_chain_id: u64,
    sender: &Vec<u8>,
    recipient: &Vec<u8>,
    on_chain_data: &Vec<u8>,
    off_chain_data: &Vec<u8>,
    signatures: &Vec<MessageSignature>,
    verdicts: &Vec<bool>,
) -> (r: Result<TxPdaCreated, GatewayError>)
    requires
        old(state).wf(),
        verdicts@.len() == signatures@.len(),
    ensures
        final(state).wf(),
        (match admission_error(
            *old(state),
            tx_id,
            source_chain_id,
            sender@,
            recipient@,
            on_chain_data@,
            off_chain_data@,
            signatures@,
            verdicts@,
        ) {
            Some(e) => r == Err::<TxPdaCreated, GatewayError>(e) && *final(state) == *old(state),
            None => r == Ok::<TxPdaCreated, GatewayError>(
                (TxPdaCreated { tx_id, source_chain_id }),
            ) && admit_transition(*old(state), *final(state), source_chain_id, tx_id)
                && final(state).records@ == old(state).records@.push(
                (TxIdPDA { source_chain_id, tx_id }),
            ),
        }),
{
    // Validation gate: cheap size bounds first, before any digest work.
    if sender.len() > MAX_SENDER_SIZE {
        return Err(GatewayError::SenderTooLong);
    }
    if recipient.len() > MAX_RECIPIENT_SIZE {
        return Err(GatewayError::RecipientTooLong);
    }
    if on_chain_data.len() > MAX_ON_CHAIN_DATA_SIZE {
        return Err(GatewayError::OnChainDataTooLarge);
    }
    if off_chain_data.len() > MAX_OFF_CHAIN_DATA_SIZE {
        return Err(GatewayError::OffChainDataTooLarge);
    }
    // Digest gate: the canonical digest the attached signatures attest to.
    // The oracle's verdicts passed in below are its answers over exactly
    // this digest.
    let _message_hash = create_message_hash_for_signing(
        tx_id,
        source_chain_id,
        dest_chain_id,
        sender,
        recipient,
        on_chain_data,
        off_chain_data,
    );
    // Signature-policy gate.
    match check_signature_policy(&state.signature_policy, signatures, verdicts) {
        Ok(()) => (),
        Err(e) => {
            return Err(e);
        },
    }
    // Ordering and uniqueness gates against the chain's counter.
    let idx = match state.counter_position(source_chain_id) {
        Some(i) => i,
        None => {
            return Err(GatewayError::CounterNotInitialized);
        },
    };
    proof {
        lemma_counter_index_agrees(*state, source_chain_id, idx as int);
    }
    if state.is_admitted(source_chain_id, tx_id) {
        return Err(GatewayError::DuplicateTxId);
    }
    let mut counter = state.counters[idx];
    match counter.advance(tx_id) {
        Ok(()) => (),
        Err(e) => {
            return Err(e);
        },
    }
    // Commit: advance the watermark and create the record, together.
    state.counters[idx] = counter;
    state.records.push(TxIdPDA { source_chain_id, tx_id });
    proof {
        let pre = *old(state);
        let post = *state;
        let n = pre.records@.len() as int;
        assert(post.counters@ == pre.counters@.update(
            idx as int,
            (CounterPDA { source_chain_id, highest_tx_id_seen: tx_id }),
        ));
        assert(post.records@[n] == (TxIdPDA { source_chain_id, tx_id }));
        // Counter uniqueness and validity: chain ids are unchanged.
        assert forall|i: int| 0 <= i < post.counters@.len() implies #[trigger] post.counters@[
            i
        ].source_chain_id == pre.counters@[i].source_chain_id by {}
        lemma_counter_index_agrees(post, source_chain_id, idx as int);
        // No counter appeared or disappeared.
        assert forall|c: u64| post.has_counter(c) <==> pre.has_counter(c) by {
            if pre.has_counter(c) {
                let i = choose|i: int|
                    0 <= i < pre.counters@.len() && pre.counters@[i].source_chain_id == c;
                assert(post.counters@[i].source_chain_id == c);
            }
            if post.has_counter(c) {
                let i = choose|i: int|
                    0 <= i < post.counters@.len() && post.counters@[i].source_chain_id == c;
                assert(pre.counters@[i].source_chain_id == c);
            }
        }
        // Watermarks of other chains are untouched.
        assert forall|c: u64| c != source_chain_id && pre.has_counter(c) implies post.watermark(c)
            == pre.watermark(c) by {
            let i = choose|i: int|
                0 <= i < pre.counters@.len() && pre.counters@[i].source_chain_id == c;
            lemma_counter_index_agrees(pre, c, i);
            lemma_counter_index_agrees(post, c, i);
            assert(i != idx as int);
        }
        // The record set grows by exactly the admitted pair.
        assert forall|c: u64, t: u128| post.admitted(c, t) <==> (pre.admitted(c, t) || (c
            == source_chain_id && t == tx_id)) by {
            if post.admitted(c, t) {
                let i = choose|i: int|
                    0 <= i < post.records@.len() && post.records@[i].source_chain_id == c
                        && post.records@[i].tx_id == t;
                if i < n {
                    assert(pre.admitted(c, t));
                }
            }
            if pre.admitted(c, t) {
                let i = choose|i: int|
                    0 <= i < pre.records@.len() && pre.records@[i].source_chain_id == c
                        && pre.records@[i].tx_id == t;
                assert(post.records@[i].source_chain_id == c && post.records@[i].tx_id == t);
            }
            if c == source_chain_id && t == tx_id {
                assert(post.records@[n].source_chain_id == c && post.records@[n].tx_id == t);
            }
        }
        // Record uniqueness: the new pair was never admitted before.
        assert forall|i: int, j: int| 0 <= i < j < post.records@.len() implies !(post.records@[
            i
        ].source_chain_id == post.records@[j].source_chain_id && post.records@[i].tx_id
            == post.records@[j].tx_id) by {
            if j < n {
                assert(!(pre.records@[i].source_chain_id == pre.records@[j].source_chain_id
                    && pre.records@[i].tx_id == pre.records@[j].tx_id));
            } else {
                assert(!pre.admitted(source_chain_id, tx_id));
                if pre.records@[i].source_chain_id == source_chain_id && pre.records@[i].tx_id
                    == tx_id {
                    assert(pre.admitted(source_chain_id, tx_id));
                }
            }
        }
        // Every record still lies at or below its chain's watermark.
        assert forall|i: int| 0 <= i < post.records@.len() implies post.has_counter(
            #[trigger] post.records@[i].source_chain_id,
        ) && post.records@[i].tx_id <= post.watermark(post.records@[i].source_chain_id) by {
            if i < n {
                let c = pre.records@[i].source_chain_id;
                assert(pre.has_counter(c) && pre.records@[i].tx_id <= pre.watermark(c));
                if c == source_chain_id {
                    assert(post.watermark(c) == tx_id);
                    assert(pre.watermark(c) < tx_id);
                } else {
                    assert(post.watermark(c) == pre.watermark(c));
                }
            } else {
                assert(post.records@[i].source_chain_id == source_chain_id);
                assert(post.watermark(source_chain_id) == tx_id);
            }
        }
    }
    Ok(TxPdaCreated { tx_id, source_chain_id })
}

} // verus!
