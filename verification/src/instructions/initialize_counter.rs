use vstd::prelude::*;

use crate::constants::MAX_SUPPORTED_CHAIN_ID;
use crate::errors::GatewayError;
use crate::events::CounterInitialized;
use crate::signature::bytes_equal;
use crate::state::lemma_counter_index_agrees;
use crate::state::CounterPDA;
use crate::state::GatewayState;

verus! {

/// The rejection, if any, that initializing a counter for
/// `source_chain_id` meets against pre-state `pre` when requested by
/// `requester`, gate by gate: authorization, enablement, chain id bounds,
/// then single creation.
pub open spec fn initialize_error(
    pre: GatewayState,
    source_chain_id: u64,
    requester: Seq<u8>,
) -> Option<GatewayError> {
    if requester != pre.gateway.authority@ {
        Some(GatewayError::UnauthorizedAccess)
    } else if !pre.gateway.system_enabled {
        Some(GatewayError::GatewayDisabled)
    } else if !(source_chain_id > 0 && source_chain_id <= MAX_SUPPORTED_CHAIN_ID) {
        Some(GatewayError::InvalidChainId)
    } else if pre.has_counter(source_chain_id) {
        Some(GatewayError::AlreadyInitialized)
    } else {
        None
    }
}

/// Creates the counter for a source chain, exactly once, with watermark
/// zero. This is the only way a counter comes into existence; there is no
/// overwrite path, so a watermark can never be reset. A rejection leaves
/// the state untouched.
pub fn handler(state: &mut GatewayState, source_chain_id: u64, requester: &Vec<u8>) -> (r: Result<
    CounterInitialized,
    GatewayError,
>)
    requires
        old(state).wf(),
    ensures
        final(state).wf(),
        (match initialize_error(*old(state), source_chain_id, requester@) {
            Some(e) => r == Err::<CounterInitialized, GatewayError>(e) && *final(state) == *old(state),
            None => r.is_ok() && final(state).counters@ == old(state).counters@.push(
                (CounterPDA { source_chain_id, highest_tx_id_seen: 0 }),
            ),
        }),
        r.is_ok() <==> initialize_error(*old(state), source_chain_id, requester@) is None,
        r matches Ok(ev) ==> ev.source_chain_id == source_chain_id
            && ev.authority@ == old(state).gateway.authority@ && ev.highest_tx_id_seen == 0,
        r.is_ok() ==> final(state).has_counter(source_chain_id) && final(state).watermark(
            source_chain_id,
        ) == 0,
        forall|c: u64|
            c != source_chain_id ==> (final(state).has_counter(c) <==> old(state).has_counter(c)),
        forall|c: u64|
            c != source_chain_id && old(state).has_counter(c) ==> final(state).watermark(c)
                == old(state).watermark(c),
        final(state).records@ == old(state).records@,
        final(state).gateway == old(state).gateway,
        final(state).signature_policy == old(state).signature_policy,
{
    if !bytes_equal(requester, &state.gateway.authority) {
        return Err(GatewayError::UnauthorizedAccess);
    }
    if !state.gateway.system_enabled {
        return Err(GatewayError::GatewayDisabled);
    }
    if !(source_chain_id > 0 && source_chain_id <= MAX_SUPPORTED_CHAIN_ID) {
        return Err(GatewayError::InvalidChainId);
    }
    if state.counter_position(source_chain_id).is_some() {
        return Err(GatewayError::AlreadyInitialized);
    }
    let authority = state.gateway.authority.clone();
    state.counters.push(CounterPDA { source_chain_id, highest_tx_id_seen: 0 });
    proof {
        let pre = *old(state);
        let post = *state;
        let n = pre.counters@.len() as int;
        assert(post.counters@[n] == (CounterPDA { source_chain_id, highest_tx_id_seen: 0 }));
        assert forall|i: int, j: int| 0 <= i < j < post.counters@.len() implies post.counters@[
            i
        ].source_chain_id != post.counters@[j].source_chain_id by {
            if j < n {
                assert(pre.counters@[i].source_chain_id != pre.counters@[j].source_chain_id);
            } else {
                assert(pre.counters@[i].source_chain_id != source_chain_id);
            }
        }
        lemma_counter_index_agrees(post, source_chain_id, n);
        assert forall|c: u64| c != source_chain_id implies (post.has_counter(c)
            <==> pre.has_counter(c)) by {
            if pre.has_counter(c) {
                let i = choose|i: int|
                    0 <= i < pre.counters@.len() && pre.counters@[i].source_chain_id == c;
                assert(post.counters@[i].source_chain_id == c);
            }
            if post.has_counter(c) {
                let i = choose|i: int|
                    0 <= i < post.counters@.len() && post.counters@[i].source_chain_id == c;
                assert(0 <= i < n);
                assert(pre.counters@[i].source_chain_id == c);
            }
        }
        assert forall|c: u64| c != source_chain_id && pre.has_counter(c) implies post.watermark(c)
            == pre.watermark(c) by {
            let i = choose|i: int|
                0 <= i < pre.counters@.len() && pre.counters@[i].source_chain_id == c;
            lemma_counter_index_agrees(pre, c, i);
            lemma_counter_index_agrees(post, c, i);
        }
        assert forall|i: int| 0 <= i < post.records@.len() implies post.has_counter(
            #[trigger] post.records@[i].source_chain_id,
        ) && post.records@[i].tx_id <= post.watermark(post.records@[i].source_chain_id) by {
            let c = pre.records@[i].source_chain_id;
            assert(pre.has_counter(c) && pre.records@[i].tx_id <= pre.watermark(c));
            assert(c != source_chain_id);
        }
    }
    Ok(CounterInitialized { source_chain_id, authority, highest_tx_id_seen: 0 })
}

} // verus!
