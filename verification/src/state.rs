use vstd::prelude::*;

use crate::constants::MAX_SUPPORTED_CHAIN_ID;
use crate::errors::GatewayError;

verus! {

/// The gateway configuration record: a single authority identity and the
/// enablement flag that gates all counter initialization.
#[derive(Clone, Debug)]
pub struct MessageGateway {
    /// Identity of the only account allowed to initialize counters.
    pub authority: Vec<u8>,
    /// The destination chain this gateway deployment admits messages into.
    pub chain_id: u64,
    /// When false, no counter may be initialized.
    pub system_enabled: bool,
}

/// One monotonic watermark per source chain: the highest sequence id
/// admitted so far from that chain.
#[derive(Clone, Copy, Debug, PartialEq, Eq, Structural)]
pub struct CounterPDA {
    /// The source chain this counter tracks; immutable after creation.
    pub source_chain_id: u64,
    /// Monotonically non-decreasing across the counter's lifetime.
    pub highest_tx_id_seen: u128,
}

impl CounterPDA {
    /// Strictly advances the watermark: a candidate at or below the
    /// highest sequence id seen is rejected. Strictly greater, not
    /// greater-or-equal: sequence ids are unique and strictly increasing
    /// per chain; gaps are permitted.
    pub fn advance(&mut self, candidate_tx_id: u128) -> (r: Result<(), GatewayError>)
        ensures
            r.is_ok() <==> old(self).highest_tx_id_seen < candidate_tx_id,
            r.is_ok() ==> *final(self) == (CounterPDA {
                source_chain_id: old(self).source_chain_id,
                highest_tx_id_seen: candidate_tx_id,
            }),
            r.is_err() ==> r == Err::<(), GatewayError>(GatewayError::TxIdTooOld) && *final(self)
                == *old(self),
    {
        if candidate_tx_id > self.highest_tx_id_seen {
            self.highest_tx_id_seen = candidate_tx_id;
            Ok(())
        } else {
            Err(GatewayError::TxIdTooOld)
        }
    }
}

/// One permanent admission record per (source chain, sequence id) pair.
/// Its existence is the proof that the pair was admitted.
#[derive(Clone, Copy, Debug, PartialEq, Eq, Structural)]
pub struct TxIdPDA {
    pub source_chain_id: u64,
    pub tx_id: u128,
}

/// A signature attached to a candidate message: the claimed signer identity
/// and the signature bytes over the message digest.
#[derive(Clone, Debug)]
pub struct MessageSignature {
    pub signer: Vec<u8>,
    pub signature: Vec<u8>,
}

/// The signature-enforcement policy. Disabling it is an explicit,
/// auditable configuration choice, never silent dead code.
#[derive(Clone, Debug)]
pub struct SignaturePolicy {
    /// When false, the signature gate admits every candidate unchecked.
    pub signatures_enabled: bool,
    /// Minimum number of attached signatures when enforcement is on.
    pub required_signatures: usize,
    /// The identities allowed to sign message digests.
    pub authorized_signers: Vec<Vec<u8>>,
}

/// The whole persisted state the admission protocol reads and writes:
/// the gateway configuration, the signature policy, one counter per
/// initialized source chain, and the permanent anti-replay records.
#[derive(Clone, Debug)]
pub struct GatewayState {
    pub gateway: MessageGateway,
    pub signature_policy: SignaturePolicy,
    pub counters: Vec<CounterPDA>,
    pub records: Vec<TxIdPDA>,
}

impl GatewayState {
    /// A counter for `chain` exists.
    pub open spec fn has_counter(self, chain: u64) -> bool {
        exists|i: int|
            0 <= i < self.counters@.len() && self.counters@[i].source_chain_id == chain
    }

    /// Position of the counter for `chain`; meaningful under
    /// `counters_unique` whenever `has_counter(chain)` holds.
    pub open spec fn counter_index(self, chain: u64) -> int {
        choose|i: int|
            0 <= i < self.counters@.len() && self.counters@[i].source_chain_id == chain
    }

    /// The highest sequence id admitted so far for `chain`.
    pub open spec fn watermark(self, chain: u64) -> u128 {
        self.counters@[self.counter_index(chain)].highest_tx_id_seen
    }

    /// An admission record for `(chain, tx_id)` exists.
    pub open spec fn admitted(self, chain: u64, tx_id: u128) -> bool {
        exists|i: int|
            0 <= i < self.records@.len() && self.records@[i].source_chain_id == chain
                && self.records@[i].tx_id == tx_id
    }

    /// At most one counter per source chain.
    pub open spec fn counters_unique(self) -> bool {
        forall|i: int, j: int|
            0 <= i < j < self.counters@.len() ==> self.counters@[i].source_chain_id
                != self.counters@[j].source_chain_id
    }

    /// Every counter tracks a valid chain id.
    pub open spec fn counters_valid(self) -> bool {
        forall|i: int|
            0 <= i < self.counters@.len() ==> 0 < #[trigger] self.counters@[i].source_chain_id
                <= MAX_SUPPORTED_CHAIN_ID
    }

    /// At most one admission record per (chain, sequence id) pair.
    pub open spec fn records_unique(self) -> bool {
        forall|i: int, j: int|
            0 <= i < j < self.records@.len() ==> !(self.records@[i].source_chain_id
                == self.records@[j].source_chain_id && self.records@[i].tx_id
                == self.records@[j].tx_id)
    }

    /// Every admission record lies on an initialized chain, at or below
    /// that chain's watermark: the watermark really is the high-water mark
    /// of everything ever admitted.
    pub open spec fn records_covered(self) -> bool {
        forall|i: int|
            0 <= i < self.records@.len() ==> self.has_counter(
                #[trigger] self.records@[i].source_chain_id,
            ) && self.records@[i].tx_id <= self.watermark(self.records@[i].source_chain_id)
    }

    /// Well-formedness of the persisted state; established at creation and
    /// preserved by every operation.
    pub open spec fn wf(self) -> bool {
        &&& self.counters_unique()
        &&& self.counters_valid()
        &&& self.records_unique()
        &&& self.records_covered()
    }

    /// A fresh gateway state with no counters and no records.
    pub fn new(gateway: MessageGateway, signature_policy: SignaturePolicy) -> (r: GatewayState)
        ensures
            r.wf(),
            r.counters@ == Seq::<CounterPDA>::empty(),
            r.records@ == Seq::<TxIdPDA>::empty(),
            r.gateway == gateway,
            r.signature_policy == signature_policy,
            forall|c: u64| !r.has_counter(c),
            forall|c: u64, t: u128| !r.admitted(c, t),
    {
        GatewayState { gateway, signature_policy, counters: Vec::new(), records: Vec::new() }
    }

    /// Position of the counter for `chain`, if one exists.
    pub fn counter_position(&self, chain: u64) -> (r: Option<usize>)
        ensures
            r matches Some(i) ==> i < self.counters@.len() && self.counters@[i as int].source_chain_id
                == chain,
            r is None ==> !self.has_counter(chain),
    {
        let n = self.counters.len();
        let mut k: usize = 0;
        while k < n
            invariant
                k <= n,
                n == self.counters@.len(),
                forall|i: int| 0 <= i < k ==> self.counters@[i].source_chain_id != chain,
            decreases n - k,
        {
            if self.counters[k].source_chain_id == chain {
                return Some(k);
            }
            k = k + 1;
        }
        None
    }

    /// Whether an admission record for `(chain, tx_id)` exists.
    pub fn is_admitted(&self, chain: u64, tx_id: u128) -> (r: bool)
        ensures
            r == self.admitted(chain, tx_id),
    {
        let n = self.records.len();
        let mut k: usize = 0;
        while k < n
            invariant
                k <= n,
                n == self.records@.len(),
                forall|i: int|
                    0 <= i < k ==> !(self.records@[i].source_chain_id == chain
                        && self.records@[i].tx_id == tx_id),
            decreases n - k,
        {
            if self.records[k].source_chain_id == chain && self.records[k].tx_id == tx_id {
                return true;
            }
            k = k + 1;
        }
        false
    }

    /// The current watermark for `chain`, if a counter exists.
    pub fn current_watermark(&self, chain: u64) -> (r: Option<u128>)
        requires
            self.counters_unique(),
        ensures
            r matches Some(w) ==> self.has_counter(chain) && w == self.watermark(chain),
            r is None ==> !self.has_counter(chain),
    {
        match self.counter_position(chain) {
            Some(i) => {
                proof {
                    lemma_counter_index_agrees(*self, chain, i as int);
                }
                Some(self.counters[i].highest_tx_id_seen)
            },
            None => None,
        }
    }
}

/// Under counter uniqueness, any position holding `chain` is the position
/// the spec-level `counter_index` denotes, so the watermark is that
/// element's field.
pub proof fn lemma_counter_index_agrees(s: GatewayState, chain: u64, i: int)
    requires
        s.counters_unique(),
        0 <= i < s.counters@.len(),
        s.counters@[i].source_chain_id == chain,
    ensures
        s.has_counter(chain),
        s.counter_index(chain) == i,
        s.watermark(chain) == s.counters@[i].highest_tx_id_seen,
{
    assert(s.has_counter(chain));
    let j = s.counter_index(chain);
    assert(0 <= j < s.counters@.len() && s.counters@[j].source_chain_id == chain);
    if i < j {
        assert(false);
    } else if j < i {
        assert(false);
    }
}

} // verus!
