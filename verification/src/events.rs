use vstd::prelude::*;

verus! {

/// Emitted when a counter is created for a source chain. Observational
/// only: consumers learn that admissions on `source_chain_id` may begin,
/// starting from watermark zero.
#[derive(Clone, Debug)]
pub struct CounterInitialized {
    pub source_chain_id: u64,
    /// Identity of the authority that created the counter.
    pub authority: Vec<u8>,
    /// Always zero at initialization.
    pub highest_tx_id_seen: u128,
}

/// Emitted when a message is admitted: its admission record exists and the
/// chain's watermark now equals `tx_id`.
#[derive(Clone, Copy, Debug, PartialEq, Eq, Structural)]
pub struct TxPdaCreated {
    pub tx_id: u128,
    pub source_chain_id: u64,
}

} // verus!
