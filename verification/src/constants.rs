use vstd::prelude::*;

verus! {

/// Upper bound, in bytes, on the `sender` field of a candidate message.
pub const MAX_SENDER_SIZE: usize = 64;

/// Upper bound, in bytes, on the `recipient` field of a candidate message.
pub const MAX_RECIPIENT_SIZE: usize = 64;

/// Upper bound, in bytes, on the on-chain payload of a candidate message.
pub const MAX_ON_CHAIN_DATA_SIZE: usize = 1024;

/// Upper bound, in bytes, on the off-chain payload reference of a candidate
/// message.
pub const MAX_OFF_CHAIN_DATA_SIZE: usize = 1024;

/// Highest source chain id a counter may be initialized for (`u64::MAX`).
/// Chain id `0` is always invalid.
pub const MAX_SUPPORTED_CHAIN_ID: u64 = 18446744073709551615;

} // verus!
