use vstd::prelude::*;

verus! {

/// Every way an admission attempt or a counter initialization can be
/// rejected. A rejection never changes persisted state.
#[derive(Clone, Copy, Debug, PartialEq, Eq, Structural)]
pub enum GatewayError {
    /// The requester is not the gateway authority.
    UnauthorizedAccess,
    /// The gateway's enablement flag is off.
    GatewayDisabled,
    /// The source chain id is zero or above the supported maximum.
    InvalidChainId,
    /// A counter for this source chain already exists.
    AlreadyInitialized,
    /// No counter was ever initialized for this source chain.
    CounterNotInitialized,
    /// The `sender` field exceeds `MAX_SENDER_SIZE`.
    SenderTooLong,
    /// The `recipient` field exceeds `MAX_RECIPIENT_SIZE`.
    RecipientTooLong,
    /// The on-chain payload exceeds `MAX_ON_CHAIN_DATA_SIZE`.
    OnChainDataTooLarge,
    /// The off-chain payload reference exceeds `MAX_OFF_CHAIN_DATA_SIZE`.
    OffChainDataTooLarge,
    /// The message's sequence id is not strictly above the chain's watermark.
    TxIdTooOld,
    /// A record for this exact (source chain, sequence id) pair already
    /// exists: the message was admitted before.
    DuplicateTxId,
    /// A signature did not verify over the message digest.
    InvalidSignature,
    /// Fewer signatures were attached than the policy requires.
    InsufficientSignatures,
    /// A signature was produced by a signer the policy does not authorize.
    UnauthorizedSigner,
}

} // verus!
