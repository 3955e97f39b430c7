use message_gateway::errors::GatewayError;
use message_gateway::state::CounterPDA;
use message_gateway::events::TxPdaCreated;
use message_gateway::instructions::create_tx_pda;
use message_gateway::instructions::initialize_counter;
use message_gateway::state::GatewayState;
use message_gateway::state::MessageGateway;
use message_gateway::state::MessageSignature;
use message_gateway::state::SignaturePolicy;

fn authority() -> Vec<u8> {
    vec![7u8; 32]
}

fn open_policy() -> SignaturePolicy {
    SignaturePolicy {
        signatures_enabled: false,
        required_signatures: 0,
        authorized_signers: Vec::new(),
    }
}

fn fresh_state() -> GatewayState {
    GatewayState::new(
        MessageGateway { authority: authority(), chain_id: 1, system_enabled: true },
        open_policy(),
    )
}

fn submit(st: &mut GatewayState, tx_id: u128, chain: u64) -> Result<TxPdaCreated, GatewayError> {
    create_tx_pda::handler(
        st,
        tx_id,
        chain,
        1,
        &vec![1u8],
        &vec![2u8],
        &vec![3u8],
        &vec![4u8],
        &Vec::new(),
        &Vec::new(),
    )
}

#[test]
fn initialize_starts_at_zero_then_admissions_advance() {
    let mut st = fresh_state();
    let ev = initialize_counter::handler(&mut st, 42, &authority()).unwrap();
    assert_eq!(ev.source_chain_id, 42);
    assert_eq!(ev.highest_tx_id_seen, 0);
    assert_eq!(ev.authority, authority());
    assert_eq!(st.current_watermark(42), Some(0));

    let ev = submit(&mut st, 5, 42).unwrap();
    assert_eq!(ev, TxPdaCreated { tx_id: 5, source_chain_id: 42 });
    assert_eq!(st.current_watermark(42), Some(5));
    assert!(st.is_admitted(42, 5));

    assert_eq!(submit(&mut st, 5, 42), Err(GatewayError::DuplicateTxId));
    assert_eq!(st.current_watermark(42), Some(5));

    assert_eq!(submit(&mut st, 3, 42), Err(GatewayError::TxIdTooOld));
    assert_eq!(st.current_watermark(42), Some(5));
    assert!(!st.is_admitted(42, 3));

    let ev = submit(&mut st, 100, 42).unwrap();
    assert_eq!(ev, TxPdaCreated { tx_id: 100, source_chain_id: 42 });
    assert_eq!(st.current_watermark(42), Some(100));
    assert!(st.is_admitted(42, 100));
}

#[test]
fn second_initialization_is_rejected() {
    let mut st = fresh_state();
    initialize_counter::handler(&mut st, 42, &authority()).unwrap();
    submit(&mut st, 9, 42).unwrap();
    let r = initialize_counter::handler(&mut st, 42, &authority());
    assert_eq!(r.unwrap_err(), GatewayError::AlreadyInitialized);
    assert_eq!(st.current_watermark(42), Some(9));
}

#[test]
fn racing_admissions_serialize_on_the_counter() {
    // Two attempts for chain 7 with ids 10 and 11, both prepared against
    // watermark 9. Whichever commits first wins; the loser is re-checked
    // against the new watermark.
    let mut st = fresh_state();
    initialize_counter::handler(&mut st, 7, &authority()).unwrap();
    submit(&mut st, 9, 7).unwrap();

    // id 10 commits first: 11 is still above the watermark and succeeds.
    submit(&mut st, 10, 7).unwrap();
    submit(&mut st, 11, 7).unwrap();
    assert_eq!(st.current_watermark(7), Some(11));

    // In the other order the late id 10 must fail, never rewinding.
    let mut st = fresh_state();
    initialize_counter::handler(&mut st, 7, &authority()).unwrap();
    submit(&mut st, 9, 7).unwrap();
    submit(&mut st, 11, 7).unwrap();
    assert_eq!(submit(&mut st, 10, 7), Err(GatewayError::TxIdTooOld));
    assert_eq!(st.current_watermark(7), Some(11));
    assert!(st.is_admitted(7, 11));
    assert!(!st.is_admitted(7, 10));
}

#[test]
fn counter_advance_is_strictly_greater() {
    let mut c = CounterPDA { source_chain_id: 1, highest_tx_id_seen: 9 };
    assert_eq!(c.advance(9), Err(GatewayError::TxIdTooOld));
    assert_eq!(c.highest_tx_id_seen, 9);
    assert_eq!(c.advance(10), Ok(()));
    assert_eq!(c.highest_tx_id_seen, 10);
    // Gaps are permitted; only strict increase is required.
    assert_eq!(c.advance(12), Ok(()));
    assert_eq!(c.advance(11), Err(GatewayError::TxIdTooOld));
    assert_eq!(c.highest_tx_id_seen, 12);
}

#[test]
fn initialization_gates() {
    let mut st = fresh_state();
    let stranger = vec![8u8; 32];
    assert_eq!(
        initialize_counter::handler(&mut st, 42, &stranger).unwrap_err(),
        GatewayError::UnauthorizedAccess
    );
    assert_eq!(
        initialize_counter::handler(&mut st, 0, &authority()).unwrap_err(),
        GatewayError::InvalidChainId
    );
    assert_eq!(st.current_watermark(42), None);
    assert_eq!(st.current_watermark(0), None);

    let mut disabled = GatewayState::new(
        MessageGateway { authority: authority(), chain_id: 1, system_enabled: false },
        open_policy(),
    );
    assert_eq!(
        initialize_counter::handler(&mut disabled, 42, &authority()).unwrap_err(),
        GatewayError::GatewayDisabled
    );
}

#[test]
fn admission_needs_an_initialized_counter() {
    let mut st = fresh_state();
    assert_eq!(submit(&mut st, 1, 42), Err(GatewayError::CounterNotInitialized));
    assert!(!st.is_admitted(42, 1));
}

#[test]
fn chains_are_independent() {
    let mut st = fresh_state();
    initialize_counter::handler(&mut st, 1, &authority()).unwrap();
    initialize_counter::handler(&mut st, 2, &authority()).unwrap();
    submit(&mut st, 50, 1).unwrap();
    submit(&mut st, 5, 2).unwrap();
    assert_eq!(st.current_watermark(1), Some(50));
    assert_eq!(st.current_watermark(2), Some(5));
    assert!(st.is_admitted(1, 50));
    assert!(!st.is_admitted(2, 50));
}

fn submit_with_fields(
    st: &mut GatewayState,
    sender: Vec<u8>,
    recipient: Vec<u8>,
    on_chain: Vec<u8>,
    off_chain: Vec<u8>,
) -> Result<TxPdaCreated, GatewayError> {
    create_tx_pda::handler(
        st,
        1,
        42,
        1,
        &sender,
        &recipient,
        &on_chain,
        &off_chain,
        &Vec::new(),
        &Vec::new(),
    )
}

#[test]
fn size_bounds_reject_before_any_state_change() {
    let mut st = fresh_state();
    initialize_counter::handler(&mut st, 42, &authority()).unwrap();

    let r = submit_with_fields(&mut st, vec![0u8; 65], vec![], vec![], vec![]);
    assert_eq!(r, Err(GatewayError::SenderTooLong));
    let r = submit_with_fields(&mut st, vec![], vec![0u8; 65], vec![], vec![]);
    assert_eq!(r, Err(GatewayError::RecipientTooLong));
    let r = submit_with_fields(&mut st, vec![], vec![], vec![0u8; 1025], vec![]);
    assert_eq!(r, Err(GatewayError::OnChainDataTooLarge));
    let r = submit_with_fields(&mut st, vec![], vec![], vec![], vec![0u8; 1025]);
    assert_eq!(r, Err(GatewayError::OffChainDataTooLarge));

    // No rejected attempt moved the watermark or admitted anything.
    assert_eq!(st.current_watermark(42), Some(0));
    assert!(!st.is_admitted(42, 1));

    // At the bounds exactly, the message is admitted.
    let r = submit_with_fields(&mut st, vec![0u8; 64], vec![0u8; 64], vec![0u8; 1024], vec![
        0u8;
        1024
    ]);
    assert_eq!(r, Ok(TxPdaCreated { tx_id: 1, source_chain_id: 42 }));
}

fn signer_a() -> Vec<u8> {
    vec![0xAA; 32]
}

fn one_signature(signer: Vec<u8>) -> Vec<MessageSignature> {
    vec![MessageSignature { signer, signature: vec![0u8; 64] }]
}

fn strict_state(required: usize) -> GatewayState {
    GatewayState::new(
        MessageGateway { authority: authority(), chain_id: 1, system_enabled: true },
        SignaturePolicy {
            signatures_enabled: true,
            required_signatures: required,
            authorized_signers: vec![signer_a()],
        },
    )
}

fn submit_signed(
    st: &mut GatewayState,
    signatures: Vec<MessageSignature>,
    verdicts: Vec<bool>,
) -> Result<TxPdaCreated, GatewayError> {
    create_tx_pda::handler(
        st,
        1,
        42,
        1,
        &vec![1u8],
        &vec![2u8],
        &vec![3u8],
        &vec![4u8],
        &signatures,
        &verdicts,
    )
}

#[test]
fn signature_policy_gates() {
    let mut st = strict_state(1);
    initialize_counter::handler(&mut st, 42, &authority()).unwrap();

    // A valid verdict from an authorized signer passes.
    let r = submit_signed(&mut st, one_signature(signer_a()), vec![true]);
    assert_eq!(r, Ok(TxPdaCreated { tx_id: 1, source_chain_id: 42 }));

    // An invalid verdict is rejected.
    let mut st = strict_state(1);
    initialize_counter::handler(&mut st, 42, &authority()).unwrap();
    let r = submit_signed(&mut st, one_signature(signer_a()), vec![false]);
    assert_eq!(r, Err(GatewayError::InvalidSignature));

    // An unauthorized signer is rejected even with a valid verdict.
    let r = submit_signed(&mut st, one_signature(vec![0xBB; 32]), vec![true]);
    assert_eq!(r, Err(GatewayError::UnauthorizedSigner));

    // Too few signatures.
    let r = submit_signed(&mut st, Vec::new(), Vec::new());
    assert_eq!(r, Err(GatewayError::InsufficientSignatures));

    // Nothing was admitted by the rejected attempts.
    assert_eq!(st.current_watermark(42), Some(0));
    assert!(!st.is_admitted(42, 1));

    // With the policy disabled the verdicts are ignored.
    let mut st = fresh_state();
    initialize_counter::handler(&mut st, 42, &authority()).unwrap();
    let r = submit_signed(&mut st, one_signature(signer_a()), vec![false]);
    assert_eq!(r, Ok(TxPdaCreated { tx_id: 1, source_chain_id: 42 }));
}
