use message_gateway::hash::create_message_hash_for_signing;
use message_gateway::hash::encode_message;

#[test]
fn encoding_is_exact() {
    let sender = vec![0xA1, 0xA2];
    let recipient = vec![0xB1];
    let on_chain = vec![0xC1, 0xC2, 0xC3];
    let off_chain: Vec<u8> = Vec::new();
    let encoded = encode_message(2, 3, 4, &sender, &recipient, &on_chain, &off_chain);

    let mut expected: Vec<u8> = Vec::new();
    expected.push(1); // encoding version
    expected.extend_from_slice(&2u128.to_le_bytes());
    expected.extend_from_slice(&3u64.to_le_bytes());
    expected.extend_from_slice(&4u64.to_le_bytes());
    expected.extend_from_slice(&2u64.to_le_bytes());
    expected.extend_from_slice(&sender);
    expected.extend_from_slice(&1u64.to_le_bytes());
    expected.extend_from_slice(&recipient);
    expected.extend_from_slice(&3u64.to_le_bytes());
    expected.extend_from_slice(&on_chain);
    expected.extend_from_slice(&0u64.to_le_bytes());
    assert_eq!(encoded, expected);
}

#[test]
fn digest_is_thirty_two_bytes_not_the_encoding() {
    let empty: Vec<u8> = Vec::new();
    // The canonical encoding of this message is 65 bytes long, so a digest
    // of 32 bytes cannot be the encoding handed back unchanged.
    let encoded = encode_message(1, 2, 3, &empty, &empty, &empty, &empty);
    assert_eq!(encoded.len(), 65);
    let digest = create_message_hash_for_signing(1, 2, 3, &empty, &empty, &empty, &empty);
    assert_eq!(digest.len(), 32);
    assert_ne!(digest, encoded);
}

#[test]
fn digest_is_a_function_of_the_fields() {
    let empty: Vec<u8> = Vec::new();
    let a = create_message_hash_for_signing(1, 2, 3, &empty, &empty, &empty, &empty);
    let b = create_message_hash_for_signing(1, 2, 3, &empty, &empty, &empty, &empty);
    assert_eq!(a, b);
    let c = create_message_hash_for_signing(9, 2, 3, &empty, &empty, &empty, &empty);
    assert_ne!(a, c);
    let d = create_message_hash_for_signing(1, 2, 3, &vec![5u8], &empty, &empty, &empty);
    assert_ne!(a, d);
}

#[test]
fn digest_matches_sha256_of_the_encoding() {
    let sender = vec![1u8, 2, 3];
    let recipient = vec![4u8];
    let on_chain = vec![5u8, 6];
    let off_chain = vec![7u8];
    let encoded = encode_message(10, 20, 30, &sender, &recipient, &on_chain, &off_chain);
    let digest = create_message_hash_for_signing(
        10,
        20,
        30,
        &sender,
        &recipient,
        &on_chain,
        &off_chain,
    );
    let direct = solana_sha256_hasher::hash(encoded.as_slice()).to_bytes().to_vec();
    assert_eq!(digest, direct);
}
