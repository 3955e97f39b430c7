use vstd::prelude::*;

verus! {

/// Version tag of the canonical message encoding. Any change to the tag,
/// the field order or the length prefixing is a breaking protocol change,
/// because the digest of this encoding is what signatures attest to.
pub const ENCODING_VERSION: u8 = 1;

/// The eight bytes of `x`, least significant first.
pub open spec fn u64_le_bytes(x: u64) -> Seq<u8> {
    seq![
        (x & 0xff) as u8,
        ((x >> 8) & 0xff) as u8,
        ((x >> 16) & 0xff) as u8,
        ((x >> 24) & 0xff) as u8,
        ((x >> 32) & 0xff) as u8,
        ((x >> 40) & 0xff) as u8,
        ((x >> 48) & 0xff) as u8,
        ((x >> 56) & 0xff) as u8,
    ]
}

/// The sixteen bytes of `x`, least significant first.
pub open spec fn u128_le_bytes(x: u128) -> Seq<u8> {
    seq![
        (x & 0xff) as u8,
        ((x >> 8) & 0xff) as u8,
        ((x >> 16) & 0xff) as u8,
        ((x >> 24) & 0xff) as u8,
        ((x >> 32) & 0xff) as u8,
        ((x >> 40) & 0xff) as u8,
        ((x >> 48) & 0xff) as u8,
        ((x >> 56) & 0xff) as u8,
        ((x >> 64) & 0xff) as u8,
        ((x >> 72) & 0xff) as u8,
        ((x >> 80) & 0xff) as u8,
        ((x >> 88) & 0xff) as u8,
        ((x >> 96) & 0xff) as u8,
        ((x >> 104) & 0xff) as u8,
        ((x >> 112) & 0xff) as u8,
        ((x >> 120) & 0xff) as u8,
    ]
}

/// The canonical encoding of a candidate message: a version tag, the three
/// fixed-width ids in little-endian order, then each variable-length field
/// prefixed by its length as a little-endian `u64`.
pub open spec fn encoded_message(
    tx_id: u128,
    source_chain_id: u64,
    dest_chain_id: u64,
    sender: Seq<u8>,
    recipient: Seq<u8>,
    on_chain_data: Seq<u8>,
    off_chain_data: Seq<u8>,
) -> Seq<u8> {
    seq![ENCODING_VERSION] + u128_le_bytes(tx_id) + u64_le_bytes(source_chain_id) + u64_le_bytes(
        dest_chain_id,
    ) + u64_le_bytes(sender.len() as u64) + sender + u64_le_bytes(recipient.len() as u64)
        + recipient + u64_le_bytes(on_chain_data.len() as u64) + on_chain_data + u64_le_bytes(
        off_chain_data.len() as u64,
    ) + off_chain_data
}

fn push_u64_le(out: &mut Vec<u8>, x: u64)
    ensures
        final(out)@ == old(out)@ + u64_le_bytes(x),
{
    out.push((x & 0xff) as u8);
    out.push(((x >> 8) & 0xff) as u8);
    out.push(((x >> 16) & 0xff) as u8);
    out.push(((x >> 24) & 0xff) as u8);
    out.push(((x >> 32) & 0xff) as u8);
    out.push(((x >> 40) & 0xff) as u8);
    out.push(((x >> 48) & 0xff) as u8);
    out.push(((x >> 56) & 0xff) as u8);
    assert(out@ =~= old(out)@ + u64_le_bytes(x));
}

fn push_u128_le(out: &mut Vec<u8>, x: u128)
    ensures
        final(out)@ == old(out)@ + u128_le_bytes(x),
{
    out.push((x & 0xff) as u8);
    out.push(((x >> 8) & 0xff) as u8);
    out.push(((x >> 16) & 0xff) as u8);
    out.push(((x >> 24) & 0xff) as u8);
    out.push(((x >> 32) & 0xff) as u8);
    out.push(((x >> 40) & 0xff) as u8);
    out.push(((x >> 48) & 0xff) as u8);
    out.push(((x >> 56) & 0xff) as u8);
    out.push(((x >> 64) & 0xff) as u8);
    out.push(((x >> 72) & 0xff) as u8);
    out.push(((x >> 80) & 0xff) as u8);
    out.push(((x >> 88) & 0xff) as u8);
    out.push(((x >> 96) & 0xff) as u8);
    out.push(((x >> 104) & 0xff) as u8);
    out.push(((x >> 112) & 0xff) as u8);
    out.push(((x >> 120) & 0xff) as u8);
    assert(out@ =~= old(out)@ + u128_le_bytes(x));
}

fn push_length_prefixed(out: &mut Vec<u8>, data: &Vec<u8>)
    ensures
        final(out)@ == old(out)@ + u64_le_bytes(data@.len() as u64) + data@,
{
    push_u64_le(out, data.len() as u64);
    let n = data.len();
    let mut k: usize = 0;
    while k < n
        invariant
            k <= n,
            n == data@.len(),
            out@ == old(out)@ + u64_le_bytes(data@.len() as u64) + data@.subrange(0, k as int),
        decreases n - k,
    {
        out.push(data[k]);
        k = k + 1;
        assert(out@ =~= old(out)@ + u64_le_bytes(data@.len() as u64) + data@.subrange(
            0,
            k as int,
        ));
    }
    assert(data@.subrange(0, n as int) =~= data@);
}

/// Builds the canonical encoding of a candidate message.
pub fn encode_message(
    tx_id: u128,
    source_chain_id: u64,
    dest_chain_id: u64,
    sender: &Vec<u8>,
    recipient: &Vec<u8>,
    on_chain_data: &Vec<u8>,
    off_chain_data: &Vec<u8>,
) -> (r: Vec<u8>)
    ensures
        r@ == encoded_message(
            tx_id,
            source_chain_id,
            dest_chain_id,
            sender@,
            recipient@,
            on_chain_data@,
            off_chain_data@,
        ),
{
    let mut out: Vec<u8> = Vec::new();
    out.push(ENCODING_VERSION);
    push_u128_le(&mut out, tx_id);
    push_u64_le(&mut out, source_chain_id);
    push_u64_le(&mut out, dest_chain_id);
    push_length_prefixed(&mut out, sender);
    push_length_prefixed(&mut out, recipient);
    push_length_prefixed(&mut out, on_chain_data);
    push_length_prefixed(&mut out, off_chain_data);
    assert(out@ =~= encoded_message(
        tx_id,
        source_chain_id,
        dest_chain_id,
        sender@,
        recipient@,
        on_chain_data@,
        off_chain_data@,
    ));
    out
}

/// The SHA-256 digest of a byte sequence; a function of the bytes alone.
pub uninterp spec fn sha256_of(data: Seq<u8>) -> Seq<u8>;

/// Relies on solana_sha256_hasher::hash: returns the 32-byte SHA-256
/// digest of the input, determined by the input bytes alone.
#[verifier::external_body]
fn sha256(data: &Vec<u8>) -> (r: Vec<u8>)
    ensures
        r@ == sha256_of(data@),
        r@.len() == 32,
{
    solana_sha256_hasher::hash(data.as_slice()).to_bytes().to_vec()
}

/// The canonical digest a candidate message's signatures attest to: the
/// SHA-256 digest of the message's canonical encoding.
pub fn create_message_hash_for_signing(
    tx_id: u128,
    source_chain_id: u64,
    dest_chain_id: u64,
    sender: &Vec<u8>,
    recipient: &Vec<u8>,
    on_chain_data: &Vec<u8>,
    off_chain_data: &Vec<u8>,
) -> (r: Vec<u8>)
    ensures
        r@ == sha256_of(
            encoded_message(
                tx_id,
                source_chain_id,
                dest_chain_id,
                sender@,
                recipient@,
                on_chain_data@,
                off_chain_data@,
            ),
        ),
        r@.len() == 32,
{
    let encoded = encode_message(
        tx_id,
        source_chain_id,
        dest_chain_id,
        sender,
        recipient,
        on_chain_data,
        off_chain_data,
    );
    sha256(&encoded)
}

} // verus!
