//! Addresses and signed messages of the Flux network, which follow
//! Bitcoin's conventions: a P2PKH address is the Base58 text of a version
//! prefix, the hash of the public key and a checksum; a message is signed
//! through the double SHA-256 of a fixed prefix, the message's length and
//! the message.

use vstd::prelude::*;
use vstd::string::StringSliceAdditionalSpecFns;
use vstd::utf8::encode_utf8;
use base64::Engine;
use sha2::Digest;

verus! {

#[derive(Clone, Copy, Debug, PartialEq, Eq, Structural)]
pub enum FluxNetwork {
    Local,
    Testnet,
    Mainnet,
}

#[derive(Clone, Copy, Debug, PartialEq, Eq, Structural)]
pub enum P2PKHAddress {
    /// The address under which an identity logs in to Flux.
    ZelId,
    /// The address that sends and receives funds.
    ZCash,
}

/// The SHA-256 digest of a byte string.
pub uninterp spec fn sha256_digest(data: Seq<u8>) -> Seq<u8>;

/// The RIPEMD-160 digest of a byte string.
pub uninterp spec fn ripemd160_digest(data: Seq<u8>) -> Seq<u8>;

/// The Base58 text of a byte string, in Bitcoin's alphabet.
pub uninterp spec fn base58_text(data: Seq<u8>) -> Seq<char>;

/// `Sha256` of the crate sha2, fed with `data` once and finalized: the
/// SHA-256 digest of `data`, which is 32 bytes long.
#[verifier::external_body]
fn sha256(data: &[u8]) -> (digest: Vec<u8>)
    ensures
        digest@ == sha256_digest(data@),
        digest@.len() == 32,
{
    let mut hasher = sha2::Sha256::new();
    hasher.update(data);
    hasher.finalize().to_vec()
}

/// `Ripemd160` of the crate ripemd, fed with `data` once and finalized:
/// the RIPEMD-160 digest of `data`.
#[verifier::external_body]
fn ripemd160(data: &[u8]) -> (digest: Vec<u8>)
    ensures
        digest@ == ripemd160_digest(data@),
{
    let mut hasher = ripemd::Ripemd160::new();
    hasher.update(data);
    hasher.finalize().to_vec()
}

/// `encode` of the crate bs58, read out with `into_string`: the Base58
/// text of `data` in the crate's default alphabet, which is Bitcoin's.
#[verifier::external_body]
fn base58_encode(data: Vec<u8>) -> (text: String)
    ensures
        text@ == base58_text(data@),
{
    bs58::encode(data).into_string()
}

/// The Base64 text of a byte string, in the standard alphabet and padded.
pub uninterp spec fn base64_text(data: Seq<u8>) -> Seq<char>;

/// `encode` of the `STANDARD` engine of the crate base64: the Base64 text
/// of `data` in the standard alphabet, padded. The crate fails where the
/// length of the text does not fit the machine's word, far above the
/// lengths admitted here.
#[verifier::external_body]
fn base64_encode(data: Vec<u8>) -> (text: String)
    requires
        data@.len() <= usize::MAX / 2,
    ensures
        text@ == base64_text(data@),
{
    base64::engine::general_purpose::STANDARD.encode(data)
}

/// SHA-256 applied twice.
pub open spec fn hash256_digest(data: Seq<u8>) -> Seq<u8> {
    sha256_digest(sha256_digest(data))
}

pub fn hash256(data: &[u8]) -> (digest: Vec<u8>)
    ensures
        digest@ == hash256_digest(data@),
        digest@.len() == 32,
{
    let once = sha256(data);
    sha256(once.as_slice())
}

/// The version prefix of an address.
pub open spec fn address_prefix(network: FluxNetwork, address_type: P2PKHAddress) -> Seq<u8> {
    match network {
        FluxNetwork::Local | FluxNetwork::Testnet => match address_type {
            P2PKHAddress::ZelId => seq![0x6fu8],
            P2PKHAddress::ZCash => seq![0x1du8, 0x25u8],
        },
        FluxNetwork::Mainnet => match address_type {
            P2PKHAddress::ZelId => seq![0x00u8],
            P2PKHAddress::ZCash => seq![0x1cu8, 0xb8u8],
        },
    }
}

pub fn address_prefix_bytes(network: FluxNetwork, address_type: P2PKHAddress) -> (prefix: Vec<u8>)
    ensures
        prefix@ == address_prefix(network, address_type),
{
    let mut prefix: Vec<u8> = Vec::new();
    match network {
        FluxNetwork::Local | FluxNetwork::Testnet => match address_type {
            P2PKHAddress::ZelId => {
                prefix.push(0x6f);
            },
            P2PKHAddress::ZCash => {
                prefix.push(0x1d);
                prefix.push(0x25);
            },
        },
        FluxNetwork::Mainnet => match address_type {
            P2PKHAddress::ZelId => {
                prefix.push(0x00);
            },
            P2PKHAddress::ZCash => {
                prefix.push(0x1c);
                prefix.push(0xb8);
            },
        },
    }
    assert(prefix@ =~= address_prefix(network, address_type));
    prefix
}

/// `data` followed by the first `count` bytes of `tail`.
pub fn extended_with(data: Vec<u8>, tail: &[u8], count: usize) -> (extended: Vec<u8>)
    requires
        count <= tail@.len(),
    ensures
        extended@ == data@ + tail@.take(count as int),
{
    let mut extended = data;
    let mut i: usize = 0;
    while i < count
        invariant
            i <= count <= tail@.len(),
            extended@ == data@ + tail@.take(i as int),
        decreases count - i,
    {
        extended.push(tail[i]);
        assert(tail@.take(i + 1) =~= tail@.take(i as int).push(tail@[i as int]));
        assert(extended@ =~= data@ + tail@.take(i + 1));
        i += 1;
    }
    extended
}

/// The bytes that an address is the Base58 text of: the version prefix,
/// the RIPEMD-160 digest of the SHA-256 digest of the public key, and as
/// a checksum the first four bytes of the double SHA-256 of both.
pub open spec fn p2pkh_address_bytes(
    network: FluxNetwork,
    address_type: P2PKHAddress,
    public_key: Seq<u8>,
) -> Seq<u8> {
    let versioned = address_prefix(network, address_type) + ripemd160_digest(
        sha256_digest(public_key),
    );
    versioned + hash256_digest(versioned).take(4)
}

/// The P2PKH address of a public key.
pub fn public_key_to_p2pkh_address(
    network: FluxNetwork,
    address_type: P2PKHAddress,
    public_key: &[u8],
) -> (address: String)
    ensures
        address@ == base58_text(p2pkh_address_bytes(network, address_type, public_key@)),
{
    let key_digest = sha256(public_key);
    let result = ripemd160(key_digest.as_slice());
    let prefix = address_prefix_bytes(network, address_type);
    let data_with_prefix = extended_with(prefix, result.as_slice(), result.len());
    assert(result@.take(result@.len() as int) =~= result@);
    let checksum = hash256(data_with_prefix.as_slice());
    let full_address = extended_with(data_with_prefix, checksum.as_slice(), 4);
    base58_encode(full_address)
}

/// The `width` low bytes of `n`, least significant first.
pub open spec fn le_bytes(n: nat, width: nat) -> Seq<u8>
    decreases width,
{
    if width == 0 {
        Seq::empty()
    } else {
        seq![(n % 256) as u8] + le_bytes(n / 256, (width - 1) as nat)
    }
}

pub proof fn lemma_le_bytes_len(n: nat, width: nat)
    ensures
        le_bytes(n, width).len() == width,
    decreases width,
{
    if width > 0 {
        lemma_le_bytes_len(n / 256, (width - 1) as nat);
    }
}

/// Bitcoin's variable-length integer: one byte below 0xfd; else a marker
/// byte and the number in two, four or eight bytes, least significant
/// first.
pub open spec fn varuint(n: nat) -> Seq<u8> {
    if n < 0xfd {
        seq![n as u8]
    } else if n <= 0xffff {
        seq![0xfdu8] + le_bytes(n, 2)
    } else if n <= 0xffff_ffff {
        seq![0xfeu8] + le_bytes(n, 4)
    } else {
        seq![0xffu8] + le_bytes(n, 8)
    }
}

/// The number of bytes that the variable-length integer `l` takes.
pub fn encoding_length(l: usize) -> (length: usize)
    ensures
        length == varuint(l as nat).len(),
{
    proof {
        lemma_le_bytes_len(l as nat, 2);
        lemma_le_bytes_len(l as nat, 4);
        lemma_le_bytes_len(l as nat, 8);
    }
    if l < 0xfd {
        1
    } else if l <= 0xffff {
        3
    } else if l <= 0xffffffff {
        5
    } else {
        9
    }
}

/// Appends the `width` low bytes of `number`, least significant first.
fn push_le_bytes(buf: &mut Vec<u8>, number: usize, width: usize)
    ensures
        final(buf)@ == old(buf)@ + le_bytes(number as nat, width as nat),
{
    let ghost start = buf@;
    let mut rest: usize = number;
    let mut i: usize = 0;
    assert(le_bytes(number as nat, 0) =~= Seq::<u8>::empty());
    assert(buf@ =~= start + le_bytes(number as nat, 0));
    while i < width
        invariant
            i <= width,
            le_bytes(number as nat, width as nat) == le_bytes(number as nat, i as nat) + le_bytes(
                rest as nat,
                (width - i) as nat,
            ),
            buf@ == start + le_bytes(number as nat, i as nat),
        decreases width - i,
    {
        let low = (rest % 256) as u8;
        proof {
            let done = le_bytes(number as nat, i as nat);
            let remaining = le_bytes(rest as nat, (width - i) as nat);
            let next = le_bytes((rest / 256) as nat, (width - i - 1) as nat);
            assert(remaining == seq![low] + next);
            lemma_le_bytes_push(number as nat, i as nat, rest as nat, (width - i) as nat);
            assert(le_bytes(number as nat, (i + 1) as nat) == done.push(low));
            assert(done + (seq![low] + next) =~= done.push(low) + next);
        }
        buf.push(low);
        rest = rest / 256;
        i += 1;
    }
    proof {
        assert(le_bytes(rest as nat, 0) =~= Seq::<u8>::empty());
        assert(le_bytes(number as nat, width as nat) =~= le_bytes(number as nat, i as nat));
    }
}

/// If the first `done` bytes of `n` are followed by the bytes of `rest`,
/// then the first `done + 1` bytes of `n` end in the lowest byte of `rest`.
proof fn lemma_le_bytes_push(n: nat, done: nat, rest: nat, left: nat)
    requires
        left > 0,
        le_bytes(n, done + left) == le_bytes(n, done) + le_bytes(rest, left),
    ensures
        le_bytes(n, done + 1) == le_bytes(n, done).push((rest % 256) as u8),
{
    lemma_le_bytes_len(n, done);
    lemma_le_bytes_len(n, done + 1);
    lemma_le_bytes_len(n, done + left);
    lemma_le_bytes_prefix(n, done + 1, (left - 1) as nat);
    lemma_le_bytes_prefix(n, done, 1);
    let whole = le_bytes(n, done + left);
    let longer = le_bytes(n, done + 1);
    assert(longer =~= whole.take((done + 1) as int));
    assert(le_bytes(n, done) =~= longer.take(done as int));
    assert(le_bytes(rest, left)[0] == (rest % 256) as u8);
    assert(whole[done as int] == (rest % 256) as u8);
    assert(longer =~= le_bytes(n, done).push((rest % 256) as u8));
}

/// The first bytes of a number do not depend on how many bytes follow.
proof fn lemma_le_bytes_prefix(n: nat, width: nat, more: nat)
    ensures
        le_bytes(n, width + more).take(width as int) == le_bytes(n, width),
    decreases width,
{
    lemma_le_bytes_len(n, width + more);
    lemma_le_bytes_len(n, width);
    if width == 0 {
        assert(le_bytes(n, width + more).take(0) =~= le_bytes(n, 0));
    } else {
        lemma_le_bytes_prefix(n / 256, (width - 1) as nat, more);
        lemma_le_bytes_len(n / 256, (width - 1 + more) as nat);
        let long_tail = le_bytes(n / 256, (width - 1 + more) as nat);
        let short_tail = le_bytes(n / 256, (width - 1) as nat);
        assert(le_bytes(n, width + more) == seq![(n % 256) as u8] + long_tail);
        assert(le_bytes(n, width) == seq![(n % 256) as u8] + short_tail);
        assert((seq![(n % 256) as u8] + long_tail).take(width as int) =~= seq![(n % 256) as u8]
            + long_tail.take((width - 1) as int));
    }
}

/// The variable-length integer `number`.
pub fn encode_varuint(number: usize) -> (buf: Vec<u8>)
    ensures
        buf@ == varuint(number as nat),
{
    let mut buf: Vec<u8> = Vec::new();
    if number < 0xfd {
        buf.push(number as u8);
        assert(buf@ =~= varuint(number as nat));
    } else if number <= 0xffff {
        buf.push(0xfd);
        push_le_bytes(&mut buf, number, 2);
        assert(buf@ =~= varuint(number as nat));
    } else if number <= 0xffffffff {
        buf.push(0xfe);
        push_le_bytes(&mut buf, number, 4);
        assert(buf@ =~= varuint(number as nat));
    } else {
        buf.push(0xff);
        push_le_bytes(&mut buf, number, 8);
        assert(buf@ =~= varuint(number as nat));
    }
    buf
}

/// What opens every signed message: a length byte and the words that it counts.
pub open spec fn message_magic_prefix() -> Seq<u8> {
    encode_utf8("\x18Bitcoin Signed Message:\n"@)
}

/// What is hashed to sign `message`: the prefix, the length of the message
/// in bytes as a variable-length integer, and the message.
pub open spec fn message_magic_bytes(message: Seq<char>) -> Seq<u8> {
    message_magic_prefix() + varuint(encode_utf8(message).len()) + encode_utf8(message)
}

pub fn get_message_magic_bytes(message: &str) -> (buffer: Vec<u8>)
    ensures
        buffer@ == message_magic_bytes(message@),
{
    let msg_prefix = "\x18Bitcoin Signed Message:\n".as_bytes();
    let text = message.as_bytes();
    let buffer: Vec<u8> = Vec::new();
    let buffer = extended_with(buffer, msg_prefix, msg_prefix.len());
    let size = encode_varuint(text.len());
    let buffer = extended_with(buffer, size.as_slice(), size.len());
    let buffer = extended_with(buffer, text, text.len());
    proof {
        assert(msg_prefix@.take(msg_prefix@.len() as int) =~= msg_prefix@);
        assert(size@.take(size@.len() as int) =~= size@);
        assert(text@.take(text@.len() as int) =~= text@);
        assert(buffer@ =~= message_magic_bytes(message@));
    }
    buffer
}

/// The hash that is signed for `message`.
pub fn get_message_magic_hash(message: String) -> (hash: Vec<u8>)
    ensures
        hash@ == hash256_digest(message_magic_bytes(message@)),
        hash@.len() == 32,
{
    let buffer = get_message_magic_bytes(message.as_str());
    hash256(buffer.as_slice())
}

/// The flag byte of a compact signature over a compressed key and a P2PKH
/// address, followed by the signature.
pub fn encode_signature(signature_bytes: &[u8]) -> (bytes: Vec<u8>)
    ensures
        bytes@ == seq![32u8] + signature_bytes@,
{
    let mut bytes: Vec<u8> = Vec::new();
    bytes.push(5 + 27);
    let bytes = extended_with(bytes, signature_bytes, signature_bytes.len());
    assert(signature_bytes@.take(signature_bytes@.len() as int) =~= signature_bytes@);
    bytes
}

/// The text that a signature is handed out as: the Base64 text of the
/// flag byte and the signature.
pub fn encode_signature_base64(signature_bytes: &[u8]) -> (text: String)
    requires
        signature_bytes@.len() < usize::MAX / 2,
    ensures
        text@ == base64_text(seq![32u8] + signature_bytes@),
{
    base64_encode(encode_signature(signature_bytes))
}

} // verus!
