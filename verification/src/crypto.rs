//! The secure channel between nodes.
//!
//! Every node holds the network key that all nodes share, a signing key of
//! its own and a key-exchange key of its own. A payload travels as a nonce
//! followed by ciphertext and tag; a security token is a signed statement of
//! a node's identity and of the time until which it holds, sealed like any
//! other payload.

use vstd::prelude::*;
use vstd::bytes::{
    lemma_auto_spec_u32_to_from_le_bytes, lemma_auto_spec_u64_to_from_le_bytes,
    spec_u32_to_le_bytes, spec_u64_from_le_bytes, spec_u64_to_le_bytes, u32_to_le_bytes,
    u64_from_le_bytes, u64_to_le_bytes,
};
use vstd::utf8::encode_utf8;
use vstd::hash_map::StringHashMap;
use vstd::slice::slice_subrange;
use crate::clock::wall_clock_ms;
use crate::primitives::{
    aead_open, aead_seal, aes256_gcm_open, aes256_gcm_seal, ed25519_accepts, ed25519_new_secret,
    ed25519_public, ed25519_public_key, ed25519_sign, ed25519_signature, ed25519_verify,
    hkdf_sha256, hkdf_sha256_key, random_key, sha256, sha256_digest, x25519_agree,
    x25519_new_secret, x25519_public, x25519_public_key, x25519_shared, AEAD_MAX_PLAINTEXT,
    AEAD_MAX_SEALED, AEAD_TAG_LEN,
};
use crate::text::{decoded_text, join, lemma_decoded_text_of_encoding, utf8_lossy};
use crate::wire::{append, to_array};

verus! {

/// Length of a symmetric or asymmetric key in bytes.
pub const KEY_LEN: usize = 32;

/// Length of the nonce that leads every sealed payload, in bytes.
pub const NONCE_LEN: usize = 12;

/// Length of a signature in bytes.
pub const SIGNATURE_LEN: usize = 64;

/// A failed cryptographic operation, with the reason in words.
#[derive(Debug)]
pub enum CryptoError {
    EncryptionError(String),
    DecryptionError(String),
    SignatureError(String),
    VerificationError(String),
    KeyExchangeError(String),
    HashError(String),
}

/// Outcome of a cryptographic operation.
pub type CryptoResult<T> = Result<T, CryptoError>;

/// What a [`CryptoError`] says: the operation that failed and the reason.
pub enum Failure {
    Encryption(Seq<char>),
    Decryption(Seq<char>),
    Signature(Seq<char>),
    Verification(Seq<char>),
    KeyExchange(Seq<char>),
    Hash(Seq<char>),
}

impl Failure {
    /// The failure as one line of text.
    pub open spec fn describe(self) -> Seq<char> {
        match self {
            Failure::Encryption(reason) => "Encryption error: "@ + reason,
            Failure::Decryption(reason) => "Decryption error: "@ + reason,
            Failure::Signature(reason) => "Signature error: "@ + reason,
            Failure::Verification(reason) => "Verification error: "@ + reason,
            Failure::KeyExchange(reason) => "Key exchange error: "@ + reason,
            Failure::Hash(reason) => "Hash error: "@ + reason,
        }
    }
}

impl View for CryptoError {
    type V = Failure;

    open spec fn view(&self) -> Failure {
        match self {
            CryptoError::EncryptionError(reason) => Failure::Encryption(reason@),
            CryptoError::DecryptionError(reason) => Failure::Decryption(reason@),
            CryptoError::SignatureError(reason) => Failure::Signature(reason@),
            CryptoError::VerificationError(reason) => Failure::Verification(reason@),
            CryptoError::KeyExchangeError(reason) => Failure::KeyExchange(reason@),
            CryptoError::HashError(reason) => Failure::Hash(reason@),
        }
    }
}

impl CryptoError {
    /// The error as one line of text.
    pub fn to_string(&self) -> (text: String)
        ensures
            text@ == self@.describe(),
    {
        match self {
            CryptoError::EncryptionError(reason) => join("Encryption error: ", reason.as_str()),
            CryptoError::DecryptionError(reason) => join("Decryption error: ", reason.as_str()),
            CryptoError::SignatureError(reason) => join("Signature error: ", reason.as_str()),
            CryptoError::VerificationError(reason) => join(
                "Verification error: ",
                reason.as_str(),
            ),
            CryptoError::KeyExchangeError(reason) => join(
                "Key exchange error: ",
                reason.as_str(),
            ),
            CryptoError::HashError(reason) => join("Hash error: ", reason.as_str()),
        }
    }
}

/// The public half of a node's signing key.
#[derive(Clone, Copy, Debug)]
pub struct PublicKey {
    bytes: [u8; 32],
}

impl View for PublicKey {
    type V = Seq<u8>;

    closed spec fn view(&self) -> Seq<u8> {
        self.bytes@
    }
}

impl PublicKey {
    /// The key that `bytes` stand for. Bytes that are no point of the curve
    /// make a key under which no signature is valid.
    pub fn from_bytes(bytes: [u8; 32]) -> (key: Self)
        ensures
            key@ == bytes@,
    {
        PublicKey { bytes }
    }

    /// The bytes of the key.
    pub fn to_bytes(&self) -> (bytes: [u8; 32])
        ensures
            bytes@ == self@,
    {
        self.bytes
    }
}

/// A signature over a message.
#[derive(Clone, Copy, Debug)]
pub struct Signature {
    bytes: [u8; 64],
}

impl View for Signature {
    type V = Seq<u8>;

    closed spec fn view(&self) -> Seq<u8> {
        self.bytes@
    }
}

impl Signature {
    /// The signature that `bytes` stand for.
    pub fn from_bytes(bytes: [u8; 64]) -> (signature: Self)
        ensures
            signature@ == bytes@,
    {
        Signature { bytes }
    }

    /// The bytes of the signature.
    pub fn to_bytes(&self) -> (bytes: [u8; 64])
        ensures
            bytes@ == self@,
    {
        self.bytes
    }
}

/// The nonce for a payload sealed at `timestamp_ms` as number `counter`:
/// the timestamp in 8 little-endian bytes, then the counter modulo 2^32 in 4.
pub open spec fn nonce_bytes(timestamp_ms: u64, counter: u64) -> Seq<u8> {
    spec_u64_to_le_bytes(timestamp_ms) + spec_u32_to_le_bytes((counter % 0x1_0000_0000) as u32)
}

/// The blob that carries `payload`: the nonce, then ciphertext and tag.
/// `None` where the payload is longer than the cipher seals.
pub open spec fn sealed_blob(key: Seq<u8>, nonce: Seq<u8>, payload: Seq<u8>) -> Option<Seq<u8>> {
    if payload.len() <= AEAD_MAX_PLAINTEXT {
        Some(nonce + aead_seal(key, nonce, payload))
    } else {
        None
    }
}

/// Length of the longest blob that can be opened, in bytes.
pub open spec fn max_blob_len() -> int {
    NONCE_LEN + AEAD_MAX_SEALED
}

/// The payload that `blob` carries under `key`. `None` where the blob is
/// shorter than a nonce, longer than the cipher opens, or its tag does not
/// match.
pub open spec fn opened_blob(key: Seq<u8>, blob: Seq<u8>) -> Option<Seq<u8>> {
    if blob.len() < NONCE_LEN || blob.len() > max_blob_len() {
        None
    } else {
        aead_open(
            key,
            blob.subrange(0, NONCE_LEN as int),
            blob.subrange(NONCE_LEN as int, blob.len() as int),
        )
    }
}

/// Reason given when the nonce counter cannot advance.
pub open spec fn counter_exhausted_reason() -> Seq<char> {
    "Nonce counter exhausted"@
}

/// Reason given when a payload is longer than the cipher seals.
pub open spec fn payload_too_long_reason() -> Seq<char> {
    "Payload too long"@
}

/// Reason given when a blob is shorter than a nonce.
pub open spec fn input_too_short_reason() -> Seq<char> {
    "Input too short"@
}

/// Reason given when a blob is longer than the cipher opens.
pub open spec fn input_too_long_reason() -> Seq<char> {
    "Input too long"@
}

/// Reason given when the tag of a blob does not match.
pub open spec fn authentication_failed_reason() -> Seq<char> {
    "aead::Error"@
}

/// What opening `blob` under `key` hands back: the payload it carries, or
/// the reason why it carries none.
pub open spec fn decryption(key: Seq<u8>, blob: Seq<u8>) -> Result<Seq<u8>, Failure> {
    match opened_blob(key, blob) {
        Some(payload) => Ok(payload),
        None => Err(
            Failure::Decryption(
                if blob.len() < NONCE_LEN {
                    input_too_short_reason()
                } else if blob.len() > max_blob_len() {
                    input_too_long_reason()
                } else {
                    authentication_failed_reason()
                },
            ),
        ),
    }
}

/// What an operation on bytes hands back, with the bytes by their sequence
/// and the error by what it says.
pub open spec fn bytes_outcome(result: CryptoResult<Vec<u8>>) -> Result<Seq<u8>, Failure> {
    match result {
        Ok(bytes) => Ok(bytes@),
        Err(error) => Err(error@),
    }
}

/// Reason given when a node's public key is not on record.
pub open spec fn unknown_node_reason(node_id: Seq<char>) -> Seq<char> {
    "Unknown node: "@ + node_id
}

/// Reason given when a peer's key-exchange key is not 32 bytes long.
pub open spec fn invalid_key_length_reason() -> Seq<char> {
    "Invalid public key length"@
}

/// What an operation hands back, with the error by what it says.
pub open spec fn outcome<T>(result: CryptoResult<T>) -> Result<T, Failure> {
    match result {
        Ok(value) => Ok(value),
        Err(error) => Err(error@),
    }
}

/// The answer to whether `signature` is `node_id`'s signature of `message`:
/// a failure where no key is on record for the node, else whether the
/// signature is valid under the key on record.
pub open spec fn verification(
    known: Map<Seq<char>, PublicKey>,
    node_id: Seq<char>,
    message: Seq<u8>,
    signature: Seq<u8>,
) -> Result<bool, Failure> {
    if known.contains_key(node_id) {
        Ok(ed25519_accepts(known[node_id]@, message, signature))
    } else {
        Err(Failure::Verification(unknown_node_reason(node_id)))
    }
}

/// The context that marks a derived key as a session key of this protocol.
pub open spec fn session_context() -> Seq<u8> {
    encode_utf8("SABER-PROTOCOL-KEY"@)
}

/// The session key that the holder of `secret` derives with a peer whose
/// key-exchange public key is `peer`.
pub open spec fn session_key(secret: Seq<u8>, peer: Seq<u8>) -> Seq<u8> {
    hkdf_sha256(x25519_shared(secret, peer), session_context())
}

/// A nonce is 12 bytes long, and two nonces are equal only where their
/// timestamps are equal and their counters agree modulo 2^32.
pub proof fn lemma_nonce_is_injective(
    timestamp_a: u64,
    counter_a: u64,
    timestamp_b: u64,
    counter_b: u64,
)
    ensures
        nonce_bytes(timestamp_a, counter_a).len() == NONCE_LEN,
        nonce_bytes(timestamp_a, counter_a) == nonce_bytes(timestamp_b, counter_b) <==> (
        timestamp_a == timestamp_b && counter_a % 0x1_0000_0000 == counter_b % 0x1_0000_0000),
{
    lemma_auto_spec_u64_to_from_le_bytes();
    lemma_auto_spec_u32_to_from_le_bytes();
    let low_a = (counter_a % 0x1_0000_0000) as u32;
    let low_b = (counter_b % 0x1_0000_0000) as u32;
    let a = nonce_bytes(timestamp_a, counter_a);
    let b = nonce_bytes(timestamp_b, counter_b);
    assert(a.subrange(0, 8) =~= spec_u64_to_le_bytes(timestamp_a));
    assert(b.subrange(0, 8) =~= spec_u64_to_le_bytes(timestamp_b));
    assert(a.subrange(8, 12) =~= spec_u32_to_le_bytes(low_a));
    assert(b.subrange(8, 12) =~= spec_u32_to_le_bytes(low_b));
}

/// Successive values of the counter give distinct nonces: as long as fewer
/// than 2^32 payloads lie between two of them, their nonces differ whatever
/// the clock showed.
pub proof fn lemma_successive_nonces_differ(
    timestamp_a: u64,
    timestamp_b: u64,
    counter: u64,
    steps: u64,
)
    requires
        0 < steps < 0x1_0000_0000,
        counter + steps <= u64::MAX,
    ensures
        nonce_bytes(timestamp_a, counter) != nonce_bytes(
            timestamp_b,
            (counter + steps) as u64,
        ),
{
    lemma_nonce_is_injective(timestamp_a, counter, timestamp_b, (counter + steps) as u64);
}

/// Builds the nonce for a payload sealed at `timestamp_ms` as number
/// `counter`.
pub fn nonce_for(timestamp_ms: u64, counter: u64) -> (nonce: [u8; 12])
    ensures
        nonce@ == nonce_bytes(timestamp_ms, counter),
{
    let mut bytes = u64_to_le_bytes(timestamp_ms);
    let low = u32_to_le_bytes((counter % 0x1_0000_0000) as u32);
    append(&mut bytes, low.as_slice());
    to_array::<12>(bytes.as_slice())
}

/// Length of a timestamp in a token, in bytes.
pub const STAMP_LEN: usize = 8;

/// Length of the shortest token: two timestamps and a signature.
pub const TOKEN_MIN_LEN: usize = 80;

/// Reason given when a token's plaintext is shorter than a token can be.
pub open spec fn invalid_token_reason() -> Seq<char> {
    "Invalid token format"@
}

/// Reason given when a token is past the time until which it holds.
pub open spec fn token_expired_reason() -> Seq<char> {
    "Token expired"@
}

/// Reason given when the signature of a token is not its issuer's.
pub open spec fn invalid_signature_reason() -> Seq<char> {
    "Invalid signature"@
}

/// Reason given when a token would hold beyond the end of time.
pub open spec fn lifetime_out_of_range_reason() -> Seq<char> {
    "Token lifetime out of range"@
}

/// The time until which a token issued at `issued_at` for `ttl_seconds`
/// holds, in milliseconds; `None` where 64 bits do not hold it.
pub open spec fn token_expiry(issued_at: u64, ttl_seconds: u64) -> Option<u64> {
    if issued_at + ttl_seconds * 1000 <= u64::MAX {
        Some((issued_at + ttl_seconds * 1000) as u64)
    } else {
        None
    }
}

/// The signed part of a token: the node id, then the time of issue and the
/// time of expiry, each in 8 little-endian bytes.
pub open spec fn token_body(node_id: Seq<char>, issued_at: u64, expires_at: u64) -> Seq<u8> {
    encode_utf8(node_id) + spec_u64_to_le_bytes(issued_at) + spec_u64_to_le_bytes(expires_at)
}

/// The signed part of a token's plaintext: all but the trailing signature.
pub open spec fn token_signed_part(plain: Seq<u8>) -> Seq<u8> {
    plain.subrange(0, plain.len() - SIGNATURE_LEN)
}

/// The signature that ends a token's plaintext.
pub open spec fn token_signature(plain: Seq<u8>) -> Seq<u8> {
    plain.subrange(plain.len() - SIGNATURE_LEN, plain.len() as int)
}

/// The bytes of the node id in a token's plaintext: whatever precedes the
/// two timestamps and the signature.
pub open spec fn token_node_id(plain: Seq<u8>) -> Seq<u8> {
    plain.subrange(0, plain.len() - TOKEN_MIN_LEN)
}

/// The time of issue in a token's plaintext.
pub open spec fn token_issued_at(plain: Seq<u8>) -> u64 {
    spec_u64_from_le_bytes(
        plain.subrange(plain.len() - TOKEN_MIN_LEN, plain.len() - SIGNATURE_LEN - STAMP_LEN),
    )
}

/// The time of expiry in a token's plaintext.
pub open spec fn token_expires_at(plain: Seq<u8>) -> u64 {
    spec_u64_from_le_bytes(
        plain.subrange(plain.len() - SIGNATURE_LEN - STAMP_LEN, plain.len() - SIGNATURE_LEN),
    )
}

/// The fields of a token, as read from its plaintext.
pub struct TokenFields {
    /// The node that the token names.
    pub node_id: String,
    /// When the token was issued, in milliseconds since the Unix epoch.
    pub issued_at: u64,
    /// Until when the token holds, in milliseconds since the Unix epoch.
    pub expires_at: u64,
    /// The issuer's signature over the id and the two times.
    pub signature: Signature,
}

/// Reads the fields of a token from its plaintext. The node id has no
/// length of its own: it is what precedes the last 80 bytes. A plaintext
/// shorter than that is no token.
pub fn read_token(plain: &[u8]) -> (fields: Option<TokenFields>)
    ensures
        fields is Some <==> plain@.len() >= TOKEN_MIN_LEN,
        fields matches Some(token) ==> {
            &&& token.node_id@ == decoded_text(token_node_id(plain@))
            &&& token.issued_at == token_issued_at(plain@)
            &&& token.expires_at == token_expires_at(plain@)
            &&& token.signature@ == token_signature(plain@)
        },
{
    let len = plain.len();
    if len < TOKEN_MIN_LEN {
        return None;
    }
    let id_end = len - TOKEN_MIN_LEN;
    let issued_end = id_end + STAMP_LEN;
    let expires_end = issued_end + STAMP_LEN;
    let node_id = utf8_lossy(slice_subrange(plain, 0, id_end));
    let issued_at = u64_from_le_bytes(slice_subrange(plain, id_end, issued_end));
    let expires_at = u64_from_le_bytes(slice_subrange(plain, issued_end, expires_end));
    let signature = Signature { bytes: to_array::<64>(slice_subrange(plain, expires_end, len)) };
    Some(TokenFields { node_id, issued_at, expires_at, signature })
}

/// What a token's plaintext is worth at `now_ms` to a node that trusts
/// `known`: the node id and the time of expiry, unless the plaintext is too
/// short, the token has expired, its node is not on record, or its
/// signature is not that node's, in this order.
pub open spec fn token_check(
    known: Map<Seq<char>, PublicKey>,
    plain: Seq<u8>,
    now_ms: u64,
) -> Result<(Seq<char>, u64), Failure> {
    let node_id = decoded_text(token_node_id(plain));
    let expires_at = token_expires_at(plain);
    if plain.len() < TOKEN_MIN_LEN {
        Err(Failure::Verification(invalid_token_reason()))
    } else if now_ms > expires_at {
        Err(Failure::Verification(token_expired_reason()))
    } else if !known.contains_key(node_id) {
        Err(Failure::Verification(unknown_node_reason(node_id)))
    } else if !ed25519_accepts(
        known[node_id]@,
        token_signed_part(plain),
        token_signature(plain),
    ) {
        Err(Failure::Verification(invalid_signature_reason()))
    } else {
        Ok((node_id, expires_at))
    }
}

/// What a sealed token is worth at `now_ms` to a node that holds `key` and
/// trusts `known`.
pub open spec fn token_verdict(
    key: Seq<u8>,
    known: Map<Seq<char>, PublicKey>,
    blob: Seq<u8>,
    now_ms: u64,
) -> Result<(Seq<char>, u64), Failure> {
    match decryption(key, blob) {
        Ok(plain) => token_check(known, plain, now_ms),
        Err(failure) => Err(failure),
    }
}

/// What verifying a token hands back, with the node id by its characters
/// and the error by what it says.
pub open spec fn token_outcome(result: CryptoResult<(String, u64)>) -> Result<
    (Seq<char>, u64),
    Failure,
> {
    match result {
        Ok((node_id, expires_at)) => Ok((node_id@, expires_at)),
        Err(error) => Err(error@),
    }
}

/// Whether `blob` carries, under `key`, a token for `node_id` that holds
/// from `issued_at` until `expires_at` and bears a signature valid under
/// `signer`.
pub open spec fn carries_token(
    key: Seq<u8>,
    signer: Seq<u8>,
    node_id: Seq<char>,
    issued_at: u64,
    expires_at: u64,
    blob: Seq<u8>,
) -> bool {
    exists|signature: Seq<u8>|
        {
            &&& signature.len() == SIGNATURE_LEN
            &&& #[trigger] ed25519_accepts(
                signer,
                token_body(node_id, issued_at, expires_at),
                signature,
            )
            &&& opened_blob(key, blob) == Some(
                token_body(node_id, issued_at, expires_at) + signature,
            )
        }
}

/// Reading a token's plaintext gives back what went into it.
pub proof fn lemma_token_layout(
    node_id: Seq<char>,
    issued_at: u64,
    expires_at: u64,
    signature: Seq<u8>,
)
    requires
        signature.len() == SIGNATURE_LEN,
    ensures
        ({
            let plain = token_body(node_id, issued_at, expires_at) + signature;
            &&& plain.len() >= TOKEN_MIN_LEN
            &&& decoded_text(token_node_id(plain)) == node_id
            &&& token_issued_at(plain) == issued_at
            &&& token_expires_at(plain) == expires_at
            &&& token_signed_part(plain) == token_body(node_id, issued_at, expires_at)
            &&& token_signature(plain) == signature
        }),
{
    lemma_auto_spec_u64_to_from_le_bytes();
    lemma_decoded_text_of_encoding(node_id);
    let id = encode_utf8(node_id);
    let body = token_body(node_id, issued_at, expires_at);
    let plain = body + signature;
    assert(body.len() == id.len() + 2 * STAMP_LEN);
    assert(token_node_id(plain) =~= id);
    assert(plain.subrange(plain.len() - TOKEN_MIN_LEN, plain.len() - SIGNATURE_LEN - STAMP_LEN)
        =~= spec_u64_to_le_bytes(issued_at));
    assert(plain.subrange(plain.len() - SIGNATURE_LEN - STAMP_LEN, plain.len() - SIGNATURE_LEN)
        =~= spec_u64_to_le_bytes(expires_at));
    assert(token_signed_part(plain) =~= body);
    assert(token_signature(plain) =~= signature);
}

/// The life of a token. A node that shares the network key and has the
/// issuer's public key on record under the token's node id accepts the
/// token, with that id and its time of expiry, at any time up to the expiry;
/// at any later time it refuses the token as expired.
pub proof fn lemma_token_lifecycle(
    key: Seq<u8>,
    signer: Seq<u8>,
    known: Map<Seq<char>, PublicKey>,
    node_id: Seq<char>,
    issued_at: u64,
    expires_at: u64,
    blob: Seq<u8>,
    now_ms: u64,
)
    requires
        carries_token(key, signer, node_id, issued_at, expires_at, blob),
        known.contains_key(node_id),
        known[node_id]@ == signer,
    ensures
        now_ms <= expires_at ==> token_verdict(key, known, blob, now_ms) == Ok::<
            (Seq<char>, u64),
            Failure,
        >((node_id, expires_at)),
        now_ms > expires_at ==> token_verdict(key, known, blob, now_ms) == Err::<
            (Seq<char>, u64),
            Failure,
        >(Failure::Verification(token_expired_reason())),
{
    let signature = choose|signature: Seq<u8>|
        {
            &&& signature.len() == SIGNATURE_LEN
            &&& #[trigger] ed25519_accepts(
                signer,
                token_body(node_id, issued_at, expires_at),
                signature,
            )
            &&& opened_blob(key, blob) == Some(
                token_body(node_id, issued_at, expires_at) + signature,
            )
        };
    lemma_token_layout(node_id, issued_at, expires_at, signature);
}

/// The keys of one node and the public keys it trusts.
pub struct MeshCrypto {
    network_key: [u8; 32],
    signing_secret: [u8; 32],
    signing_public: [u8; 32],
    exchange_secret: [u8; 32],
    exchange_public: [u8; 32],
    known_public_keys: StringHashMap<PublicKey>,
    nonce_counter: u64,
}

impl MeshCrypto {
    #[verifier::type_invariant]
    spec fn inv(self) -> bool {
        self.wf()
    }

    /// The key shared by all nodes of the network.
    pub closed spec fn network_key(&self) -> Seq<u8> {
        self.network_key@
    }

    /// The secret half of this node's signing key.
    pub closed spec fn signing_secret(&self) -> Seq<u8> {
        self.signing_secret@
    }

    /// The public half of this node's signing key.
    pub closed spec fn signing_public(&self) -> Seq<u8> {
        self.signing_public@
    }

    /// The secret half of this node's key-exchange key.
    pub closed spec fn exchange_secret(&self) -> Seq<u8> {
        self.exchange_secret@
    }

    /// The public half of this node's key-exchange key.
    pub closed spec fn exchange_public(&self) -> Seq<u8> {
        self.exchange_public@
    }

    /// The signing public keys this node trusts, by node id.
    pub closed spec fn known_keys(&self) -> Map<Seq<char>, PublicKey> {
        self.known_public_keys@
    }

    /// How many nonces have been handed out.
    pub closed spec fn nonce_counter(&self) -> u64 {
        self.nonce_counter
    }

    /// The public keys belong to the secret keys, and every key has its
    /// length.
    pub open spec fn wf(&self) -> bool {
        &&& self.signing_public() == ed25519_public(self.signing_secret())
        &&& self.exchange_public() == x25519_public(self.exchange_secret())
        &&& self.network_key().len() == KEY_LEN
        &&& self.signing_secret().len() == KEY_LEN
        &&& self.exchange_secret().len() == KEY_LEN
    }

    /// Whether `other` holds the same keys and trusts the same nodes.
    pub open spec fn same_keys(&self, other: &MeshCrypto) -> bool {
        &&& self.network_key() == other.network_key()
        &&& self.signing_secret() == other.signing_secret()
        &&& self.signing_public() == other.signing_public()
        &&& self.exchange_secret() == other.exchange_secret()
        &&& self.exchange_public() == other.exchange_public()
        &&& self.known_keys() == other.known_keys()
    }

    /// Whether `signature` is this node's signature of `message`: the one
    /// its secret key makes, which is valid under its public key.
    pub open spec fn signs(&self, message: Seq<u8>, signature: Seq<u8>) -> bool {
        &&& signature == ed25519_signature(self.signing_secret(), message)
        &&& ed25519_accepts(self.signing_public(), message, signature)
    }

    /// Whether `key` is the session key of this node with the peer whose
    /// key-exchange public key is `peer`: the one this node derives, which
    /// is also the one that the holder of the secret key behind `peer`
    /// derives from this node's public key.
    pub open spec fn agrees(&self, peer: Seq<u8>, key: Seq<u8>) -> bool {
        &&& key == session_key(self.exchange_secret(), peer)
        &&& forall|other: Seq<u8>|
            other.len() == KEY_LEN && peer == #[trigger] x25519_public(other) ==> key
                == session_key(other, self.exchange_public())
    }

    /// Fresh keys all round: a random network key, a new signing key and a
    /// new key-exchange key. No node is trusted yet.
    pub fn new() -> (crypto: Self)
        ensures
            crypto.wf(),
            crypto.nonce_counter() == 0,
            crypto.known_keys() == Map::<Seq<char>, PublicKey>::empty(),
    {
        Self::with_network_key(random_key())
    }

    /// Fresh keys for this node, joined to the network that shares
    /// `network_key`.
    pub fn with_network_key(network_key: [u8; 32]) -> (crypto: Self)
        ensures
            crypto.network_key() == network_key@,
            crypto.wf(),
            crypto.nonce_counter() == 0,
            crypto.known_keys() == Map::<Seq<char>, PublicKey>::empty(),
    {
        let signing_secret = ed25519_new_secret();
        let signing_public = ed25519_public_key(&signing_secret).unwrap();
        let exchange_secret = x25519_new_secret();
        let exchange_public = x25519_public_key(&exchange_secret);
        MeshCrypto {
            network_key,
            signing_secret,
            signing_public,
            exchange_secret,
            exchange_public,
            known_public_keys: StringHashMap::new(),
            nonce_counter: 0,
        }
    }

    /// The network key, to hand to a node that is to join the network.
    pub fn get_network_key(&self) -> (key: [u8; 32])
        ensures
            key@ == self.network_key(),
    {
        self.network_key
    }

    /// What sealing `payload` at `timestamp_ms` does to the state and hands
    /// back. The counter advances first and the nonce is built from its new
    /// value; a counter that cannot advance fails the call and stays.
    pub open spec fn sealing(
        before: &MeshCrypto,
        after: &MeshCrypto,
        payload: Seq<u8>,
        timestamp_ms: u64,
        sealed: CryptoResult<Vec<u8>>,
    ) -> bool {
        let nonce = nonce_bytes(timestamp_ms, after.nonce_counter());
        &&& after.same_keys(before)
        &&& if before.nonce_counter() == u64::MAX {
            &&& after.nonce_counter() == u64::MAX
            &&& sealed matches Err(error)
            &&& error@ == Failure::Encryption(counter_exhausted_reason())
        } else {
            &&& after.nonce_counter() == before.nonce_counter() + 1
            &&& match sealed {
                Ok(blob) => Some(blob@) == sealed_blob(before.network_key(), nonce, payload),
                Err(error) => {
                    &&& sealed_blob(before.network_key(), nonce, payload) is None
                    &&& error@ == Failure::Encryption(payload_too_long_reason())
                },
            }
        }
    }

    /// Seals `payload` under the network key at local time `timestamp_ms`.
    /// The call succeeds unless the counter is exhausted or the payload is
    /// longer than the cipher seals, and what it hands back opens to the
    /// payload under the same key.
    ///
    /// The same key and nonce must never seal two payloads: the caller sees
    /// to it that no other node with this network key uses the same
    /// timestamp and counter.
    pub fn encrypt_at(&mut self, payload: &[u8], timestamp_ms: u64) -> (sealed: CryptoResult<
        Vec<u8>,
    >)
        ensures
            Self::sealing(old(self), final(self), payload@, timestamp_ms, sealed),
            sealed is Ok <==> old(self).nonce_counter() < u64::MAX && payload@.len()
                <= AEAD_MAX_PLAINTEXT,
            sealed matches Ok(blob) ==> blob@.len() == payload@.len() + NONCE_LEN + AEAD_TAG_LEN,
            sealed matches Ok(blob) ==> opened_blob(old(self).network_key(), blob@) == Some(
                payload@,
            ),
    {
        proof {
            use_type_invariant(&*self);
        }
        if self.nonce_counter == u64::MAX {
            return Err(CryptoError::EncryptionError("Nonce counter exhausted".to_string()));
        }
        self.nonce_counter = self.nonce_counter + 1;
        if payload.len() as u64 > AEAD_MAX_PLAINTEXT {
            return Err(CryptoError::EncryptionError("Payload too long".to_string()));
        }
        let nonce = nonce_for(timestamp_ms, self.nonce_counter);
        match aes256_gcm_seal(&self.network_key, &nonce, payload) {
            Some(body) => {
                let mut blob: Vec<u8> = Vec::new();
                append(&mut blob, nonce.as_slice());
                append(&mut blob, body.as_slice());
                proof {
                    assert(blob@.subrange(0, NONCE_LEN as int) =~= nonce@);
                    assert(blob@.subrange(NONCE_LEN as int, blob@.len() as int) =~= body@);
                }
                Ok(blob)
            },
            None => Err(CryptoError::EncryptionError("aead::Error".to_string())),
        }
    }

    /// Seals `payload` under the network key, at whatever the wall clock
    /// shows. See [`MeshCrypto::encrypt_at`].
    pub fn encrypt(&mut self, payload: &[u8]) -> (sealed: CryptoResult<Vec<u8>>)
        ensures
            exists|timestamp_ms: u64|
                Self::sealing(old(self), final(self), payload@, timestamp_ms, sealed),
            sealed is Ok <==> old(self).nonce_counter() < u64::MAX && payload@.len()
                <= AEAD_MAX_PLAINTEXT,
            sealed matches Ok(blob) ==> blob@.len() == payload@.len() + NONCE_LEN + AEAD_TAG_LEN,
            sealed matches Ok(blob) ==> opened_blob(old(self).network_key(), blob@) == Some(
                payload@,
            ),
    {
        let timestamp_ms = wall_clock_ms();
        self.encrypt_at(payload, timestamp_ms)
    }

    /// Opens a blob sealed under the network key. A blob shorter than a
    /// nonce, a blob longer than the cipher opens and a blob whose tag does
    /// not match are all refused.
    pub fn decrypt(&self, encrypted_data: &[u8]) -> (opened: CryptoResult<Vec<u8>>)
        ensures
            bytes_outcome(opened) == decryption(self.network_key(), encrypted_data@),
    {
        if encrypted_data.len() < NONCE_LEN {
            return Err(CryptoError::DecryptionError("Input too short".to_string()));
        }
        if (encrypted_data.len() - NONCE_LEN) as u64 > AEAD_MAX_SEALED {
            return Err(CryptoError::DecryptionError("Input too long".to_string()));
        }
        let nonce = to_array::<12>(slice_subrange(encrypted_data, 0, NONCE_LEN));
        let body = slice_subrange(encrypted_data, NONCE_LEN, encrypted_data.len());
        match aes256_gcm_open(&self.network_key, &nonce, body) {
            Some(payload) => Ok(payload),
            None => Err(CryptoError::DecryptionError("aead::Error".to_string())),
        }
    }

    /// Signs `message` with this node's signing key. Signing always
    /// succeeds, and the signature is valid under this node's public key.
    pub fn sign(&self, message: &[u8]) -> (signed: CryptoResult<Signature>)
        ensures
            signed is Ok,
            signed matches Ok(signature) ==> self.signs(message@, signature@),
    {
        proof {
            use_type_invariant(self);
        }
        match ed25519_sign(&self.signing_secret, message) {
            Some(bytes) => Ok(Signature { bytes }),
            None => Err(CryptoError::SignatureError("Signing failed".to_string())),
        }
    }

    /// Tells whether `signature` is `node_id`'s signature of `message`. A
    /// signature that does not match is answered with `false`; only a node
    /// without a key on record is an error.
    pub fn verify(&self, node_id: &str, message: &[u8], signature: &Signature) -> (verified:
        CryptoResult<bool>)
        ensures
            outcome(verified) == verification(
                self.known_keys(),
                node_id@,
                message@,
                signature@,
            ),
    {
        match self.known_public_keys.get(node_id) {
            Some(public_key) => Ok(ed25519_verify(&public_key.bytes, message, &signature.bytes)),
            None => Err(CryptoError::VerificationError(join("Unknown node: ", node_id))),
        }
    }

    /// Puts `public_key` on record as the signing key of `node_id`,
    /// replacing any key on record for it.
    pub fn register_node_key(&mut self, node_id: String, public_key: PublicKey)
        ensures
            final(self).known_keys() == old(self).known_keys().insert(node_id@, public_key),
            final(self).network_key() == old(self).network_key(),
            final(self).signing_secret() == old(self).signing_secret(),
            final(self).signing_public() == old(self).signing_public(),
            final(self).exchange_secret() == old(self).exchange_secret(),
            final(self).exchange_public() == old(self).exchange_public(),
            final(self).nonce_counter() == old(self).nonce_counter(),
    {
        proof {
            use_type_invariant(&*self);
        }
        let mut known = StringHashMap::new();
        core::mem::swap(&mut self.known_public_keys, &mut known);
        known.insert(node_id, public_key);
        self.known_public_keys = known;
    }

    /// The SHA-256 digest of `data`.
    pub fn hash(&self, data: &[u8]) -> (hashed: CryptoResult<[u8; 32]>)
        ensures
            hashed matches Ok(digest) && digest@ == sha256_digest(data@),
    {
        Ok(sha256(data))
    }

    /// Derives the session key shared with the peer whose key-exchange
    /// public key is `peer_public`. The key must be 32 bytes long. A peer
    /// that holds the secret key behind `peer_public` derives the same
    /// session key from this node's public key.
    pub fn key_exchange(&self, peer_public: &[u8]) -> (derived: CryptoResult<[u8; 32]>)
        ensures
            match derived {
                Ok(key) => peer_public@.len() == KEY_LEN && self.agrees(peer_public@, key@),
                Err(error) => {
                    &&& peer_public@.len() != KEY_LEN
                    &&& error@ == Failure::KeyExchange(invalid_key_length_reason())
                },
            },
    {
        proof {
            use_type_invariant(self);
        }
        if peer_public.len() != KEY_LEN {
            return Err(CryptoError::KeyExchangeError("Invalid public key length".to_string()));
        }
        let peer = to_array::<32>(peer_public);
        let shared = x25519_agree(&self.exchange_secret, &peer);
        match hkdf_sha256_key(shared.as_slice(), "SABER-PROTOCOL-KEY".as_bytes()) {
            Some(key) => Ok(key),
            None => Err(
                CryptoError::KeyExchangeError(
                    "invalid number of blocks, too large output".to_string(),
                ),
            ),
        }
    }

    /// What issuing a token for `node_id` at `now_ms` does to the state and
    /// hands back: a failure where the time of expiry is out of range, else
    /// the sealing of the token's signed part followed by its signature.
    pub open spec fn issuing(
        before: &MeshCrypto,
        after: &MeshCrypto,
        node_id: Seq<char>,
        ttl_seconds: u64,
        now_ms: u64,
        issued: CryptoResult<Vec<u8>>,
    ) -> bool {
        match token_expiry(now_ms, ttl_seconds) {
            Some(expires_at) => {
                let body = token_body(node_id, now_ms, expires_at);
                Self::sealing(
                    before,
                    after,
                    body + ed25519_signature(before.signing_secret(), body),
                    now_ms,
                    issued,
                )
            },
            None => {
                &&& after.same_keys(before)
                &&& after.nonce_counter() == before.nonce_counter()
                &&& issued matches Err(error)
                &&& error@ == Failure::Signature(lifetime_out_of_range_reason())
            },
        }
    }

    /// Issues a token that names `node_id` and holds for `ttl_seconds` from
    /// `now_ms`: the id, the two times and this node's signature over them,
    /// sealed under the network key. The call succeeds unless the time of
    /// expiry is out of range, the counter is exhausted or the id is longer
    /// than the cipher seals.
    pub fn generate_security_token_at(
        &mut self,
        node_id: &str,
        ttl_seconds: u64,
        now_ms: u64,
    ) -> (issued: CryptoResult<Vec<u8>>)
        ensures
            Self::issuing(old(self), final(self), node_id@, ttl_seconds, now_ms, issued),
            issued is Ok <==> {
                &&& token_expiry(now_ms, ttl_seconds) is Some
                &&& old(self).nonce_counter() < u64::MAX
                &&& encode_utf8(node_id@).len() + TOKEN_MIN_LEN <= AEAD_MAX_PLAINTEXT
            },
            issued matches Ok(blob) ==> blob@.len() == encode_utf8(node_id@).len() + TOKEN_MIN_LEN
                + NONCE_LEN + AEAD_TAG_LEN,
            issued matches Ok(blob) ==> token_expiry(now_ms, ttl_seconds) matches Some(expires_at)
                && carries_token(
                old(self).network_key(),
                old(self).signing_public(),
                node_id@,
                now_ms,
                expires_at,
                blob@,
            ),
    {
        if ttl_seconds > (u64::MAX - now_ms) / 1000 {
            return Err(CryptoError::SignatureError("Token lifetime out of range".to_string()));
        }
        let expires_at = now_ms + ttl_seconds * 1000;
        let mut plain: Vec<u8> = Vec::new();
        append(&mut plain, node_id.as_bytes());
        append(&mut plain, u64_to_le_bytes(now_ms).as_slice());
        append(&mut plain, u64_to_le_bytes(expires_at).as_slice());
        let signature = match self.sign(plain.as_slice()) {
            Ok(signature) => signature,
            Err(error) => {
                return Err(error);
            },
        };
        append(&mut plain, signature.bytes.as_slice());
        self.encrypt_at(plain.as_slice(), now_ms)
    }

    /// Issues a token that names `node_id` and holds for `ttl_seconds` from
    /// now, by the wall clock. See [`MeshCrypto::generate_security_token_at`].
    pub fn generate_security_token(
        &mut self,
        node_id: &str,
        ttl_seconds: u64,
    ) -> (issued: CryptoResult<Vec<u8>>)
        ensures
            exists|now_ms: u64|
                Self::issuing(old(self), final(self), node_id@, ttl_seconds, now_ms, issued),
            final(self).same_keys(old(self)),
            issued matches Ok(blob) ==> blob@.len() == encode_utf8(node_id@).len() + TOKEN_MIN_LEN
                + NONCE_LEN + AEAD_TAG_LEN,
            issued matches Ok(blob) ==> exists|now_ms: u64, expires_at: u64|
                token_expiry(now_ms, ttl_seconds) == Some(expires_at) && #[trigger] carries_token(
                    old(self).network_key(),
                    old(self).signing_public(),
                    node_id@,
                    now_ms,
                    expires_at,
                    blob@,
                ),
    {
        let now_ms = wall_clock_ms();
        self.generate_security_token_at(node_id, ttl_seconds, now_ms)
    }

    /// Judges the plaintext of a token at `now_ms`: too short, expired,
    /// from a node without a key on record, or badly signed, in this order;
    /// else the node id and the time of expiry.
    pub fn check_token(&self, plain: &[u8], now_ms: u64) -> (checked: CryptoResult<(String, u64)>)
        ensures
            token_outcome(checked) == token_check(self.known_keys(), plain@, now_ms),
    {
        let fields = match read_token(plain) {
            Some(fields) => fields,
            None => {
                return Err(CryptoError::VerificationError("Invalid token format".to_string()));
            },
        };
        if now_ms > fields.expires_at {
            return Err(CryptoError::VerificationError("Token expired".to_string()));
        }
        let public_key = match self.known_public_keys.get(fields.node_id.as_str()) {
            Some(public_key) => public_key,
            None => {
                return Err(
                    CryptoError::VerificationError(
                        join("Unknown node: ", fields.node_id.as_str()),
                    ),
                );
            },
        };
        let signed_part = slice_subrange(plain, 0, plain.len() - SIGNATURE_LEN);
        if ed25519_verify(&public_key.bytes, signed_part, &fields.signature.bytes) {
            Ok((fields.node_id, fields.expires_at))
        } else {
            Err(CryptoError::VerificationError("Invalid signature".to_string()))
        }
    }

    /// Opens a sealed token and judges it at `now_ms`.
    pub fn verify_security_token_at(&self, token: &[u8], now_ms: u64) -> (verified: CryptoResult<
        (String, u64),
    >)
        ensures
            token_outcome(verified) == token_verdict(
                self.network_key(),
                self.known_keys(),
                token@,
                now_ms,
            ),
    {
        match self.decrypt(token) {
            Ok(plain) => self.check_token(plain.as_slice(), now_ms),
            Err(error) => Err(error),
        }
    }

    /// Opens a sealed token and judges it now, by the wall clock.
    pub fn verify_security_token(&self, token: &[u8]) -> (verified: CryptoResult<(String, u64)>)
        ensures
            exists|now_ms: u64|
                token_outcome(verified) == token_verdict(
                    self.network_key(),
                    self.known_keys(),
                    token@,
                    now_ms,
                ),
    {
        let now_ms = wall_clock_ms();
        self.verify_security_token_at(token, now_ms)
    }

    /// The public half of this node's signing key, which belongs to its
    /// secret half.
    pub fn get_public_key(&self) -> (key: PublicKey)
        ensures
            key@ == self.signing_public(),
            self.wf(),
    {
        proof {
            use_type_invariant(self);
        }
        PublicKey { bytes: self.signing_public }
    }

    /// The public half of this node's key-exchange key, which belongs to its
    /// secret half.
    pub fn get_exchange_public_key(&self) -> (key: [u8; 32])
        ensures
            key@ == self.exchange_public(),
            self.wf(),
    {
        proof {
            use_type_invariant(self);
        }
        self.exchange_public
    }
}

/// What was sealed opens again. A blob that `encrypt` hands back for a
/// payload carries that payload under the network key, so every node that
/// holds the key decrypts the blob to the payload.
pub proof fn lemma_decrypt_inverts_encrypt(key: Seq<u8>, payload: Seq<u8>, blob: Seq<u8>)
    requires
        opened_blob(key, blob) == Some(payload),
    ensures
        decryption(key, blob) == Ok::<Seq<u8>, Failure>(payload),
{
}

/// No two blobs of one node share a nonce, as long as fewer than 2^32
/// payloads were sealed between them: their first 12 bytes differ, whatever
/// the clock showed at either time.
pub proof fn lemma_sealed_nonces_differ(
    before_a: MeshCrypto,
    after_a: MeshCrypto,
    payload_a: Seq<u8>,
    timestamp_a: u64,
    blob_a: Vec<u8>,
    before_b: MeshCrypto,
    after_b: MeshCrypto,
    payload_b: Seq<u8>,
    timestamp_b: u64,
    blob_b: Vec<u8>,
)
    requires
        MeshCrypto::sealing(&before_a, &after_a, payload_a, timestamp_a, Ok(blob_a)),
        MeshCrypto::sealing(&before_b, &after_b, payload_b, timestamp_b, Ok(blob_b)),
        after_a.nonce_counter() < after_b.nonce_counter() < after_a.nonce_counter()
            + 0x1_0000_0000,
    ensures
        blob_a@.len() >= NONCE_LEN,
        blob_b@.len() >= NONCE_LEN,
        blob_a@.subrange(0, NONCE_LEN as int) != blob_b@.subrange(0, NONCE_LEN as int),
{
    let nonce_a = nonce_bytes(timestamp_a, after_a.nonce_counter());
    let nonce_b = nonce_bytes(timestamp_b, after_b.nonce_counter());
    lemma_nonce_is_injective(
        timestamp_a,
        after_a.nonce_counter(),
        timestamp_b,
        after_b.nonce_counter(),
    );
    lemma_nonce_is_injective(
        timestamp_b,
        after_b.nonce_counter(),
        timestamp_a,
        after_a.nonce_counter(),
    );
    assert(blob_a@.subrange(0, NONCE_LEN as int) =~= nonce_a);
    assert(blob_b@.subrange(0, NONCE_LEN as int) =~= nonce_b);
}

/// A node's own signature is accepted. Where `signature` is what `signer`
/// hands back for `message`, and `verifier` has the signer's public key on
/// record under `node_id`, the verifier answers `true`.
pub proof fn lemma_own_signature_verifies(
    signer: MeshCrypto,
    verifier: MeshCrypto,
    node_id: Seq<char>,
    message: Seq<u8>,
    signature: Seq<u8>,
)
    requires
        signer.signs(message, signature),
        verifier.known_keys().contains_key(node_id),
        verifier.known_keys()[node_id]@ == signer.signing_public(),
    ensures
        verification(verifier.known_keys(), node_id, message, signature) == Ok::<bool, Failure>(
            true,
        ),
{
}

/// Whoever is on record is answered without an error, whatever the message
/// and the signature.
pub proof fn lemma_known_node_is_answered(
    verifier: MeshCrypto,
    node_id: Seq<char>,
    message: Seq<u8>,
    signature: Seq<u8>,
)
    requires
        verifier.known_keys().contains_key(node_id),
    ensures
        verification(verifier.known_keys(), node_id, message, signature) is Ok,
{
}

/// Key exchange is symmetric. Where `key_a` is what node `a` derives from
/// the public key of node `b`, and `key_b` is what `b` derives from the
/// public key of `a`, the two keys are equal.
pub proof fn lemma_key_exchange_is_symmetric(
    a: MeshCrypto,
    b: MeshCrypto,
    key_a: Seq<u8>,
    key_b: Seq<u8>,
)
    requires
        a.wf(),
        b.wf(),
        a.agrees(b.exchange_public(), key_a),
        b.agrees(a.exchange_public(), key_b),
    ensures
        key_a == key_b,
{
}

} // verus!
