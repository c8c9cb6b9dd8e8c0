//! Key material: validated secp256k1 public keys with chain codes,
//! hierarchical public-only derivation, and the Ethereum address codec.
//!
//! All elliptic-curve work is delegated to `ic_secp256k1` and all hashing to
//! `ic_sha3`; their results are given names by uninterpreted spec functions,
//! and the contracts of the wallet operations are stated over those names.

use vstd::prelude::*;
use vstd::slice::slice_subrange;

use crate::WalletError;

verus! {

/// Whether `ic_secp256k1::PublicKey::deserialize_sec1` accepts `bytes`:
/// the bytes encode a point on the secp256k1 curve (compressed or
/// uncompressed SEC1 form, never the identity).
pub uninterp spec fn valid_sec1(bytes: Seq<u8>) -> bool;

/// The SEC1 serialization, compressed or uncompressed, of the point encoded
/// by `key` (which must satisfy `valid_sec1`), as produced by
/// `ic_secp256k1::PublicKey::serialize_sec1`.
pub uninterp spec fn sec1_serialize(key: Seq<u8>, compressed: bool) -> Seq<u8>;

/// The (child key, child chain code) pair produced by
/// `ic_secp256k1::PublicKey::derive_subkey` for the point encoded by `parent`
/// and the given derivation path; the child key is in compressed SEC1 form.
pub uninterp spec fn hd_derive(parent: Seq<u8>, path: Seq<Seq<u8>>) -> (Seq<u8>, Seq<u8>);

/// The 32-byte Keccak-256 digest of `data`, as computed by
/// `ic_sha3::Keccak256::hash`.
pub uninterp spec fn keccak256_of(data: Seq<u8>) -> Seq<u8>;

/// Whether `signature` is a valid, s-normalized ECDSA signature over the
/// prehashed `digest` under the key encoded by `key`, as decided by
/// `ic_secp256k1::PublicKey::verify_ecdsa_signature_prehashed`.
pub uninterp spec fn sig_verifies(key: Seq<u8>, digest: Seq<u8>, sig: Seq<u8>) -> bool;

/// The result of `ic_secp256k1::PublicKey::try_recovery_from_digest` for the
/// key encoded by `key`: `Some((byte, x_reduced))` when a recovery id exists
/// whose recovered key is the given key, `None` otherwise.
pub uninterp spec fn recovery_of(key: Seq<u8>, digest: Seq<u8>, sig: Seq<u8>) -> Option<(u8, bool)>;

/// The compressed SEC1 encoding of the public key recovered from
/// `(digest, sig, recid)` by ECDSA public-key recovery
/// (`k256::ecdsa::VerifyingKey::recover_from_prehash`), or `None` when
/// recovery fails for that discriminant.
pub uninterp spec fn recovered_key_of(digest: Seq<u8>, sig: Seq<u8>, recid: u8) -> Option<Seq<u8>>;

/// The EIP-55 mixed-case hex rendering of a 20-byte Ethereum address,
/// `"0x"` followed by 40 hex characters, as produced by the `Display`
/// implementation of `ic_ethereum_types::Address`.
pub uninterp spec fn eip55_of(addr: Seq<u8>) -> Seq<char>;

/// Relies on `ic_secp256k1::PublicKey::deserialize_sec1` (accepts exactly the
/// SEC1 point encodings) and `serialize_sec1(true)` (re-encodes the point in
/// 33-byte compressed SEC1 form; serializing an already-compressed encoding
/// again returns the same bytes).
#[verifier::external_body]
pub(crate) fn parse_and_compress_sec1(bytes: &Vec<u8>) -> (r: Option<Vec<u8>>)
    ensures
        r is Some <==> valid_sec1(bytes@),
        r matches Some(c) ==> {
            &&& c@ == sec1_serialize(bytes@, true)
            &&& valid_sec1(c@)
            &&& sec1_serialize(c@, true) == c@
            &&& c@.len() == 33
        },
{
    match ic_secp256k1::PublicKey::deserialize_sec1(bytes) {
        Ok(pk) => Some(pk.serialize_sec1(true)),
        Err(_) => None,
    }
}

/// Relies on `ic_secp256k1::PublicKey::serialize_sec1(false)`: the SEC1
/// uncompressed encoding of the point, which is 65 bytes long.
#[verifier::external_body]
pub(crate) fn serialize_sec1_uncompressed(key: &Vec<u8>) -> (r: Vec<u8>)
    requires
        valid_sec1(key@),
    ensures
        r@ == sec1_serialize(key@, false),
        r@.len() == 65,
{
    let pk = ic_secp256k1::PublicKey::deserialize_sec1(key).expect("key bytes are a valid SEC1 point");
    pk.serialize_sec1(false)
}

/// Relies on `ic_secp256k1::PublicKey::derive_subkey`: deterministic
/// public-only hierarchical derivation of a (child key, chain code) pair.
/// The child key is returned in 33-byte compressed SEC1 form and is itself a
/// valid curve point; the chain code is 32 bytes.
#[verifier::external_body]
pub(crate) fn derive_subkey(key: &Vec<u8>, path: &Vec<Vec<u8>>) -> (r: (Vec<u8>, Vec<u8>))
    requires
        valid_sec1(key@),
    ensures
        (r.0@, r.1@) == hd_derive(key@, path.deep_view()),
        valid_sec1(r.0@),
        sec1_serialize(r.0@, true) == r.0@,
        r.0@.len() == 33,
        r.1@.len() == 32,
{
    let pk = ic_secp256k1::PublicKey::deserialize_sec1(key).expect("key bytes are a valid SEC1 point");
    let indices: Vec<ic_secp256k1::DerivationIndex> = path
        .iter()
        .map(|index| ic_secp256k1::DerivationIndex(index.clone()))
        .collect();
    let (derived, chain_code) = pk.derive_subkey(&ic_secp256k1::DerivationPath::new(indices));
    (derived.serialize_sec1(true), chain_code.to_vec())
}

/// Relies on `ic_sha3::Keccak256::hash`: the 32-byte Keccak-256 digest.
#[verifier::external_body]
pub(crate) fn keccak256(data: &[u8]) -> (r: Vec<u8>)
    ensures
        r@ == keccak256_of(data@),
        r@.len() == 32,
{
    ic_sha3::Keccak256::hash(data).to_vec()
}

/// Relies on `ic_secp256k1::PublicKey::verify_ecdsa_signature_prehashed`:
/// verification of an s-normalized ECDSA signature over a prehashed digest.
/// Returns `false` (never panics) on malformed signatures.
#[verifier::external_body]
pub(crate) fn verify_signature_prehashed(key: &Vec<u8>, digest: &Vec<u8>, signature: &Vec<u8>) -> (r: bool)
    requires
        valid_sec1(key@),
    ensures
        r == sig_verifies(key@, digest@, signature@),
{
    let pk = ic_secp256k1::PublicKey::deserialize_sec1(key).expect("key bytes are a valid SEC1 point");
    pk.verify_ecdsa_signature_prehashed(digest, signature)
}

/// Relies on `ic_secp256k1::PublicKey::try_recovery_from_digest`, which
/// trial-recovers a key from each candidate recovery id and returns the id —
/// a byte in `0..=3` whose second bit is the x-reduced flag — for which the
/// recovered key equals this key. For a 32-byte digest it cannot fail when
/// the signature is valid for this key over this digest. (Unlike
/// verification, recovery does not zero-pad short digests, so the two
/// disagree below 16 bytes; this wrapper therefore admits 32-byte digests
/// only.)
#[verifier::external_body]
pub(crate) fn try_recovery_from_digest(key: &Vec<u8>, digest: &Vec<u8>, signature: &Vec<u8>) -> (r: Option<(u8, bool)>)
    requires
        valid_sec1(key@),
        digest@.len() == 32,
    ensures
        r == recovery_of(key@, digest@, signature@),
        sig_verifies(key@, digest@, signature@) ==> r is Some,
        r matches Some(recid) ==> {
            &&& recid.0 <= 3
            &&& (recid.1 <==> recid.0 >= 2)
            &&& recovered_key_of(digest@, signature@, recid.0) == Some(sec1_serialize(key@, true))
        },
{
    let pk = ic_secp256k1::PublicKey::deserialize_sec1(key).expect("key bytes are a valid SEC1 point");
    match pk.try_recovery_from_digest(digest, signature) {
        Ok(recid) => Some((recid.to_byte(), recid.is_x_reduced())),
        Err(_) => None,
    }
}

/// Relies on the `Display` implementation of `ic_ethereum_types::Address`:
/// the EIP-55 mixed-case hex rendering, `"0x"` followed by 40 hex characters.
#[verifier::external_body]
pub(crate) fn format_eip55_address(addr: &Vec<u8>) -> (r: String)
    requires
        addr@.len() == 20,
    ensures
        r@ == eip55_of(addr@),
        r@.len() == 42,
{
    let mut bytes = [0u8; 20];
    bytes.copy_from_slice(addr.as_slice());
    format!("{}", ic_ethereum_types::Address::new(bytes))
}

/// A 20-byte Ethereum address. It has no independent identity: it is always
/// computed from a public key, never stored separately from it.
#[derive(Debug, Clone, PartialEq, Eq)]
pub struct EthereumAddress {
    bytes: Vec<u8>,
}

impl View for EthereumAddress {
    type V = Seq<u8>;

    closed spec fn view(&self) -> Seq<u8> {
        self.bytes@
    }
}

impl EthereumAddress {
    /// Wraps raw address bytes.
    pub fn new(bytes: Vec<u8>) -> (r: EthereumAddress)
        ensures
            r@ == bytes@,
    {
        EthereumAddress { bytes }
    }

    /// The raw address bytes.
    pub fn as_bytes(&self) -> (r: &Vec<u8>)
        ensures
            r@ == self@,
    {
        &self.bytes
    }

    /// The EIP-55 rendering of the address: `"0x"` plus 40 hex characters.
    pub fn to_hex(&self) -> (r: String)
        requires
            self@.len() == 20,
        ensures
            r@ == eip55_of(self@),
            r@.len() == 42,
    {
        format_eip55_address(&self.bytes)
    }
}

/// The Ethereum address of a public key: the low-order 20 bytes of the
/// Keccak-256 digest of the key's uncompressed SEC1 encoding minus its
/// leading tag byte.
pub open spec fn eth_address_of(key: Seq<u8>) -> Seq<u8> {
    keccak256_of(sec1_serialize(key, false).subrange(1, 65)).subrange(12, 32)
}

/// A secp256k1 public key together with its chain code, as returned by the
/// platform's threshold-ECDSA service.
///
/// Invariant (see [`EcdsaPublicKeyView::wf`]): the key bytes are the 33-byte
/// compressed SEC1 encoding of a valid curve point, and the chain code is
/// exactly 32 bytes. Values are immutable once constructed.
#[derive(Debug, Clone)]
pub struct EcdsaPublicKey {
    public_key: Vec<u8>,
    chain_code: Vec<u8>,
}

/// The mathematical content of an [`EcdsaPublicKey`]: its byte sequences.
pub struct EcdsaPublicKeyView {
    pub public_key: Seq<u8>,
    pub chain_code: Seq<u8>,
}

impl EcdsaPublicKeyView {
    /// Well-formedness: a valid curve point held in its canonical compressed
    /// SEC1 encoding, plus a 32-byte chain code.
    pub open spec fn wf(self) -> bool {
        &&& valid_sec1(self.public_key)
        &&& sec1_serialize(self.public_key, true) == self.public_key
        &&& self.public_key.len() == 33
        &&& self.chain_code.len() == 32
    }
}

impl View for EcdsaPublicKey {
    type V = EcdsaPublicKeyView;

    closed spec fn view(&self) -> EcdsaPublicKeyView {
        EcdsaPublicKeyView { public_key: self.public_key@, chain_code: self.chain_code@ }
    }
}

impl EcdsaPublicKey {
    /// Shorthand for well-formedness of the underlying view.
    pub open spec fn wf(self) -> bool {
        self@.wf()
    }

    /// Validates raw key material and normalizes the key to compressed SEC1
    /// form. Returns `None` exactly when the bytes are not a valid curve
    /// point or the chain code is not 32 bytes.
    pub fn new(public_key: Vec<u8>, chain_code: Vec<u8>) -> (r: Option<EcdsaPublicKey>)
        ensures
            r is Some <==> valid_sec1(public_key@) && chain_code@.len() == 32,
            r matches Some(k) ==> {
                &&& k.wf()
                &&& k@.public_key == sec1_serialize(public_key@, true)
                &&& k@.chain_code == chain_code@
            },
    {
        if chain_code.len() != 32 {
            return None;
        }
        match parse_and_compress_sec1(&public_key) {
            Some(compressed) => Some(EcdsaPublicKey { public_key: compressed, chain_code }),
            None => None,
        }
    }

    /// The compressed SEC1 encoding of the key.
    pub fn public_key_bytes(&self) -> (r: &Vec<u8>)
        ensures
            r@ == self@.public_key,
    {
        &self.public_key
    }

    /// The 32-byte chain code accompanying the key.
    pub fn chain_code_bytes(&self) -> (r: &Vec<u8>)
        ensures
            r@ == self@.chain_code,
    {
        &self.chain_code
    }

    /// Derives a new public key from the current one using a derivation path,
    /// in the style of hierarchical deterministic wallets: the same key and
    /// path always produce the same child key and chain code.
    pub fn derive_new_public_key(&self, derivation_path: &Vec<Vec<u8>>) -> (r: EcdsaPublicKey)
        requires
            self.wf(),
        ensures
            r.wf(),
            (r@.public_key, r@.chain_code) == hd_derive(self@.public_key, derivation_path.deep_view()),
    {
        let (public_key, chain_code) = derive_subkey(&self.public_key, derivation_path);
        EcdsaPublicKey { public_key, chain_code }
    }

    /// Encodes the key as an Ethereum address: serialize in uncompressed SEC1
    /// form, drop the leading tag byte, hash the remaining 64 bytes with
    /// Keccak-256 and keep the low-order 20 bytes of the digest.
    ///
    /// Fails only if the uncompressed encoding does not begin with the
    /// expected tag byte `0x04` — a violation of the curve library's
    /// contract, not something any external input can cause.
    pub fn to_ethereum_address(&self) -> (r: Result<EthereumAddress, WalletError>)
        requires
            self.wf(),
        ensures
            r is Ok <==> sec1_serialize(self@.public_key, false)[0] == 4,
            r matches Ok(addr) ==> addr@ == eth_address_of(self@.public_key) && addr@.len() == 20,
            r matches Err(e) ==> e == WalletError::MalformedPublicKey,
    {
        let uncompressed = serialize_sec1_uncompressed(&self.public_key);
        if uncompressed[0] != 4 {
            return Err(WalletError::MalformedPublicKey);
        }
        let coordinates = slice_subrange(uncompressed.as_slice(), 1, 65);
        let digest = keccak256(coordinates);
        let mut address_bytes: Vec<u8> = Vec::new();
        let mut i: usize = 12;
        while i < 32
            invariant
                12 <= i <= 32,
                digest@.len() == 32,
                address_bytes@ == digest@.subrange(12, i as int),
            decreases 32 - i,
        {
            address_bytes.push(digest[i]);
            proof {
                assert(address_bytes@ =~= digest@.subrange(12, i + 1));
            }
            i += 1;
        }
        proof {
            assert(address_bytes@ =~= eth_address_of(self@.public_key));
        }
        Ok(EthereumAddress { bytes: address_bytes })
    }
}

} // verus!
