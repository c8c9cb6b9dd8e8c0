//! Per-caller secp256k1 key derivation, Ethereum address encoding, and
//! ECDSA signing support for a multi-tenant wallet backend.
//!
//! A single master public key is shared by all callers; every caller obtains
//! a deterministic, distinct child public key (and hence a distinct Ethereum
//! address) derived from the master key and the caller's identity. Signatures
//! over 32-byte digests are produced by an external threshold-signing oracle;
//! this crate verifies each returned signature against the expected derived
//! key and resolves its recovery discriminant before handing it out.

pub mod ecdsa;
pub mod ethereum_wallet;
pub mod state;

use vstd::prelude::*;
use vstd::slice::slice_to_vec;

use crate::ecdsa::EcdsaPublicKey;
use crate::ecdsa::eip55_of;
use crate::ecdsa::eth_address_of;
use crate::ecdsa::hd_derive;
use crate::ecdsa::sec1_serialize;
use crate::ecdsa::sig_verifies;
use crate::ecdsa::recovery_of;
use crate::ecdsa::recovered_key_of;
use crate::ecdsa::valid_sec1;
use crate::ethereum_wallet::EthereumWallet;
use crate::ethereum_wallet::Principal;
use crate::ethereum_wallet::derivation_path_spec;

verus! {

/// Failures of a wallet operation.
///
/// Every fatal condition aborts the whole operation: no partial signature or
/// address is ever returned.
#[derive(Clone, Copy, Debug, PartialEq, Eq, Structural)]
pub enum WalletError {
    /// The signing oracle reported an error or returned a response that is
    /// not exactly 64 bytes long. The caller may retry the whole operation.
    OracleFailure,
    /// A signature failed self-verification against the expected derived key,
    /// or no recovery discriminant reproduces that key. Never retried
    /// automatically: it indicates a logic or oracle defect.
    IntegrityViolation,
    /// The resolved recovery discriminant carries the x-reduced flag, which
    /// downstream Ethereum verifiers do not accept. Surfaced as an
    /// unrecoverable failure, never resampled silently.
    ReducedRecoveryId,
    /// Key material violates an upstream invariant: the bytes are not a valid
    /// SEC1 point, the chain code is not 32 bytes, or a serialized key does
    /// not begin with the expected uncompressed tag.
    MalformedPublicKey,
}

/// The child public key derived for a caller from the given master key
/// material (in compressed SEC1 form).
pub open spec fn derived_child_key(master_public_key: Seq<u8>, owner: Seq<u8>) -> Seq<u8> {
    hd_derive(sec1_serialize(master_public_key, true), derivation_path_spec(owner)).0
}

/// The Ethereum address of a caller's wallet, rendered as `"0x"` followed by
/// 40 hex characters, deterministic in the master key material and the
/// caller identity.
///
/// `master_public_key` and `master_chain_code` are the raw master key
/// material fetched by the hosting layer; they are rejected with
/// [`WalletError::MalformedPublicKey`] when they are not a valid SEC1 point
/// with a 32-byte chain code.
pub fn ethereum_address(
    master_public_key: &Vec<u8>,
    master_chain_code: &Vec<u8>,
    owner: Principal,
) -> (r: Result<String, WalletError>)
    ensures
        r is Ok <==> {
            &&& valid_sec1(master_public_key@)
            &&& master_chain_code@.len() == 32
            &&& sec1_serialize(derived_child_key(master_public_key@, owner@), false)[0] == 4
        },
        r matches Ok(hex) ==> {
            &&& hex@ == eip55_of(eth_address_of(derived_child_key(master_public_key@, owner@)))
            &&& hex@.len() == 42
        },
        r matches Err(e) ==> e == WalletError::MalformedPublicKey,
{
    let master = match EcdsaPublicKey::new(
        slice_to_vec(master_public_key.as_slice()),
        slice_to_vec(master_chain_code.as_slice()),
    ) {
        Some(key) => key,
        None => {
            return Err(WalletError::MalformedPublicKey);
        },
    };
    let wallet = EthereumWallet::new(owner, &master);
    let address = match wallet.ethereum_address() {
        Ok(address) => address,
        Err(e) => {
            return Err(e);
        },
    };
    Ok(address.to_hex())
}

/// Signs a 32-byte digest for a caller by completing the oracle protocol:
/// derive the caller's key, self-verify the oracle's response against it,
/// and resolve the recovery discriminant.
///
/// The hosting layer calls the signing oracle with the caller's derivation
/// path and passes the raw response as `oracle_response` (`None` when the
/// oracle reported an error). On success the returned signature is exactly
/// the oracle's 64-byte response, it verifies under the caller's derived
/// key, and the discriminant (0 or 1) recovers that key from the digest and
/// signature; every other outcome is a fatal error with no partial result.
pub fn sign_with_ecdsa(
    master_public_key: &Vec<u8>,
    master_chain_code: &Vec<u8>,
    owner: Principal,
    message_hash: &Vec<u8>,
    oracle_response: Option<Vec<u8>>,
) -> (r: Result<(Vec<u8>, u8), WalletError>)
    requires
        message_hash@.len() == 32,
    ensures
        ({
            let key = derived_child_key(master_public_key@, owner@);
            let master_ok = valid_sec1(master_public_key@) && master_chain_code@.len() == 32;
            match r {
                Ok((signature, discriminant)) => {
                    &&& master_ok
                    &&& oracle_response matches Some(response) && response@ == signature@
                    &&& signature@.len() == 64
                    &&& sig_verifies(key, message_hash@, signature@)
                    &&& recovery_of(key, message_hash@, signature@) == Some((discriminant, false))
                    &&& discriminant <= 1
                    &&& recovered_key_of(message_hash@, signature@, discriminant) == Some(key)
                },
                Err(WalletError::MalformedPublicKey) => !master_ok,
                Err(WalletError::OracleFailure) => {
                    &&& master_ok
                    &&& (oracle_response is None || (oracle_response matches Some(response)
                        && response@.len() != 64))
                },
                Err(WalletError::IntegrityViolation) => {
                    &&& master_ok
                    &&& oracle_response matches Some(response)
                    &&& response@.len() == 64
                    &&& !sig_verifies(key, message_hash@, response@)
                },
                Err(WalletError::ReducedRecoveryId) => {
                    &&& master_ok
                    &&& oracle_response matches Some(response)
                    &&& response@.len() == 64
                    &&& sig_verifies(key, message_hash@, response@)
                    &&& (recovery_of(key, message_hash@, response@) matches Some(recid)
                        && recid.1)
                },
            }
        }),
{
    let master = match EcdsaPublicKey::new(
        slice_to_vec(master_public_key.as_slice()),
        slice_to_vec(master_chain_code.as_slice()),
    ) {
        Some(key) => key,
        None => {
            return Err(WalletError::MalformedPublicKey);
        },
    };
    let wallet = EthereumWallet::new(owner, &master);
    wallet.sign_with_ecdsa(message_hash, oracle_response)
}

/// Law (address stability): the rendered Ethereum address is a fixed
/// function of the master key material and the caller identity — any two
/// renderings for the same inputs, on any two runs, are identical.
pub proof fn lemma_address_stable(
    master_public_key: Seq<u8>,
    owner: Seq<u8>,
    hex1: Seq<char>,
    hex2: Seq<char>,
)
    requires
        hex1 == eip55_of(eth_address_of(derived_child_key(master_public_key, owner))),
        hex2 == eip55_of(eth_address_of(derived_child_key(master_public_key, owner))),
    ensures
        hex1 == hex2,
{
}

} // verus!
