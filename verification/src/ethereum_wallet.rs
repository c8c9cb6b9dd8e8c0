//! Per-caller wallets: derivation-path construction, the wallet facade, and
//! the verify-then-trust protocol around the external signing oracle.

use vstd::prelude::*;

use crate::WalletError;
use crate::ecdsa::EcdsaPublicKey;
use crate::ecdsa::EcdsaPublicKeyView;
use crate::ecdsa::EthereumAddress;
use crate::ecdsa::eth_address_of;
use crate::ecdsa::hd_derive;
use crate::ecdsa::recovered_key_of;
use crate::ecdsa::recovery_of;
use crate::ecdsa::sec1_serialize;
use crate::ecdsa::sig_verifies;
use crate::ecdsa::try_recovery_from_digest;
use crate::ecdsa::verify_signature_prehashed;

verus! {

/// First element of every derivation path. A future derivation-scheme change
/// bumps this value; a shipped version is never redefined, so addresses
/// issued under it never silently change.
pub const SCHEMA_V1: u8 = 1;

/// An opaque, platform-issued byte sequence identifying a caller. This crate
/// never interprets the bytes; it only feeds them into key derivation.
#[derive(Debug, Clone, PartialEq, Eq)]
pub struct Principal {
    bytes: Vec<u8>,
}

impl View for Principal {
    type V = Seq<u8>;

    closed spec fn view(&self) -> Seq<u8> {
        self.bytes@
    }
}

impl Principal {
    /// Wraps the raw identity bytes handed in by the hosting layer.
    pub fn from_bytes(bytes: Vec<u8>) -> (r: Principal)
        ensures
            r@ == bytes@,
    {
        Principal { bytes }
    }

    /// The raw identity bytes.
    pub fn as_bytes(&self) -> (r: &Vec<u8>)
        ensures
            r@ == self@,
    {
        &self.bytes
    }
}

/// The derivation path for a caller: the schema version byte first, then the
/// caller's identity bytes. The order is part of the derivation input.
pub open spec fn derivation_path_spec(owner: Seq<u8>) -> Seq<Seq<u8>> {
    seq![seq![SCHEMA_V1], owner]
}

/// Builds the derivation path `[[SCHEMA_V1], owner bytes]` for a caller.
pub fn derivation_path(owner: &Principal) -> (r: Vec<Vec<u8>>)
    ensures
        r.deep_view() == derivation_path_spec(owner@),
{
    let mut version: Vec<u8> = Vec::new();
    version.push(SCHEMA_V1);
    let mut path: Vec<Vec<u8>> = Vec::new();
    path.push(version);
    path.push(owner.as_bytes().clone());
    proof {
        assert(path.deep_view() =~~= derivation_path_spec(owner@));
    }
    path
}

/// Derives the per-caller public key from the master public key, using the
/// caller's derivation path.
pub fn derive_public_key(owner: &Principal, public_key: &EcdsaPublicKey) -> (r: EcdsaPublicKey)
    requires
        public_key.wf(),
    ensures
        r.wf(),
        (r@.public_key, r@.chain_code)
            == hd_derive(public_key@.public_key, derivation_path_spec(owner@)),
{
    let path = derivation_path(owner);
    public_key.derive_new_public_key(&path)
}

/// The recovery discriminant of a signature: a byte in `0..=3` whose second
/// bit is the x-reduced flag.
#[derive(Debug, Clone, Copy, PartialEq, Eq, Structural)]
pub struct RecoveryId {
    byte: u8,
    x_reduced: bool,
}

impl RecoveryId {
    /// The discriminant byte.
    pub closed spec fn spec_byte(self) -> u8 {
        self.byte
    }

    /// Whether the signature's r-component, modulo the curve order, differs
    /// from its unreduced field value.
    pub closed spec fn spec_x_reduced(self) -> bool {
        self.x_reduced
    }

    /// The discriminant byte.
    pub fn to_byte(&self) -> (r: u8)
        ensures
            r == self.spec_byte(),
    {
        self.byte
    }

    /// Whether the x-reduced flag is set.
    pub fn is_x_reduced(&self) -> (r: bool)
        ensures
            r == self.spec_x_reduced(),
    {
        self.x_reduced
    }
}

/// An Ethereum wallet bound to one caller: the caller's identity and the
/// public key derived for it from the master key. Built fresh per logical
/// operation and never persisted.
#[derive(Debug, Clone)]
pub struct EthereumWallet {
    owner: Principal,
    derived_public_key: EcdsaPublicKey,
}

/// The mathematical content of an [`EthereumWallet`].
pub struct EthereumWalletView {
    pub owner: Seq<u8>,
    pub derived_public_key: EcdsaPublicKeyView,
}

impl View for EthereumWallet {
    type V = EthereumWalletView;

    closed spec fn view(&self) -> EthereumWalletView {
        EthereumWalletView { owner: self.owner@, derived_public_key: self.derived_public_key@ }
    }
}

impl EthereumWallet {
    /// Well-formedness: the derived key is well-formed key material.
    pub open spec fn wf(self) -> bool {
        self@.derived_public_key.wf()
    }

    /// Builds the wallet for a caller: derives the caller's child key from
    /// the master public key. Pure composition; the master key is fetched by
    /// the hosting layer.
    pub fn new(owner: Principal, master_public_key: &EcdsaPublicKey) -> (r: EthereumWallet)
        requires
            master_public_key.wf(),
        ensures
            r.wf(),
            r@.owner == owner@,
            (r@.derived_public_key.public_key, r@.derived_public_key.chain_code)
                == hd_derive(master_public_key@.public_key, derivation_path_spec(owner@)),
    {
        let derived_public_key = derive_public_key(&owner, master_public_key);
        EthereumWallet { owner, derived_public_key }
    }

    /// The caller's derived public key.
    pub fn derived_public_key(&self) -> (r: &EcdsaPublicKey)
        ensures
            r@ == self@.derived_public_key,
    {
        &self.derived_public_key
    }

    /// The caller's identity.
    pub fn owner(&self) -> (r: &Principal)
        ensures
            r@ == self@.owner,
    {
        &self.owner
    }

    /// The Ethereum address of the wallet's derived public key.
    pub fn ethereum_address(&self) -> (r: Result<EthereumAddress, WalletError>)
        requires
            self.wf(),
        ensures
            r is Ok <==> sec1_serialize(self@.derived_public_key.public_key, false)[0] == 4,
            r matches Ok(addr) ==> {
                &&& addr@ == eth_address_of(self@.derived_public_key.public_key)
                &&& addr@.len() == 20
            },
            r matches Err(e) ==> e == WalletError::MalformedPublicKey,
    {
        self.derived_public_key.to_ethereum_address()
    }

    /// Resolves the recovery discriminant of an oracle-produced signature.
    ///
    /// First the signature is self-verified against the wallet's derived key:
    /// a failure is a fatal integrity violation, never silently accepted.
    /// Then the discriminant for which key recovery reproduces the derived
    /// key is determined; verification guarantees that one exists.
    pub fn compute_recovery_id(&self, message_hash: &Vec<u8>, signature: &Vec<u8>) -> (r: Result<
        RecoveryId,
        WalletError,
    >)
        requires
            self.wf(),
            message_hash@.len() == 32,
        ensures
            ({
                let key = self@.derived_public_key.public_key;
                &&& (r is Ok <==> sig_verifies(key, message_hash@, signature@))
                &&& (r matches Ok(recid) ==> {
                    &&& recovery_of(key, message_hash@, signature@)
                        == Some((recid.spec_byte(), recid.spec_x_reduced()))
                    &&& recid.spec_byte() <= 3
                    &&& (recid.spec_x_reduced() <==> recid.spec_byte() >= 2)
                    &&& recovered_key_of(message_hash@, signature@, recid.spec_byte()) == Some(key)
                })
                &&& (r matches Err(e) ==> e == WalletError::IntegrityViolation)
            }),
    {
        let key = self.derived_public_key.public_key_bytes();
        if !verify_signature_prehashed(key, message_hash, signature) {
            return Err(WalletError::IntegrityViolation);
        }
        match try_recovery_from_digest(key, message_hash, signature) {
            Some(recid) => Ok(RecoveryId { byte: recid.0, x_reduced: recid.1 }),
            None => Err(WalletError::IntegrityViolation),
        }
    }

    /// Completes a signing operation from the oracle's response.
    ///
    /// The hosting layer calls the signing oracle with this wallet's
    /// derivation path and hands the raw response here (`None` when the
    /// oracle reported an error). The response is accepted only if it is
    /// exactly 64 bytes, self-verifies against the wallet's derived key, and
    /// its resolved recovery discriminant does not carry the x-reduced flag;
    /// otherwise the whole operation fails with no partial result.
    pub fn sign_with_ecdsa(&self, message_hash: &Vec<u8>, oracle_response: Option<Vec<u8>>) -> (r:
        Result<(Vec<u8>, u8), WalletError>)
        requires
            self.wf(),
            message_hash@.len() == 32,
        ensures
            ({
                let key = self@.derived_public_key.public_key;
                match r {
                    Ok((signature, discriminant)) => {
                        &&& oracle_response matches Some(response) && response@ == signature@
                        &&& signature@.len() == 64
                        &&& sig_verifies(key, message_hash@, signature@)
                        &&& recovery_of(key, message_hash@, signature@)
                            == Some((discriminant, false))
                        &&& discriminant <= 1
                        &&& recovered_key_of(message_hash@, signature@, discriminant) == Some(key)
                    },
                    Err(WalletError::OracleFailure) => {
                        ||| oracle_response is None
                        ||| (oracle_response matches Some(response) && response@.len() != 64)
                    },
                    Err(WalletError::IntegrityViolation) => {
                        &&& oracle_response matches Some(response)
                        &&& response@.len() == 64
                        &&& !sig_verifies(key, message_hash@, response@)
                    },
                    Err(WalletError::ReducedRecoveryId) => {
                        &&& oracle_response matches Some(response)
                        &&& response@.len() == 64
                        &&& sig_verifies(key, message_hash@, response@)
                        &&& (recovery_of(key, message_hash@, response@) matches Some(recid)
                            && recid.1)
                    },
                    Err(WalletError::MalformedPublicKey) => false,
                }
            }),
    {
        let signature = match oracle_response {
            None => {
                return Err(WalletError::OracleFailure);
            },
            Some(response) => response,
        };
        if signature.len() != 64 {
            return Err(WalletError::OracleFailure);
        }
        let recovery_id = match self.compute_recovery_id(message_hash, &signature) {
            Ok(recid) => recid,
            Err(e) => {
                return Err(e);
            },
        };
        if recovery_id.is_x_reduced() {
            return Err(WalletError::ReducedRecoveryId);
        }
        Ok((signature, recovery_id.to_byte()))
    }
}

/// Law (determinism): hierarchical derivation is a mathematical function of
/// the master key and the derivation path — any two results of deriving the
/// same caller's key from the same master key, on any call and in any
/// process, are byte-identical.
pub proof fn lemma_derive_deterministic(
    master_public_key: Seq<u8>,
    owner: Seq<u8>,
    derived1: (Seq<u8>, Seq<u8>),
    derived2: (Seq<u8>, Seq<u8>),
)
    requires
        derived1 == hd_derive(master_public_key, derivation_path_spec(owner)),
        derived2 == hd_derive(master_public_key, derivation_path_spec(owner)),
    ensures
        derived1 == derived2,
{
}

/// Law (distinct derivation inputs): distinct callers always produce
/// distinct derivation paths, so the derivation engine is queried at
/// distinct inputs for distinct callers. That the curve library then maps
/// distinct paths to distinct child keys is its own guarantee.
pub proof fn lemma_derivation_path_injective(owner1: Seq<u8>, owner2: Seq<u8>)
    requires
        owner1 != owner2,
    ensures
        derivation_path_spec(owner1) != derivation_path_spec(owner2),
{
    assert(derivation_path_spec(owner1)[1] == owner1);
    assert(derivation_path_spec(owner2)[1] == owner2);
}

} // verus!
