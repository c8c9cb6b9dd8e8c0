//! Canister configuration: network selection, signing key name, and the
//! cached master public key, held as an explicit state value that the
//! hosting layer threads through every call.

use vstd::prelude::*;

use crate::ecdsa::EcdsaPublicKey;
use crate::ecdsa::EcdsaPublicKeyView;

verus! {

/// Which Ethereum network the wallet is connected to.
#[derive(Debug, Clone, Copy, PartialEq, Eq, Structural)]
pub enum EthereumNetwork {
    Mainnet,
    Sepolia,
}

impl Default for EthereumNetwork {
    /// The default network is the Sepolia testnet.
    fn default() -> (r: Self)
        ensures
            r == EthereumNetwork::Sepolia,
    {
        EthereumNetwork::Sepolia
    }
}

/// The name under which the threshold-ECDSA master key is registered.
#[derive(Debug, Clone, Copy, PartialEq, Eq, Structural)]
pub enum EcdsaKeyName {
    TestKeyLocalDevelopment,
    TestKey1,
    ProductionKey1,
}

impl Default for EcdsaKeyName {
    /// The default key is the local development test key.
    fn default() -> (r: Self)
        ensures
            r == EcdsaKeyName::TestKeyLocalDevelopment,
    {
        EcdsaKeyName::TestKeyLocalDevelopment
    }
}

/// Initialization argument supplied when the hosting process starts.
#[derive(Debug, Clone, Copy, PartialEq, Eq)]
pub struct InitArg {
    pub ethereum_network: Option<EthereumNetwork>,
    pub ecdsa_key_name: Option<EcdsaKeyName>,
}

/// The curve of a signing key identifier.
#[derive(Debug, Clone, Copy, PartialEq, Eq, Structural)]
pub enum EcdsaCurve {
    Secp256k1,
}

/// Identifier of the oracle's signing key: a curve and a registered name.
#[derive(Debug, Clone)]
pub struct EcdsaKeyId {
    pub curve: EcdsaCurve,
    pub name: String,
}

/// The registered name text for each key name.
pub open spec fn key_name_text(name: EcdsaKeyName) -> Seq<char> {
    match name {
        EcdsaKeyName::TestKeyLocalDevelopment => "dfx_test_key"@,
        EcdsaKeyName::TestKey1 => "test_key_1"@,
        EcdsaKeyName::ProductionKey1 => "key_1"@,
    }
}

/// A JSON-RPC provider for the Ethereum mainnet.
#[derive(Debug, Clone, Copy, PartialEq, Eq, Structural)]
pub enum EthMainnetService {
    Alchemy,
    Llama,
    BlockPi,
    Cloudflare,
    PublicNode,
    Ankr,
}

/// A JSON-RPC provider for the Sepolia testnet.
#[derive(Debug, Clone, Copy, PartialEq, Eq, Structural)]
pub enum EthSepoliaService {
    Alchemy,
    BlockPi,
    PublicNode,
    Ankr,
    Sepolia,
}

/// A selection of JSON-RPC providers for one network; `None` means the
/// provider default set.
#[derive(Debug, Clone)]
pub enum RpcServices {
    EthMainnet(Option<Vec<EthMainnetService>>),
    EthSepolia(Option<Vec<EthSepoliaService>>),
}

/// Wallet configuration plus the lazily cached master public key.
#[derive(Debug, Clone)]
pub struct State {
    ethereum_network: EthereumNetwork,
    ecdsa_key_name: EcdsaKeyName,
    ecdsa_public_key: Option<EcdsaPublicKey>,
}

/// The mathematical content of a [`State`].
pub struct StateView {
    pub ethereum_network: EthereumNetwork,
    pub ecdsa_key_name: EcdsaKeyName,
    pub ecdsa_public_key: Option<EcdsaPublicKeyView>,
}

impl View for State {
    type V = StateView;

    closed spec fn view(&self) -> StateView {
        StateView {
            ethereum_network: self.ethereum_network,
            ecdsa_key_name: self.ecdsa_key_name,
            ecdsa_public_key: match self.ecdsa_public_key {
                Some(key) => Some(key@),
                None => None,
            },
        }
    }
}

impl Default for State {
    /// A state with default configuration and no cached key.
    fn default() -> (r: Self)
        ensures
            r@.ethereum_network == EthereumNetwork::Sepolia,
            r@.ecdsa_key_name == EcdsaKeyName::TestKeyLocalDevelopment,
            r@.ecdsa_public_key is None,
    {
        State {
            ethereum_network: EthereumNetwork::Sepolia,
            ecdsa_key_name: EcdsaKeyName::TestKeyLocalDevelopment,
            ecdsa_public_key: None,
        }
    }
}

/// Builds the initial state from the argument supplied at process start;
/// absent fields fall back to the defaults.
pub fn init_state(init_args: InitArg) -> (r: State)
    ensures
        r@.ethereum_network == (match init_args.ethereum_network {
            Some(network) => network,
            None => EthereumNetwork::Sepolia,
        }),
        r@.ecdsa_key_name == (match init_args.ecdsa_key_name {
            Some(name) => name,
            None => EcdsaKeyName::TestKeyLocalDevelopment,
        }),
        r@.ecdsa_public_key is None,
{
    let ethereum_network = match init_args.ethereum_network {
        Some(network) => network,
        None => EthereumNetwork::Sepolia,
    };
    let ecdsa_key_name = match init_args.ecdsa_key_name {
        Some(name) => name,
        None => EcdsaKeyName::TestKeyLocalDevelopment,
    };
    State { ethereum_network, ecdsa_key_name, ecdsa_public_key: None }
}

impl State {
    /// The identifier of the oracle's signing key for the configured name.
    pub fn ecdsa_key_id(&self) -> (r: EcdsaKeyId)
        ensures
            r.curve == EcdsaCurve::Secp256k1,
            r.name@ == key_name_text(self@.ecdsa_key_name),
    {
        let name = match self.ecdsa_key_name {
            EcdsaKeyName::TestKeyLocalDevelopment => String::from_str("dfx_test_key"),
            EcdsaKeyName::TestKey1 => String::from_str("test_key_1"),
            EcdsaKeyName::ProductionKey1 => String::from_str("key_1"),
        };
        EcdsaKeyId { curve: EcdsaCurve::Secp256k1, name }
    }

    /// The configured Ethereum network.
    pub fn ethereum_network(&self) -> (r: EthereumNetwork)
        ensures
            r == self@.ethereum_network,
    {
        self.ethereum_network
    }

    /// The cached master public key, if one has been fetched.
    pub fn ecdsa_public_key(&self) -> (r: &Option<EcdsaPublicKey>)
        ensures
            r is Some <==> self@.ecdsa_public_key is Some,
            r matches Some(key) ==> self@.ecdsa_public_key == Some(key@),
    {
        &self.ecdsa_public_key
    }

    /// Caches the master public key once it has been fetched. The
    /// configuration fields are left untouched, so a racing re-fetch of the
    /// same (idempotently fetched) key material is harmless.
    pub fn cache_ecdsa_public_key(&mut self, key: EcdsaPublicKey)
        ensures
            final(self)@.ecdsa_public_key == Some(key@),
            final(self)@.ethereum_network == old(self)@.ethereum_network,
            final(self)@.ecdsa_key_name == old(self)@.ecdsa_key_name,
    {
        self.ecdsa_public_key = Some(key);
    }

    /// The default set of JSON-RPC providers for the configured network.
    pub fn evm_rpc_services(&self) -> (r: RpcServices)
        ensures
            self@.ethereum_network == EthereumNetwork::Mainnet
                ==> r matches RpcServices::EthMainnet(None),
            self@.ethereum_network == EthereumNetwork::Sepolia
                ==> r matches RpcServices::EthSepolia(None),
    {
        match self.ethereum_network {
            EthereumNetwork::Mainnet => RpcServices::EthMainnet(None),
            EthereumNetwork::Sepolia => RpcServices::EthSepolia(None),
        }
    }

    /// A single public-node JSON-RPC provider for the configured network.
    pub fn singel_rpc_service(&self) -> (r: RpcServices)
        ensures
            self@.ethereum_network == EthereumNetwork::Mainnet
                ==> (r matches RpcServices::EthMainnet(Some(services))
                    && services@ == seq![EthMainnetService::PublicNode]),
            self@.ethereum_network == EthereumNetwork::Sepolia
                ==> (r matches RpcServices::EthSepolia(Some(services))
                    && services@ == seq![EthSepoliaService::PublicNode]),
    {
        match self.ethereum_network {
            EthereumNetwork::Mainnet => {
                let mut services: Vec<EthMainnetService> = Vec::new();
                services.push(EthMainnetService::PublicNode);
                proof {
                    assert(services@ =~= seq![EthMainnetService::PublicNode]);
                }
                RpcServices::EthMainnet(Some(services))
            }
            EthereumNetwork::Sepolia => {
                let mut services: Vec<EthSepoliaService> = Vec::new();
                services.push(EthSepoliaService::PublicNode);
                proof {
                    assert(services@ =~= seq![EthSepoliaService::PublicNode]);
                }
                RpcServices::EthSepolia(Some(services))
            }
        }
    }
}

} // verus!
