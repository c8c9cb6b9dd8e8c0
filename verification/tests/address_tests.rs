use icp_ethereum_wallet::WalletError;
use icp_ethereum_wallet::ecdsa::EcdsaPublicKey;
use icp_ethereum_wallet::ecdsa::EthereumAddress;
use icp_ethereum_wallet::ethereum_address;
use icp_ethereum_wallet::ethereum_wallet::EthereumWallet;
use icp_ethereum_wallet::ethereum_wallet::Principal;
use icp_ethereum_wallet::ethereum_wallet::derivation_path;

/// The secp256k1 generator point in compressed SEC1 form: the public key of
/// the private key 1.
const GENERATOR_COMPRESSED: [u8; 33] = [
    0x02, 0x79, 0xbe, 0x66, 0x7e, 0xf9, 0xdc, 0xbb, 0xac, 0x55, 0xa0, 0x62, 0x95, 0xce, 0x87,
    0x0b, 0x07, 0x02, 0x9b, 0xfc, 0xdb, 0x2d, 0xce, 0x28, 0xd9, 0x59, 0xf2, 0x81, 0x5b, 0x16,
    0xf8, 0x17, 0x98,
];

fn hex_lower(bytes: &[u8]) -> String {
    let digits = b"0123456789abcdef";
    let mut out = String::from("0x");
    for b in bytes {
        out.push(digits[(b >> 4) as usize] as char);
        out.push(digits[(b & 0x0f) as usize] as char);
    }
    out
}

#[test]
fn generator_point_known_address() {
    // Known vector: the Ethereum address of the public key of private key 1.
    let key = EcdsaPublicKey::new(GENERATOR_COMPRESSED.to_vec(), vec![0u8; 32])
        .expect("generator point is a valid key");
    let address = key.to_ethereum_address().expect("address encoding succeeds");
    let expected: [u8; 20] = [
        0x7e, 0x5f, 0x45, 0x52, 0x09, 0x1a, 0x69, 0x12, 0x5d, 0x5d, 0xfc, 0xb7, 0xb8, 0xc2,
        0x65, 0x90, 0x29, 0x39, 0x5b, 0xdf,
    ];
    assert_eq!(address.as_bytes().as_slice(), &expected);
    let hex = address.to_hex();
    assert_eq!(hex, "0x7E5F4552091A69125d5DfCb7b8C2659029395Bdf");
}

#[test]
fn eip55_known_checksum() {
    // Known vector from EIP-55: mixed-case checksum rendering.
    let address = EthereumAddress::new(vec![
        0x7a, 0x25, 0x0d, 0x56, 0x30, 0xb4, 0xcf, 0x53, 0x97, 0x39, 0xdf, 0x2c, 0x5d, 0xac,
        0xb4, 0xc6, 0x59, 0xf2, 0x48, 0x8d,
    ]);
    assert_eq!(address.to_hex(), "0x7a250d5630B4cF539739dF2C5dAcb4c659F2488D");
}

#[test]
fn key_validation_and_compression() {
    // Garbage is rejected.
    assert!(EcdsaPublicKey::new(vec![0x02, 0x01, 0x02], vec![0u8; 32]).is_none());
    // A valid key with a wrong-size chain code is rejected.
    assert!(EcdsaPublicKey::new(GENERATOR_COMPRESSED.to_vec(), vec![0u8; 31]).is_none());
    // An uncompressed encoding is accepted and normalized to compressed form.
    let uncompressed = ic_secp256k1::PublicKey::deserialize_sec1(&GENERATOR_COMPRESSED)
        .unwrap()
        .serialize_sec1(false);
    assert_eq!(uncompressed.len(), 65);
    assert_eq!(uncompressed[0], 0x04);
    let key = EcdsaPublicKey::new(uncompressed, vec![0u8; 32]).expect("valid uncompressed key");
    assert_eq!(key.public_key_bytes().as_slice(), &GENERATOR_COMPRESSED);
    assert_eq!(key.chain_code_bytes().len(), 32);
}

#[test]
fn derivation_path_layout() {
    let owner = Principal::from_bytes(vec![9, 8, 7]);
    let path = derivation_path(&owner);
    assert_eq!(path, vec![vec![1u8], vec![9, 8, 7]]);
}

#[test]
fn derived_address_fixture() {
    // Fixture: fixed 33-byte compressed master key, fixed 32-byte chain
    // code, schema version 1, fixed 10-byte caller identity. The reference
    // value is recomputed through the curve and hash crates directly.
    let chain_code = vec![0x11u8; 32];
    let owner_bytes: Vec<u8> = vec![0, 1, 2, 3, 4, 5, 6, 7, 8, 9];

    let master = ic_secp256k1::PublicKey::deserialize_sec1(&GENERATOR_COMPRESSED).unwrap();
    let reference_path = ic_secp256k1::DerivationPath::new(vec![
        ic_secp256k1::DerivationIndex(vec![1]),
        ic_secp256k1::DerivationIndex(owner_bytes.clone()),
    ]);
    let (child, _) = master.derive_subkey(&reference_path);
    let uncompressed = child.serialize_sec1(false);
    let digest = ic_sha3::Keccak256::hash(&uncompressed[1..]);
    let expected: &[u8] = &digest[12..32];

    // Through the wallet types.
    let master_key =
        EcdsaPublicKey::new(GENERATOR_COMPRESSED.to_vec(), chain_code.clone()).unwrap();
    let wallet = EthereumWallet::new(Principal::from_bytes(owner_bytes.clone()), &master_key);
    let address = wallet.ethereum_address().expect("address encoding succeeds");
    assert_eq!(address.as_bytes().as_slice(), expected);

    // Through the top-level entry point.
    let hex = ethereum_address(
        &GENERATOR_COMPRESSED.to_vec(),
        &chain_code,
        Principal::from_bytes(owner_bytes),
    )
    .expect("address computation succeeds");
    assert_eq!(hex.to_lowercase(), hex_lower(expected));
}

#[test]
fn address_deterministic_and_stable() {
    // Determinism: deriving twice yields byte-identical key material.
    let master =
        EcdsaPublicKey::new(GENERATOR_COMPRESSED.to_vec(), vec![0x22u8; 32]).unwrap();
    let owner = Principal::from_bytes(vec![42; 10]);
    let path = derivation_path(&owner);
    let child1 = master.derive_new_public_key(&path);
    let child2 = master.derive_new_public_key(&path);
    assert_eq!(child1.public_key_bytes(), child2.public_key_bytes());
    assert_eq!(child1.chain_code_bytes(), child2.chain_code_bytes());

    // Stability: two wallets built independently from the same persisted
    // master key material render the same address.
    let hex1 = ethereum_address(
        &GENERATOR_COMPRESSED.to_vec(),
        &vec![0x22u8; 32],
        Principal::from_bytes(vec![42; 10]),
    )
    .unwrap();
    let hex2 = ethereum_address(
        &GENERATOR_COMPRESSED.to_vec(),
        &vec![0x22u8; 32],
        Principal::from_bytes(vec![42; 10]),
    )
    .unwrap();
    assert_eq!(hex1, hex2);
    assert_eq!(hex1.len(), 42);
    assert!(hex1.starts_with("0x"));
}

#[test]
fn distinct_callers_distinct_addresses() {
    let master =
        EcdsaPublicKey::new(GENERATOR_COMPRESSED.to_vec(), vec![0u8; 32]).unwrap();
    let wallet1 = EthereumWallet::new(Principal::from_bytes(vec![1, 2, 3]), &master);
    let wallet2 = EthereumWallet::new(Principal::from_bytes(vec![1, 2, 4]), &master);
    assert_ne!(
        wallet1.derived_public_key().public_key_bytes(),
        wallet2.derived_public_key().public_key_bytes()
    );
    let address1 = wallet1.ethereum_address().unwrap();
    let address2 = wallet2.ethereum_address().unwrap();
    assert_ne!(address1.as_bytes(), address2.as_bytes());
}

#[test]
fn malformed_master_key_rejected() {
    let owner = Principal::from_bytes(vec![5; 4]);
    let result = ethereum_address(&vec![0xffu8; 33], &vec![0u8; 32], owner);
    assert_eq!(result, Err(WalletError::MalformedPublicKey));
}
