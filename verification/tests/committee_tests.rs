use sha2::Digest;

use bls12_381::committee::add_left_right;
use bls12_381::committee::commit_to_keys;
use bls12_381::committee::convert;
use bls12_381::committee::decode_pubkeys_x;
use bls12_381::committee::precompile_sha2_commitment;
use bls12_381::committee::digest;
use bls12_381::committee::hash_keys;
use bls12_381::committee::is_valid_merkle_branch;
use bls12_381::committee::merkleize_keys;
use bls12_381::committee::u8_to_bits;
use bls12_381::committee::uint64_to_le_256;
use bls12_381::committee::verify_merkle_proof;
use bls12_381::types::CommitteeCircuitOutput;

fn sha(input: &[u8]) -> Vec<u8> {
    sha2::Sha256::digest(input).to_vec()
}

#[test]
fn test_digest_known_vector() {
    // SHA-256 of the empty input
    let expected = vec![
        0xe3, 0xb0, 0xc4, 0x42, 0x98, 0xfc, 0x1c, 0x14, 0x9a, 0xfb, 0xf4, 0xc8, 0x99, 0x6f,
        0xb9, 0x24, 0x27, 0xae, 0x41, 0xe4, 0x64, 0x9b, 0x93, 0x4c, 0xa4, 0x95, 0x99, 0x1b,
        0x78, 0x52, 0xb8, 0x55,
    ];
    assert_eq!(digest(&Vec::new()), expected);
}

#[test]
fn test_add_left_right() {
    let left = vec![1u8, 2, 3];
    let right = vec![4u8, 5];
    assert_eq!(add_left_right(left, &right), vec![1u8, 2, 3, 4, 5]);
}

#[test]
fn test_verify_merkle_proof_roundtrip() {
    let leaf = sha(b"leaf");
    let n1 = sha(b"sibling-1");
    let n2 = sha(b"sibling-2");
    // gindex 4: even at both levels, so the computed hash stays on the left
    let l1 = sha(&[leaf.clone(), n1.clone()].concat());
    let root = sha(&[l1.clone(), n2.clone()].concat());
    assert!(verify_merkle_proof(vec![n1.clone(), n2.clone()], leaf.clone(), &root, 4));
    // gindex 5: odd at the first level, so the first sibling goes left
    let l1_odd = sha(&[n1.clone(), leaf.clone()].concat());
    let root_odd = sha(&[l1_odd, n2.clone()].concat());
    assert!(verify_merkle_proof(vec![n1.clone(), n2.clone()], leaf.clone(), &root_odd, 5));
    assert!(!verify_merkle_proof(vec![n1, n2], leaf, &root, 5));
}

#[test]
fn test_merkleize_two_keys() {
    let k0 = sha(b"k0");
    let k1 = sha(b"k1");
    let expected = sha(&[k0.clone(), k1.clone()].concat());
    assert_eq!(merkleize_keys(vec![k0, k1]), expected);
}

#[test]
fn test_merkleize_single_key_pads_with_zero_hash() {
    let k0 = sha(b"solo");
    let expected = sha(&[k0.clone(), vec![0u8; 32]].concat());
    assert_eq!(merkleize_keys(vec![k0]), expected);
}

#[test]
fn test_merkleize_odd_layer() {
    let k: Vec<Vec<u8>> = (0..3u8).map(|i| sha(&[i])).collect();
    let l0 = sha(&[k[0].clone(), k[1].clone()].concat());
    let l1 = sha(&[k[2].clone(), vec![0u8; 32]].concat());
    let expected = sha(&[l0, l1].concat());
    assert_eq!(merkleize_keys(k), expected);
}

#[test]
fn test_hash_keys_pads_to_64() {
    let key = vec![0xabu8; 48];
    let mut padded = key.clone();
    padded.resize(64, 0);
    let hashes = hash_keys(vec![key]);
    assert_eq!(hashes.len(), 1);
    assert_eq!(hashes[0], sha(&padded));
}

#[test]
fn test_is_valid_merkle_branch_roundtrip() {
    let leaf = sha(b"value");
    let n0 = sha(b"n0");
    let n1 = sha(b"n1");
    // index 2: bit 0 clear (leaf on the left), bit 1 set (node on the left)
    let l1 = sha(&[leaf.clone(), n0.clone()].concat());
    let root = sha(&[n1.clone(), l1].concat());
    assert!(is_valid_merkle_branch(
        leaf.clone(),
        vec![n0.clone(), n1.clone()],
        2,
        2,
        root.clone(),
    ));
    // wrong depth
    assert!(!is_valid_merkle_branch(
        leaf.clone(),
        vec![n0.clone(), n1.clone()],
        3,
        2,
        root.clone(),
    ));
    // wrong index
    assert!(!is_valid_merkle_branch(leaf.clone(), vec![n0.clone(), n1.clone()], 2, 3, root));
    // short leaf
    assert!(!is_valid_merkle_branch(vec![1u8, 2], vec![n0, n1], 2, 2, vec![0u8; 32]));
}

#[test]
fn test_uint64_to_le_256() {
    let v = uint64_to_le_256(0x0102030405060708);
    let mut expected = vec![8u8, 7, 6, 5, 4, 3, 2, 1];
    expected.extend(vec![0u8; 24]);
    assert_eq!(v, expected);
}

#[test]
fn test_u8_to_bits() {
    assert_eq!(u8_to_bits(0b1011_0010), vec![1u8, 0, 1, 1, 0, 0, 1, 0]);
    assert_eq!(u8_to_bits(0), vec![0u8; 8]);
    assert_eq!(u8_to_bits(0xff), vec![1u8; 8]);
}

#[test]
fn test_convert_words_to_bytes() {
    let words: [u32; 8] = [0x04030201, 0x08070605, 9, 10, 11, 12, 13, 0xf1f2f3f4];
    let bytes = convert(&words);
    assert_eq!(bytes.len(), 32);
    assert_eq!(&bytes[0..8], &[1u8, 2, 3, 4, 5, 6, 7, 8]);
    assert_eq!(&bytes[28..32], &[0xf4u8, 0xf3, 0xf2, 0xf1]);
}

#[test]
fn test_committee_circuit_output_new() {
    let out = CommitteeCircuitOutput::new(vec![9u8; 32], [7u8; 32]);
    assert_eq!(out.committee_root, vec![9u8; 32]);
    assert_eq!(out.commitment, vec![7u8; 32]);
}

#[test]
fn test_committee_root_against_state_root() {
    // a miniature committee update: four keys, their merkle root, and a
    // two-level branch into a state root
    let keys: Vec<Vec<u8>> = (0u8..4).map(|i| vec![i + 1; 48]).collect();
    let key_hashes = hash_keys(keys.clone());
    let committee_root = merkleize_keys(key_hashes.clone());

    let mut h0 = keys[0].clone();
    h0.resize(64, 0);
    let mut h1 = keys[1].clone();
    h1.resize(64, 0);
    let left = sha(&[sha(&h0), sha(&h1)].concat());
    let mut h2 = keys[2].clone();
    h2.resize(64, 0);
    let mut h3 = keys[3].clone();
    h3.resize(64, 0);
    let right = sha(&[sha(&h2), sha(&h3)].concat());
    assert_eq!(committee_root, sha(&[left, right].concat()));

    let sibling = sha(b"sibling");
    let state_root = sha(&[committee_root.clone(), sibling.clone()].concat());
    assert!(verify_merkle_proof(vec![sibling], committee_root, &state_root, 2));
}

#[test]
fn test_decode_pubkeys_x() {
    let mut key1 = vec![0u8; 48];
    key1[0] = 0;
    key1[1] = 0xab;
    key1[31] = 0xcd;
    key1[47] = 0x3f; // bit five set: y sign 1
    let mut key2 = vec![7u8; 48];
    key2[47] = 0x1f; // bit five clear: y sign 0
    let (xs, signs) = decode_pubkeys_x(vec![key1.clone(), key2.clone()]);
    assert_eq!(xs.len(), 2);
    // the canonical integer form drops the single leading zero byte
    assert_eq!(xs[0], key1[1..32].to_vec());
    assert_eq!(xs[1], key2[0..32].to_vec());
    // two sign bits packed least significant first: 1 | (0 << 1)
    assert_eq!(signs, vec![1u8]);
}

#[test]
fn test_decode_pubkeys_x_zero_coordinate() {
    let key = vec![0u8; 48];
    let (xs, signs) = decode_pubkeys_x(vec![key]);
    // the zero coordinate keeps a single zero byte
    assert_eq!(xs[0], vec![0u8]);
    assert_eq!(signs, vec![0u8]);
}

#[test]
fn test_decode_pubkeys_x_packs_nine_signs() {
    let mut keys = Vec::new();
    for i in 0..9u8 {
        let mut key = vec![i + 1; 48];
        key[47] = if i % 2 == 0 { 0x20 } else { 0 };
        keys.push(key);
    }
    let (_, signs) = decode_pubkeys_x(keys);
    // bits 0,2,4,6 of the first byte and bit 0 of the second
    assert_eq!(signs, vec![0b0101_0101u8, 1u8]);
}

#[test]
fn test_commit_to_keys() {
    let k0 = vec![1u8, 2, 3];
    let k1 = vec![4u8, 5];
    let signs = vec![9u8, 8];
    let expected = sha(&[1u8, 2, 3, 4, 5, 9, 8]);
    assert_eq!(commit_to_keys(vec![k0.clone(), k1.clone()], signs.clone()), expected);
    assert_eq!(precompile_sha2_commitment(vec![k0, k1], signs), expected);
}

#[test]
fn test_attested_header_root() {
    let parent = sha(b"parent");
    let state = sha(b"state");
    let body = sha(b"body");
    let slot: u64 = 0x0102030405060708;
    let proposer: u64 = 42;
    let le256 = |v: u64| {
        let mut b = v.to_le_bytes().to_vec();
        b.extend(vec![0u8; 24]);
        b
    };
    let zh0 = vec![0u8; 32];
    let zh1 = sha(&[zh0.clone(), zh0.clone()].concat());
    let d0 = sha(&[le256(slot), le256(proposer)].concat());
    let d1 = sha(&[parent.clone(), state.clone()].concat());
    let d2 = sha(&[body.clone(), zh0].concat());
    let e0 = sha(&[d0, d1].concat());
    let e1 = sha(&[d2, zh1].concat());
    let expected = sha(&[e0, e1].concat());
    let root = bls12_381::step::attested_header_root(slot, proposer, &parent, &state, &body);
    assert_eq!(root, expected);
}

#[test]
fn test_signing_root() {
    let header_root = sha(b"header");
    let domain = vec![7u8; 32];
    let expected = [header_root.clone(), domain.clone()].concat();
    assert_eq!(bls12_381::step::signing_root(header_root, &domain), expected);
}
