//! The decision core of aggregate-signature verification for the sync
//! step.
//!
//! Decompressing points, aggregating public keys and hashing a message to
//! the curve are the curve collaborator's work, done by the caller; what is
//! decided here — the commitment comparison, the attested-header root, the
//! signing root, and the two-pairing equality — is verified.

use vstd::prelude::*;

verus! {

use crate::committee::add_left_right;
use crate::committee::bytes_eq;
use crate::committee::lemma_deep_view_index;
use crate::committee::merkleize_keys;
use crate::committee::merkleize_s;
use crate::committee::uint64_le_256_s;
use crate::committee::uint64_to_le_256;
use crate::fp::fp12_is_zero;
use crate::pairings::final_exp_s;
use crate::pairings::pairing;
use crate::pairings::pairing_s;
use crate::points::G1Affine;
use crate::points::G2Affine;
use crate::points::g1_generator;
use crate::points::g1_generator_v;
use crate::points::g1a_wf;
use crate::points::g2a_wf;
use crate::points::is_g1_gen;

/// The five leaves of a beacon header, in merkleization order.
pub open spec fn header_leaves_s(
    slot: u64,
    proposer_index: u64,
    parent_root: Seq<u8>,
    state_root: Seq<u8>,
    body_root: Seq<u8>,
) -> Seq<Seq<u8>> {
    seq![
        uint64_le_256_s(slot),
        uint64_le_256_s(proposer_index),
        parent_root,
        state_root,
        body_root,
    ]
}

/// Merkleizes a beacon header's five fields into its root.
pub fn attested_header_root(
    slot: u64,
    proposer_index: u64,
    parent_root: &Vec<u8>,
    state_root: &Vec<u8>,
    body_root: &Vec<u8>,
) -> (r: Vec<u8>)
    ensures
        r@ == merkleize_s(
            header_leaves_s(slot, proposer_index, parent_root@, state_root@, body_root@),
        ),
{
    let mut leaves: Vec<Vec<u8>> = Vec::new();
    leaves.push(uint64_to_le_256(slot));
    leaves.push(uint64_to_le_256(proposer_index));
    leaves.push(parent_root.clone());
    leaves.push(state_root.clone());
    leaves.push(body_root.clone());
    proof {
        assert forall|j: int| 0 <= j < 5 implies leaves.deep_view()[j] == leaves@[j]@ by {
            lemma_deep_view_index(&leaves, j);
        }
        assert(leaves.deep_view() =~= header_leaves_s(
            slot,
            proposer_index,
            parent_root@,
            state_root@,
            body_root@,
        ));
    }
    merkleize_keys(leaves)
}

/// Appends the signing domain to a header root, forming the signing root.
pub fn signing_root(header_root: Vec<u8>, domain: &Vec<u8>) -> (r: Vec<u8>)
    ensures
        r@ == header_root@ + domain@,
{
    add_left_right(header_root, domain)
}

/// Decides aggregate-signature verification: the recomputed key commitment
/// must equal the committed one, and the pairing of the aggregate key with
/// the message point must equal the pairing of the first group's generator
/// with the signature point.
pub fn verify_aggregate_signature(
    aggregate_key: &G1Affine,
    commitment: &Vec<u8>,
    committee_commitment: &Vec<u8>,
    message: &G2Affine,
    signature: &G2Affine,
) -> (r: bool)
    requires
        g1a_wf(*aggregate_key),
        g2a_wf(*message),
        g2a_wf(*signature),
    ensures
        commitment@ != committee_commitment@ ==> r == false,
        commitment@ == committee_commitment@ && !aggregate_key.infinity && !message.infinity
            && !signature.infinity && !fp12_is_zero(pairing_s(*aggregate_key, *message))
            && !fp12_is_zero(pairing_s(g1_generator_v(), *signature)) ==> r == (final_exp_s(
            pairing_s(*aggregate_key, *message),
        ) == final_exp_s(pairing_s(g1_generator_v(), *signature))),
{
    let commitment_ok = bytes_eq(commitment, committee_commitment);
    let lhs = pairing(aggregate_key, message);
    let g1 = g1_generator();
    proof {
        assert(exists|g: G1Affine| is_g1_gen(g)) by {
            assert(is_g1_gen(g1));
        }
        assert(is_g1_gen(g1_generator_v()));
        assert(g1 == g1_generator_v());
    }
    let rhs = pairing(&g1, signature);
    let signature_ok = lhs.ct_eq(&rhs);
    commitment_ok && signature_ok
}

} // verus!
