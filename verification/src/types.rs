//! The plain data carried between the circuits, the prover and the
//! verification utilities. Roots and other hash-shaped values are held as
//! raw bytes; a beacon header's numeric fields keep the decimal string
//! form they arrive in.

use vstd::prelude::*;

verus! {

/// A beacon block header, with each root as its 32 raw bytes.
#[derive(Clone, Debug, Default)]
pub struct BeaconBlockHeader {
    pub slot: String,
    pub proposer_index: String,
    pub parent_root: Vec<u8>,
    pub state_root: Vec<u8>,
    pub body_root: Vec<u8>,
}

/// The inputs of a sync-committee rotation proof.
#[derive(Clone, Debug)]
pub struct CommitteeUpdateArgs {
    pub pubkeys_compressed: Vec<Vec<u8>>,
    pub finalized_header: BeaconBlockHeader,
    pub sync_committee_branch: Vec<Vec<u8>>,
}

/// The committee circuit's input: the keys, their branch, and the state
/// root the branch must reach.
#[derive(Clone, Debug)]
pub struct CommitteeCircuitInput {
    pub pubkeys: Vec<Vec<u8>>,
    pub branch: Vec<Vec<u8>>,
    pub state_root: Vec<u8>,
}

/// The committee circuit's public output.
#[derive(Clone, Debug)]
pub struct CommitteeCircuitOutput {
    pub committee_root: Vec<u8>,
    pub commitment: Vec<u8>,
}

impl CommitteeCircuitOutput {
    /// Packs a committee root and a 32-byte commitment.
    pub fn new(committee_root: Vec<u8>, commitment: [u8; 32]) -> (r: CommitteeCircuitOutput)
        ensures
            r.committee_root == committee_root,
            r.commitment@ == commitment@,
    {
        let mut c: Vec<u8> = Vec::new();
        let mut i: usize = 0;
        while i < 32
            invariant
                i <= 32,
                c@ =~= commitment@.take(i as int),
        decreases 32 - i,
        {
            c.push(commitment[i]);
            i = i + 1;
        }
        proof {
            assert(commitment@.take(32) =~= commitment@);
        }
        CommitteeCircuitOutput { committee_root, commitment: c }
    }
}

/// The inputs of one sync-step proof.
#[derive(Clone, Debug)]
pub struct SyncStepArgs {
    pub signature_compressed: Vec<u8>,
    pub pubkeys_uncompressed: Vec<Vec<u8>>,
    pub pariticipation_bits: Vec<bool>,
    pub attested_header: BeaconBlockHeader,
    pub finalized_header: BeaconBlockHeader,
    pub finality_branch: Vec<Vec<u8>>,
    pub execution_payload_root: Vec<u8>,
    pub execution_payload_branch: Vec<Vec<u8>>,
    pub domain: [u8; 32],
}

/// The sync-step circuit's input: the step arguments and the committee
/// commitment they are checked against.
#[derive(Clone, Debug)]
pub struct SyncStepCircuitInput {
    pub args: SyncStepArgs,
    pub committee_commitment: [u8; 32],
}

/// The sync-step circuit's public output.
#[derive(Clone, Debug)]
pub struct SyncStepCircuitOutput {
    pub slot: u32,
    pub commitment: [u8; 32],
    pub finalized_header_root: [u8; 32],
}

/// The inputs of the rotation proof: a committee update and the step proof
/// input it rotates over.
#[derive(Clone, Debug)]
pub struct RotationCircuitInputs {
    pub committee: CommitteeUpdateArgs,
    pub step: SyncStepCircuitInput,
}

/// A recursive proof's public values and verifying key words.
#[derive(Clone, Debug)]
pub struct RecursiveInputs {
    pub public_values: Vec<u8>,
    pub vk: [u32; 8],
}

/// The beacon API's committee-update response shell.
#[derive(Clone, Debug, Default)]
pub struct CommitteeUpdateResponse {}

/// The beacon API's sync-step response shell.
#[derive(Clone, Debug, Default)]
pub struct SyncStepResponse {}

/// Whether a generated proof is compressed.
#[derive(Clone, Copy, Debug)]
pub enum ProofCompressionBool {
    Compressed,
    Uncompressed,
}

/// Which proving backend a proof is generated for.
#[derive(Clone, Copy, Debug)]
pub enum ProverOps {
    Default,
    Groth16,
    Plonk,
}

} // verus!
