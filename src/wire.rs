//! The transport (protocol-buffer) messages, field for field.
use vstd::prelude::*;

verus! {

#[derive(Clone, Debug, PartialEq, Eq)]
pub struct ProtoHeight {
    pub revision_number: u64,
    pub revision_height: u64,
}

#[derive(Clone, Debug, PartialEq, Eq)]
pub struct ProtoBeaconBlockHeader {
    pub slot: u64,
    pub proposer_index: u64,
    pub parent_root: Vec<u8>,
    pub state_root: Vec<u8>,
    pub body_root: Vec<u8>,
}

#[derive(Clone, Debug, PartialEq, Eq)]
pub struct ProtoSyncCommittee {
    pub pubkeys: Vec<Vec<u8>>,
    pub aggregate_pubkey: Vec<u8>,
}

#[derive(Clone, Debug, PartialEq, Eq)]
pub struct ProtoSyncAggregate {
    pub sync_committee_bits: Vec<u8>,
    pub sync_committee_signature: Vec<u8>,
}

#[derive(Clone, Debug, PartialEq, Eq)]
pub struct ProtoTrustedSyncCommittee {
    pub trusted_height: Option<ProtoHeight>,
    pub sync_committee: Option<ProtoSyncCommittee>,
    pub is_next: bool,
}

#[derive(Clone, Debug, PartialEq, Eq)]
pub struct ProtoAccountUpdate {
    pub account_proof: Vec<u8>,
    pub account_storage_root: Vec<u8>,
}

#[derive(Clone, Debug, PartialEq, Eq)]
pub struct ProtoExecutionUpdate {
    pub state_root: Vec<u8>,
    pub state_root_branch: Vec<Vec<u8>>,
    pub block_number: u64,
    pub block_number_branch: Vec<Vec<u8>>,
}

#[derive(Clone, Debug, PartialEq, Eq)]
pub struct ProtoConsensusUpdate {
    pub attested_header: Option<ProtoBeaconBlockHeader>,
    pub next_sync_committee: Option<ProtoSyncCommittee>,
    pub next_sync_committee_branch: Vec<Vec<u8>>,
    pub finalized_header: Option<ProtoBeaconBlockHeader>,
    pub finalized_header_branch: Vec<Vec<u8>>,
    pub finalized_execution_root: Vec<u8>,
    pub finalized_execution_branch: Vec<Vec<u8>>,
    pub sync_aggregate: Option<ProtoSyncAggregate>,
    pub signature_slot: u64,
}

/// The contents of a list of byte strings.
pub open spec fn byte_seqs(v: Seq<Vec<u8>>) -> Seq<Seq<u8>> {
    v.map_values(|b: Vec<u8>| b@)
}

} // verus!
