//! Errors returned by the decoders and by validation.
use vstd::prelude::*;

verus! {

/// A wire sub-message that decoding cannot do without.
#[derive(Clone, Copy, Debug, PartialEq, Eq, Structural)]
pub enum Field {
    TrustedHeight,
    SyncCommittee,
    AttestedHeader,
    FinalizedHeader,
    SyncAggregate,
}

impl Field {
    /// The field's name in the wire message.
    pub fn name(&self) -> (r: &'static str)
        ensures
            *self == Field::TrustedHeight ==> r@ == "trusted_height"@,
            *self == Field::SyncCommittee ==> r@ == "sync_committee"@,
            *self == Field::AttestedHeader ==> r@ == "attested_header"@,
            *self == Field::FinalizedHeader ==> r@ == "finalized_header"@,
            *self == Field::SyncAggregate ==> r@ == "sync_aggregate"@,
    {
        match self {
            Field::TrustedHeight => "trusted_height",
            Field::SyncCommittee => "sync_committee",
            Field::AttestedHeader => "attested_header",
            Field::FinalizedHeader => "finalized_header",
            Field::SyncAggregate => "sync_aggregate",
        }
    }
}

#[derive(Clone, Debug, PartialEq, Eq)]
pub enum Error {
    /// A required wire sub-message is absent.
    MissingField(Field),
    /// A trusted height carries another light client's revision tag.
    UnexpectedHeightRevisionNumber { expected: u64, got: u64 },
    /// A height whose revision height is zero.
    InvalidHeight { revision_number: u64, revision_height: u64 },
    /// A hash that is not exactly 32 bytes long.
    BadHash,
    /// A BLS public key that is not exactly 48 bytes long.
    BadPublicKey,
    /// A BLS signature that is not exactly 96 bytes long.
    BadSignature,
    /// A committee whose key list does not have the committee size.
    BadSyncCommitteeSize { expected: usize, got: usize },
    /// A committee with no keys.
    EmptySyncCommittee,
    /// A participation bitmap that is not a canonical encoding of `expected_size` bits.
    BadBitVector { expected_size: usize, received_bytes: Vec<u8> },
    /// An account proof that is not an RLP list.
    BadRlp,
}

} // verus!
