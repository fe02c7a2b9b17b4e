//! A sync committee that the relying chain accepted at a height.
use vstd::prelude::*;
use crate::error::{Error, Field};
use crate::sync::{committee_of_wire, decode_sync_committee, encode_sync_committee, CommitteeView, SyncCommittee};
use crate::wire::{byte_seqs, ProtoHeight, ProtoTrustedSyncCommittee};

verus! {

/// The revision number that tags heights of this light client.
pub const ETHEREUM_CLIENT_REVISION_NUMBER: u64 = 0;

/// A height: a revision number and a non-zero height within the revision.
#[derive(Clone, Copy, Debug, PartialEq, Eq, Structural)]
pub struct Height {
    pub revision_number: u64,
    pub revision_height: u64,
}

impl Height {
    pub open spec fn wf(&self) -> bool {
        self.revision_height != 0
    }

    /// The height at `revision_height` of revision `revision_number`; zero is no height.
    pub fn new(revision_number: u64, revision_height: u64) -> (r: Result<Height, Error>)
        ensures
            revision_height != 0 ==> r == Ok::<Height, Error>(
                Height { revision_number, revision_height },
            ),
            revision_height == 0 ==> r == Err::<Height, Error>(
                Error::InvalidHeight { revision_number, revision_height },
            ),
    {
        if revision_height == 0 {
            Err(Error::InvalidHeight { revision_number, revision_height })
        } else {
            Ok(Height { revision_number, revision_height })
        }
    }

    pub fn revision_number(&self) -> (r: u64)
        ensures
            r == self.revision_number,
    {
        self.revision_number
    }

    pub fn revision_height(&self) -> (r: u64)
        ensures
            r == self.revision_height,
    {
        self.revision_height
    }
}

#[derive(Clone, Debug, PartialEq, Eq)]
pub struct TrustedSyncCommittee<const N: usize> {
    /// Height of the consensus state that stores the committee
    pub height: Height,
    /// The trusted sync committee
    pub sync_committee: SyncCommittee<N>,
    /// Whether the committee is the next one of that consensus state, rather than the current one
    pub is_next: bool,
}

/// A trusted committee as plain values: height, committee, and which of the two it is.
pub type TrustedView = (Height, CommitteeView, bool);

impl<const N: usize> View for TrustedSyncCommittee<N> {
    type V = TrustedView;

    open spec fn view(&self) -> TrustedView {
        (self.height, self.sync_committee@, self.is_next)
    }
}

impl<const N: usize> TrustedSyncCommittee<N> {
    pub open spec fn wf(&self) -> bool {
        self.height.wf() && self.sync_committee.wf()
    }

    /// Checks the revision tag of the height, then the committee itself.
    pub fn validate(&self) -> (r: Result<(), Error>)
        ensures
            self.height.revision_number != ETHEREUM_CLIENT_REVISION_NUMBER ==> r == Err::<(), Error>(
                Error::UnexpectedHeightRevisionNumber {
                    expected: ETHEREUM_CLIENT_REVISION_NUMBER,
                    got: self.height.revision_number,
                },
            ),
            self.height.revision_number == ETHEREUM_CLIENT_REVISION_NUMBER ==> r
                == self.sync_committee.check(),
    {
        if self.height.revision_number() != ETHEREUM_CLIENT_REVISION_NUMBER {
            return Err(
                Error::UnexpectedHeightRevisionNumber {
                    expected: ETHEREUM_CLIENT_REVISION_NUMBER,
                    got: self.height.revision_number(),
                },
            );
        }
        self.sync_committee.validate()
    }

    /// What decoding a wire trusted committee gives, fields taken in the order: trusted
    /// height, its value, committee.
    pub open spec fn of_wire(value: ProtoTrustedSyncCommittee) -> Result<TrustedView, Error> {
        match value.trusted_height {
            None => Err(Error::MissingField(Field::TrustedHeight)),
            Some(h) => if h.revision_height == 0 {
                Err(
                    Error::InvalidHeight {
                        revision_number: h.revision_number,
                        revision_height: h.revision_height,
                    },
                )
            } else {
                match value.sync_committee {
                    None => Err(Error::MissingField(Field::SyncCommittee)),
                    Some(c) => match committee_of_wire(N, c) {
                        Err(e) => Err(e),
                        Ok(cv) => Ok(
                            (
                                Height {
                                    revision_number: h.revision_number,
                                    revision_height: h.revision_height,
                                },
                                cv,
                                value.is_next,
                            ),
                        ),
                    },
                }
            },
        }
    }

    /// Decodes a wire trusted committee over committees of size `N`.
    pub fn from_proto(value: ProtoTrustedSyncCommittee) -> (r: Result<Self, Error>)
        ensures
            match Self::of_wire(value) {
                Ok(v) => r matches Ok(t) && t@ == v && t.wf(),
                Err(e) => r == Err::<Self, Error>(e),
            },
    {
        let height = match &value.trusted_height {
            Some(h) => Height::new(h.revision_number, h.revision_height)?,
            None => {
                return Err(Error::MissingField(Field::TrustedHeight));
            },
        };
        let sync_committee = match &value.sync_committee {
            Some(c) => decode_sync_committee::<N>(c)?,
            None => {
                return Err(Error::MissingField(Field::SyncCommittee));
            },
        };
        Ok(TrustedSyncCommittee { height, sync_committee, is_next: value.is_next })
    }

    /// Encodes a trusted committee.
    pub fn to_proto(&self) -> (r: ProtoTrustedSyncCommittee)
        ensures
            r.trusted_height == Some(
                ProtoHeight {
                    revision_number: self.height.revision_number,
                    revision_height: self.height.revision_height,
                },
            ),
            r.sync_committee matches Some(c) && byte_seqs(c.pubkeys@) == self@.1.0
                && c.aggregate_pubkey@ == self@.1.1,
            r.is_next == self.is_next,
    {
        ProtoTrustedSyncCommittee {
            trusted_height: Some(
                ProtoHeight {
                    revision_number: self.height.revision_number(),
                    revision_height: self.height.revision_height(),
                },
            ),
            sync_committee: Some(encode_sync_committee(&self.sync_committee)),
            is_next: self.is_next,
        }
    }
}

/// Encoding a well-formed trusted committee and decoding the result gives it back.
pub proof fn lemma_trusted_sync_committee_round_trip<const N: usize>(
    t: TrustedSyncCommittee<N>,
    w: ProtoTrustedSyncCommittee,
)
    requires
        t.wf(),
        w.trusted_height == Some(
            ProtoHeight {
                revision_number: t.height.revision_number,
                revision_height: t.height.revision_height,
            },
        ),
        w.sync_committee matches Some(c) && byte_seqs(c.pubkeys@) == t@.1.0
            && c.aggregate_pubkey@ == t@.1.1,
        w.is_next == t.is_next,
    ensures
        TrustedSyncCommittee::<N>::of_wire(w) == Ok::<TrustedView, Error>(t@),
{
}

} // verus!
