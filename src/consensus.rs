//! Consensus updates: attested and finalized headers, the optional next committee,
//! the sync aggregate and the finalized execution payload root.
use vstd::prelude::*;
use crate::error::{Error, Field};
use crate::header::{convert_header_to_proto, convert_proto_to_header, header_of_wire, BeaconBlockHeader, HeaderView};
use crate::primitives::{
    branch_view, copy_branch, decode_branch, encode_branch, is_wire_branch, H256, HASH_LEN,
};
use crate::sync::{
    aggregate_of_wire, committee_of_wire, committee_view_wf, convert_proto_sync_aggregate,
    convert_sync_aggregate_to_proto, decode_sync_committee, encode_sync_committee, AggregateView,
    CommitteeView, SyncAggregate, SyncCommittee,
};
use crate::wire::{byte_seqs, ProtoConsensusUpdate};

verus! {

#[derive(Debug, PartialEq, Eq)]
pub struct ConsensusUpdateInfo<const N: usize> {
    /// Header attested to by the sync committee
    pub attested_header: BeaconBlockHeader,
    /// Next sync committee contained in `attested_header.state_root`, with its branch
    pub next_sync_committee: Option<(SyncCommittee<N>, Vec<H256>)>,
    /// Finalized header contained in `attested_header.state_root`, with its branch
    pub finalized_header: (BeaconBlockHeader, Vec<H256>),
    /// Sync committee aggregate signature
    pub sync_aggregate: SyncAggregate<N>,
    /// Slot at which the aggregate signature was created (untrusted)
    pub signature_slot: u64,
    /// Execution payload contained in the finalized beacon block's body
    pub finalized_execution_root: H256,
    /// Branch from the execution payload up to the finalized block's body root
    pub finalized_execution_branch: Vec<H256>,
}

/// A consensus update as plain values.
pub struct ConsensusUpdateView {
    pub attested_header: HeaderView,
    pub next_sync_committee: Option<(CommitteeView, Seq<Seq<u8>>)>,
    pub finalized_header: (HeaderView, Seq<Seq<u8>>),
    pub sync_aggregate: AggregateView,
    pub signature_slot: u64,
    pub finalized_execution_root: Seq<u8>,
    pub finalized_execution_branch: Seq<Seq<u8>>,
}

impl<const N: usize> View for ConsensusUpdateInfo<N> {
    type V = ConsensusUpdateView;

    open spec fn view(&self) -> ConsensusUpdateView {
        ConsensusUpdateView {
            attested_header: self.attested_header@,
            next_sync_committee: match self.next_sync_committee {
                Some(c) => Some((c.0@, branch_view(c.1@))),
                None => None,
            },
            finalized_header: (self.finalized_header.0@, branch_view(self.finalized_header.1@)),
            sync_aggregate: self.sync_aggregate@,
            signature_slot: self.signature_slot,
            finalized_execution_root: self.finalized_execution_root@,
            finalized_execution_branch: branch_view(self.finalized_execution_branch@),
        }
    }
}

impl<const N: usize> ConsensusUpdateInfo<N> {
    /// Every hash, key, signature and bitmap has its width, and committees have `N` keys.
    pub open spec fn wf(&self) -> bool {
        &&& self.attested_header.wf()
        &&& match self.next_sync_committee {
            Some(c) => c.0.wf() && is_wire_branch(branch_view(c.1@)),
            None => true,
        }
        &&& self.finalized_header.0.wf()
        &&& is_wire_branch(branch_view(self.finalized_header.1@))
        &&& self.sync_aggregate.wf()
        &&& self.finalized_execution_root.wf()
        &&& is_wire_branch(branch_view(self.finalized_execution_branch@))
    }

    /// A present next committee has keys and a branch, as decoding leaves it.
    pub open spec fn is_normalized(&self) -> bool {
        self.next_sync_committee matches Some(c) ==> c.0.pubkeys@.len() > 0 && c.1@.len() > 0
    }
}

/// Whether a wire update carries a next committee: the committee is there, with
/// keys, and its branch is not empty. Any other combination stands for no committee.
pub open spec fn has_next_sync_committee(w: ProtoConsensusUpdate) -> bool {
    &&& w.next_sync_committee matches Some(c)
    &&& c.pubkeys@.len() > 0
    &&& w.next_sync_committee_branch@.len() > 0
}

/// What decoding a wire update over committees of size `n` gives, fields taken in the
/// order: attested header, finalized header, execution branch, next committee and its
/// branch, finalized header branch, sync aggregate, execution root.
pub open spec fn consensus_update_of_wire(n: usize, w: ProtoConsensusUpdate) -> Result<
    ConsensusUpdateView,
    Error,
> {
    match w.attested_header {
        None => Err(Error::MissingField(Field::AttestedHeader)),
        Some(ah) => match header_of_wire(ah) {
            None => Err(Error::BadHash),
            Some(attested) => match w.finalized_header {
                None => Err(Error::MissingField(Field::FinalizedHeader)),
                Some(fh) => match header_of_wire(fh) {
                    None => Err(Error::BadHash),
                    Some(finalized) => {
                        let next = if has_next_sync_committee(w) {
                            match committee_of_wire(n, w.next_sync_committee.unwrap()) {
                                Ok(c) => if is_wire_branch(byte_seqs(w.next_sync_committee_branch@)) {
                                    Ok(Some((c, byte_seqs(w.next_sync_committee_branch@))))
                                } else {
                                    Err(Error::BadHash)
                                },
                                Err(e) => Err(e),
                            }
                        } else {
                            Ok(None)
                        };
                        if !is_wire_branch(byte_seqs(w.finalized_execution_branch@)) {
                            Err(Error::BadHash)
                        } else if next is Err {
                            Err(next->Err_0)
                        } else if !is_wire_branch(byte_seqs(w.finalized_header_branch@)) {
                            Err(Error::BadHash)
                        } else {
                            match w.sync_aggregate {
                                None => Err(Error::MissingField(Field::SyncAggregate)),
                                Some(a) => match aggregate_of_wire(n, a) {
                                    Err(e) => Err(e),
                                    Ok(agg) => if w.finalized_execution_root@.len() != HASH_LEN {
                                        Err(Error::BadHash)
                                    } else {
                                        Ok(
                                            ConsensusUpdateView {
                                                attested_header: attested,
                                                next_sync_committee: next->Ok_0,
                                                finalized_header: (
                                                    finalized,
                                                    byte_seqs(w.finalized_header_branch@),
                                                ),
                                                sync_aggregate: agg,
                                                signature_slot: w.signature_slot,
                                                finalized_execution_root: w.finalized_execution_root@,
                                                finalized_execution_branch: byte_seqs(
                                                    w.finalized_execution_branch@,
                                                ),
                                            },
                                        )
                                    },
                                },
                            }
                        }
                    },
                },
            },
        },
    }
}

/// Decodes a wire update over committees of size `N`. It fails on a missing attested
/// header, finalized header or sync aggregate, and on any malformed field; the next
/// committee is kept only where `has_next_sync_committee` holds.
pub fn convert_proto_to_consensus_update<const N: usize>(consensus_update: ProtoConsensusUpdate) -> (r:
    Result<ConsensusUpdateInfo<N>, Error>)
    ensures
        match consensus_update_of_wire(N, consensus_update) {
            Ok(v) => r matches Ok(u) && u@ == v && u.wf() && u.is_normalized(),
            Err(e) => r == Err::<ConsensusUpdateInfo<N>, Error>(e),
        },
{
    let w = consensus_update;
    let attested_header = match &w.attested_header {
        Some(h) => convert_proto_to_header(h)?,
        None => {
            return Err(Error::MissingField(Field::AttestedHeader));
        },
    };
    let finalized_header = match &w.finalized_header {
        Some(h) => convert_proto_to_header(h)?,
        None => {
            return Err(Error::MissingField(Field::FinalizedHeader));
        },
    };
    let ghost next_spec = if has_next_sync_committee(w) {
        match committee_of_wire(N, w.next_sync_committee.unwrap()) {
            Ok(c) => if is_wire_branch(byte_seqs(w.next_sync_committee_branch@)) {
                Ok(Some((c, byte_seqs(w.next_sync_committee_branch@))))
            } else {
                Err(Error::BadHash)
            },
            Err(e) => Err(e),
        }
    } else {
        Ok(None)
    };
    let finalized_execution_branch = decode_branch(w.finalized_execution_branch)?;
    let present = match &w.next_sync_committee {
        Some(c) => c.pubkeys.len() > 0 && w.next_sync_committee_branch.len() > 0,
        None => false,
    };
    let next_sync_committee = if present {
        let committee = match &w.next_sync_committee {
            Some(c) => decode_sync_committee::<N>(c)?,
            None => {
                return Err(Error::MissingField(Field::SyncCommittee));
            },
        };
        let branch = decode_branch(w.next_sync_committee_branch)?;
        assert(committee@.0.len() == committee.pubkeys@.len());
        assert(branch_view(branch@).len() == branch@.len());
        Some((committee, branch))
    } else {
        None
    };
    let finalized_header_branch = decode_branch(w.finalized_header_branch)?;
    let sync_aggregate = match w.sync_aggregate {
        Some(a) => convert_proto_sync_aggregate::<N>(a)?,
        None => {
            return Err(Error::MissingField(Field::SyncAggregate));
        },
    };
    let finalized_execution_root = H256::from_slice(&w.finalized_execution_root)?;
    let r = ConsensusUpdateInfo {
        attested_header,
        next_sync_committee,
        finalized_header: (finalized_header, finalized_header_branch),
        sync_aggregate,
        signature_slot: w.signature_slot,
        finalized_execution_root,
        finalized_execution_branch,
    };
    assert(r@.next_sync_committee == next_spec->Ok_0);
    Ok(r)
}

/// What encoding an update over committees of size `n` produces: each field in its wire
/// form, the next committee and its branch present exactly where the update has them.
pub open spec fn encodes_consensus_update(n: usize, w: ProtoConsensusUpdate, v: ConsensusUpdateView) -> bool {
    &&& w.attested_header matches Some(h) && header_of_wire(h) == Some(v.attested_header)
    &&& match v.next_sync_committee {
        Some(c) => {
            &&& w.next_sync_committee matches Some(wc)
            &&& byte_seqs(wc.pubkeys@) == c.0.0
            &&& wc.aggregate_pubkey@ == c.0.1
            &&& byte_seqs(w.next_sync_committee_branch@) == c.1
        },
        None => w.next_sync_committee is None && w.next_sync_committee_branch@.len() == 0,
    }
    &&& w.finalized_header matches Some(h) && header_of_wire(h) == Some(v.finalized_header.0)
    &&& byte_seqs(w.finalized_header_branch@) == v.finalized_header.1
    &&& w.finalized_execution_root@ == v.finalized_execution_root
    &&& byte_seqs(w.finalized_execution_branch@) == v.finalized_execution_branch
    &&& w.sync_aggregate matches Some(a) && aggregate_of_wire(n, a) == Ok::<AggregateView, Error>(
        v.sync_aggregate,
    )
    &&& w.signature_slot == v.signature_slot
}

/// Encodes an update; its bitmap of `N` bits needs `N > 0`.
pub fn convert_consensus_update_to_proto<const N: usize>(consensus_update: &ConsensusUpdateInfo<N>) -> (r:
    ProtoConsensusUpdate)
    requires
        N > 0,
        consensus_update.wf(),
    ensures
        encodes_consensus_update(N, r, consensus_update@),
{
    let u = consensus_update;
    let (next_sync_committee, next_sync_committee_branch) = match &u.next_sync_committee {
        Some(c) => (Some(encode_sync_committee(&c.0)), encode_branch(&c.1)),
        None => (None, Vec::new()),
    };
    ProtoConsensusUpdate {
        attested_header: Some(convert_header_to_proto(&u.attested_header)),
        next_sync_committee,
        next_sync_committee_branch,
        finalized_header: Some(convert_header_to_proto(&u.finalized_header.0)),
        finalized_header_branch: encode_branch(&u.finalized_header.1),
        finalized_execution_root: u.finalized_execution_root.to_vec(),
        finalized_execution_branch: encode_branch(&u.finalized_execution_branch),
        sync_aggregate: Some(convert_sync_aggregate_to_proto(&u.sync_aggregate)),
        signature_slot: u.signature_slot,
    }
}

} // verus!

verus! {

/// Encoding a well-formed update whose next committee, if any, has keys and a branch
/// (as every decoded update does), and decoding the result, gives the update back.
pub proof fn lemma_consensus_update_round_trip<const N: usize>(
    u: ConsensusUpdateInfo<N>,
    w: ProtoConsensusUpdate,
)
    requires
        u.wf(),
        u.is_normalized(),
        encodes_consensus_update(N, w, u@),
    ensures
        consensus_update_of_wire(N, w) == Ok::<ConsensusUpdateView, Error>(u@),
{
    if let Some(c) = u.next_sync_committee {
        assert(c.0@.0.len() == c.0.pubkeys@.len());
        assert(branch_view(c.1@).len() == c.1@.len());
        assert(committee_view_wf(N as int, c.0@));
    }
}

/// A decoded update has a next committee exactly where the wire update holds a
/// committee with keys and a non-empty committee branch.
pub proof fn lemma_next_sync_committee_presence<const N: usize>(w: ProtoConsensusUpdate)
    requires
        consensus_update_of_wire(N, w) is Ok,
    ensures
        (consensus_update_of_wire(N, w)->Ok_0.next_sync_committee is Some)
            <==> has_next_sync_committee(w),
{
}

/// Decoding fails naming the attested header, the finalized header or the sync
/// aggregate when that sub-message is absent (the earlier ones being present and
/// well-formed, as fields are taken in order).
pub proof fn lemma_missing_fields<const N: usize>(w: ProtoConsensusUpdate)
    ensures
        w.attested_header is None ==> consensus_update_of_wire(N, w) == Err::<
            ConsensusUpdateView,
            Error,
        >(Error::MissingField(Field::AttestedHeader)),
        w.attested_header matches Some(h) && header_of_wire(h) is Some
            && w.finalized_header is None ==> consensus_update_of_wire(N, w) == Err::<
            ConsensusUpdateView,
            Error,
        >(Error::MissingField(Field::FinalizedHeader)),
        w.sync_aggregate is None ==> consensus_update_of_wire(N, w) is Err,
        w.attested_header matches Some(h) && header_of_wire(h) is Some
            && (w.finalized_header matches Some(f) && header_of_wire(f) is Some)
            && is_wire_branch(byte_seqs(w.finalized_execution_branch@))
            && !has_next_sync_committee(w)
            && is_wire_branch(byte_seqs(w.finalized_header_branch@))
            && w.sync_aggregate is None ==> consensus_update_of_wire(N, w) == Err::<
            ConsensusUpdateView,
            Error,
        >(Error::MissingField(Field::SyncAggregate)),
{
}

} // verus!

verus! {

impl<const N: usize> ConsensusUpdateInfo<N> {
    pub fn attested_beacon_header(&self) -> (r: &BeaconBlockHeader)
        ensures
            r == &self.attested_header,
    {
        &self.attested_header
    }

    pub fn next_sync_committee(&self) -> (r: Option<&SyncCommittee<N>>)
        ensures
            match self.next_sync_committee {
                Some(c) => r == Some(&c.0),
                None => r is None,
            },
    {
        match &self.next_sync_committee {
            Some(c) => Some(&c.0),
            None => None,
        }
    }

    pub fn next_sync_committee_branch(&self) -> (r: Option<Vec<H256>>)
        ensures
            match self.next_sync_committee {
                Some(c) => r matches Some(b) && branch_view(b@) == branch_view(c.1@),
                None => r is None,
            },
    {
        match &self.next_sync_committee {
            Some(c) => Some(copy_branch(&c.1)),
            None => None,
        }
    }

    pub fn finalized_beacon_header(&self) -> (r: &BeaconBlockHeader)
        ensures
            r == &self.finalized_header.0,
    {
        &self.finalized_header.0
    }

    pub fn finalized_beacon_header_branch(&self) -> (r: Vec<H256>)
        ensures
            branch_view(r@) == branch_view(self.finalized_header.1@),
    {
        copy_branch(&self.finalized_header.1)
    }

    pub fn finalized_execution_root(&self) -> (r: H256)
        ensures
            r@ == self.finalized_execution_root@,
    {
        H256 { bytes: self.finalized_execution_root.to_vec() }
    }

    pub fn finalized_execution_branch(&self) -> (r: Vec<H256>)
        ensures
            branch_view(r@) == branch_view(self.finalized_execution_branch@),
    {
        copy_branch(&self.finalized_execution_branch)
    }

    pub fn sync_aggregate(&self) -> (r: &SyncAggregate<N>)
        ensures
            r == &self.sync_aggregate,
    {
        &self.sync_aggregate
    }

    pub fn signature_slot(&self) -> (r: u64)
        ensures
            r == self.signature_slot,
    {
        self.signature_slot
    }
}

} // verus!
