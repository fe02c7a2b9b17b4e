//! Beacon block headers and their wire form.
use vstd::prelude::*;
use crate::error::Error;
use crate::primitives::{H256, HASH_LEN};
use crate::wire::ProtoBeaconBlockHeader;

verus! {

#[derive(Clone, Debug, PartialEq, Eq)]
pub struct BeaconBlockHeader {
    pub slot: u64,
    pub proposer_index: u64,
    pub parent_root: H256,
    pub state_root: H256,
    pub body_root: H256,
}

/// A header as plain values: slot, proposer index, parent, state and body roots.
pub type HeaderView = (u64, u64, Seq<u8>, Seq<u8>, Seq<u8>);

impl View for BeaconBlockHeader {
    type V = HeaderView;

    open spec fn view(&self) -> HeaderView {
        (self.slot, self.proposer_index, self.parent_root@, self.state_root@, self.body_root@)
    }
}

impl BeaconBlockHeader {
    pub open spec fn wf(&self) -> bool {
        self.parent_root.wf() && self.state_root.wf() && self.body_root.wf()
    }
}

/// The header that a wire header stands for, if its three roots are 32 bytes each.
pub open spec fn header_of_wire(h: ProtoBeaconBlockHeader) -> Option<HeaderView> {
    if h.parent_root@.len() == HASH_LEN && h.state_root@.len() == HASH_LEN
        && h.body_root@.len() == HASH_LEN {
        Some((h.slot, h.proposer_index, h.parent_root@, h.state_root@, h.body_root@))
    } else {
        None
    }
}

/// Decodes a wire header; fails on a root that is not 32 bytes long.
pub fn convert_proto_to_header(header: &ProtoBeaconBlockHeader) -> (r: Result<
    BeaconBlockHeader,
    Error,
>)
    ensures
        header_of_wire(*header) matches Some(v) ==> (r matches Ok(h) && h@ == v && h.wf()),
        header_of_wire(*header) is None ==> r == Err::<BeaconBlockHeader, Error>(Error::BadHash),
{
    let parent_root = H256::from_slice(&header.parent_root)?;
    let state_root = H256::from_slice(&header.state_root)?;
    let body_root = H256::from_slice(&header.body_root)?;
    Ok(BeaconBlockHeader {
        slot: header.slot,
        proposer_index: header.proposer_index,
        parent_root,
        state_root,
        body_root,
    })
}

/// Encodes a header field by field.
pub fn convert_header_to_proto(header: &BeaconBlockHeader) -> (r: ProtoBeaconBlockHeader)
    requires
        header.wf(),
    ensures
        header_of_wire(r) == Some(header@),
{
    ProtoBeaconBlockHeader {
        slot: header.slot,
        proposer_index: header.proposer_index,
        parent_root: header.parent_root.to_vec(),
        state_root: header.state_root.to_vec(),
        body_root: header.body_root.to_vec(),
    }
}

} // verus!
