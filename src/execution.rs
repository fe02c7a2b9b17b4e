//! The execution-payload part of an update: state root and block number with their branches.
use vstd::prelude::*;
use crate::error::Error;
use crate::primitives::{
    branch_view, copy_branch, decode_branch, encode_branch, is_wire_branch, H256, HASH_LEN,
};
use crate::wire::{byte_seqs, ProtoExecutionUpdate};

verus! {

#[derive(Clone, Debug, PartialEq, Eq)]
pub struct ExecutionUpdateInfo {
    /// State root of the execution payload
    pub state_root: H256,
    /// Branch from the state root up to the execution payload's root
    pub state_root_branch: Vec<H256>,
    /// Block number of the execution payload
    pub block_number: u64,
    /// Branch from the block number up to the execution payload's root
    pub block_number_branch: Vec<H256>,
}

/// An execution update as plain values: state root, its branch, block number, its branch.
pub type ExecutionView = (Seq<u8>, Seq<Seq<u8>>, u64, Seq<Seq<u8>>);

impl View for ExecutionUpdateInfo {
    type V = ExecutionView;

    open spec fn view(&self) -> ExecutionView {
        (
            self.state_root@,
            branch_view(self.state_root_branch@),
            self.block_number,
            branch_view(self.block_number_branch@),
        )
    }
}

/// All hashes of an execution update are 32 bytes long.
pub open spec fn execution_view_wf(v: ExecutionView) -> bool {
    v.0.len() == HASH_LEN && is_wire_branch(v.1) && is_wire_branch(v.3)
}

/// The execution update that a wire message stands for, if all its hashes are 32 bytes.
pub open spec fn execution_update_of_wire(e: ProtoExecutionUpdate) -> Option<ExecutionView> {
    let v = (
        e.state_root@,
        byte_seqs(e.state_root_branch@),
        e.block_number,
        byte_seqs(e.block_number_branch@),
    );
    if execution_view_wf(v) {
        Some(v)
    } else {
        None
    }
}

impl ExecutionUpdateInfo {
    pub open spec fn wf(&self) -> bool {
        execution_view_wf(self@)
    }

    pub fn state_root(&self) -> (r: H256)
        ensures
            r@ == self.state_root@,
    {
        H256 { bytes: self.state_root.to_vec() }
    }

    pub fn state_root_branch(&self) -> (r: Vec<H256>)
        ensures
            branch_view(r@) == self@.1,
    {
        copy_branch(&self.state_root_branch)
    }

    pub fn block_number(&self) -> (r: u64)
        ensures
            r == self.block_number,
    {
        self.block_number
    }

    pub fn block_number_branch(&self) -> (r: Vec<H256>)
        ensures
            branch_view(r@) == self@.3,
    {
        copy_branch(&self.block_number_branch)
    }
}

/// Decodes a wire execution update; fails on a hash that is not 32 bytes long.
pub fn convert_proto_to_execution_update(execution_update: ProtoExecutionUpdate) -> (r: Result<
    ExecutionUpdateInfo,
    Error,
>)
    ensures
        execution_update_of_wire(execution_update) matches Some(v) ==> (r matches Ok(x) && x@ == v),
        execution_update_of_wire(execution_update) is None ==> r == Err::<
            ExecutionUpdateInfo,
            Error,
        >(Error::BadHash),
{
    let state_root = H256::from_slice(&execution_update.state_root)?;
    let state_root_branch = decode_branch(execution_update.state_root_branch)?;
    let block_number_branch = decode_branch(execution_update.block_number_branch)?;
    Ok(
        ExecutionUpdateInfo {
            state_root,
            state_root_branch,
            block_number: execution_update.block_number,
            block_number_branch,
        },
    )
}

/// Encodes an execution update field by field.
pub fn convert_execution_update_to_proto(execution_update: &ExecutionUpdateInfo) -> (r:
    ProtoExecutionUpdate)
    ensures
        r.state_root@ == execution_update@.0,
        byte_seqs(r.state_root_branch@) == execution_update@.1,
        r.block_number == execution_update@.2,
        byte_seqs(r.block_number_branch@) == execution_update@.3,
{
    ProtoExecutionUpdate {
        state_root: execution_update.state_root.to_vec(),
        state_root_branch: encode_branch(&execution_update.state_root_branch),
        block_number: execution_update.block_number,
        block_number_branch: encode_branch(&execution_update.block_number_branch),
    }
}

/// Encoding an execution update whose hashes are 32 bytes long and decoding the
/// result gives the update back.
pub proof fn lemma_execution_update_round_trip(u: ExecutionUpdateInfo, w: ProtoExecutionUpdate)
    requires
        u.wf(),
        w.state_root@ == u@.0,
        byte_seqs(w.state_root_branch@) == u@.1,
        w.block_number == u@.2,
        byte_seqs(w.block_number_branch@) == u@.3,
    ensures
        execution_update_of_wire(w) == Some(u@),
{
}

} // verus!
