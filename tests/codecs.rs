use ethereum_ibc_types::account::{decode_account_proof, encode_account_proof, AccountUpdateInfo};
use ethereum_ibc_types::consensus::{
    convert_consensus_update_to_proto, convert_proto_to_consensus_update, ConsensusUpdateInfo,
};
use ethereum_ibc_types::error::{Error, Field};
use ethereum_ibc_types::execution::{
    convert_execution_update_to_proto, convert_proto_to_execution_update,
};
use ethereum_ibc_types::header::{convert_header_to_proto, convert_proto_to_header};
use ethereum_ibc_types::primitives::{decode_branch, encode_branch, H256};
use ethereum_ibc_types::sync::{
    convert_proto_sync_aggregate, convert_sync_aggregate_to_proto, decode_sync_committee,
};
use ethereum_ibc_types::trusted::{Height, TrustedSyncCommittee, ETHEREUM_CLIENT_REVISION_NUMBER};
use ethereum_ibc_types::wire::{
    ProtoAccountUpdate, ProtoBeaconBlockHeader, ProtoConsensusUpdate, ProtoExecutionUpdate,
    ProtoHeight, ProtoSyncAggregate, ProtoSyncCommittee, ProtoTrustedSyncCommittee,
};

fn wire_header(slot: u64) -> ProtoBeaconBlockHeader {
    ProtoBeaconBlockHeader {
        slot,
        proposer_index: 7,
        parent_root: vec![1u8; 32],
        state_root: vec![2u8; 32],
        body_root: vec![3u8; 32],
    }
}

fn wire_committee(n: usize) -> ProtoSyncCommittee {
    ProtoSyncCommittee {
        pubkeys: (0..n).map(|i| vec![i as u8; 48]).collect(),
        aggregate_pubkey: vec![0xaa; 48],
    }
}

fn wire_update(bits: Vec<u8>) -> ProtoConsensusUpdate {
    ProtoConsensusUpdate {
        attested_header: Some(wire_header(100)),
        next_sync_committee: None,
        next_sync_committee_branch: vec![],
        finalized_header: Some(wire_header(99)),
        finalized_header_branch: vec![vec![4u8; 32], vec![5u8; 32]],
        finalized_execution_root: vec![6u8; 32],
        finalized_execution_branch: vec![vec![7u8; 32]],
        sync_aggregate: Some(ProtoSyncAggregate {
            sync_committee_bits: bits,
            sync_committee_signature: vec![0u8; 96],
        }),
        signature_slot: 101,
    }
}

#[test]
fn end_to_end_zero_bitmap_update() {
    let update = convert_proto_to_consensus_update::<512>(wire_update(vec![0u8; 64])).unwrap();
    assert!(update.next_sync_committee().is_none());
    assert!(update.next_sync_committee_branch().is_none());
    assert_eq!(update.attested_beacon_header().slot, 100);
    assert_eq!(update.finalized_beacon_header().slot, 99);
    let bits = &update.sync_aggregate().sync_committee_bits;
    assert_eq!(bits.len(), 512);
    assert!(bits.iter().all(|b| !*b));
    assert_eq!(update.signature_slot(), 101);
    assert_eq!(update.finalized_execution_root().bytes, vec![6u8; 32]);
    assert_eq!(update.finalized_beacon_header_branch().len(), 2);
    assert_eq!(update.finalized_execution_branch().len(), 1);
}

#[test]
fn committee_with_no_keys_collapses_to_absent() {
    let mut w = wire_update(vec![0u8]);
    w.next_sync_committee = Some(ProtoSyncCommittee { pubkeys: vec![], aggregate_pubkey: vec![0xaa; 48] });
    w.next_sync_committee_branch = vec![vec![8u8; 32]];
    let update = convert_proto_to_consensus_update::<2>(w).unwrap();
    assert!(update.next_sync_committee.is_none());
}

#[test]
fn committee_with_empty_branch_collapses_to_absent() {
    let mut w = wire_update(vec![0u8]);
    w.next_sync_committee = Some(wire_committee(2));
    let update = convert_proto_to_consensus_update::<2>(w).unwrap();
    assert!(update.next_sync_committee.is_none());
}

#[test]
fn committee_absent_with_branch_collapses_to_absent() {
    let mut w = wire_update(vec![0u8]);
    w.next_sync_committee_branch = vec![vec![8u8; 32]];
    let update = convert_proto_to_consensus_update::<2>(w).unwrap();
    assert!(update.next_sync_committee.is_none());
}

#[test]
fn committee_with_keys_and_branch_is_kept() {
    let mut w = wire_update(vec![0b10]);
    w.next_sync_committee = Some(wire_committee(2));
    w.next_sync_committee_branch = vec![vec![8u8; 32]];
    let update = convert_proto_to_consensus_update::<2>(w).unwrap();
    let committee = update.next_sync_committee().unwrap();
    assert_eq!(committee.pubkeys.len(), 2);
    assert_eq!(committee.pubkeys[1].bytes, vec![1u8; 48]);
    assert_eq!(update.next_sync_committee_branch().unwrap()[0].bytes, vec![8u8; 32]);
    assert_eq!(update.sync_aggregate.sync_committee_bits, vec![false, true]);
}

#[test]
fn committee_of_wrong_size_is_refused() {
    let mut w = wire_update(vec![0u8]);
    w.next_sync_committee = Some(wire_committee(3));
    w.next_sync_committee_branch = vec![vec![8u8; 32]];
    let r = convert_proto_to_consensus_update::<2>(w);
    assert_eq!(r, Err(Error::BadSyncCommitteeSize { expected: 2, got: 3 }));
}

#[test]
fn malformed_committee_key_is_refused() {
    let mut w = wire_update(vec![0u8]);
    let mut c = wire_committee(2);
    c.pubkeys[0] = vec![1u8; 47];
    w.next_sync_committee = Some(c);
    w.next_sync_committee_branch = vec![vec![8u8; 32]];
    assert_eq!(convert_proto_to_consensus_update::<2>(w), Err(Error::BadPublicKey));
}

#[test]
fn missing_attested_header_is_named() {
    let mut w = wire_update(vec![0u8]);
    w.attested_header = None;
    let r = convert_proto_to_consensus_update::<2>(w);
    assert_eq!(r, Err(Error::MissingField(Field::AttestedHeader)));
    assert_eq!(Field::AttestedHeader.name(), "attested_header");
}

#[test]
fn missing_finalized_header_is_named() {
    let mut w = wire_update(vec![0u8]);
    w.finalized_header = None;
    let r = convert_proto_to_consensus_update::<2>(w);
    assert_eq!(r, Err(Error::MissingField(Field::FinalizedHeader)));
}

#[test]
fn missing_sync_aggregate_is_named() {
    let mut w = wire_update(vec![0u8]);
    w.sync_aggregate = None;
    let r = convert_proto_to_consensus_update::<2>(w);
    assert_eq!(r, Err(Error::MissingField(Field::SyncAggregate)));
}

#[test]
fn short_bitmap_is_refused_with_size_and_bytes() {
    let r = convert_proto_to_consensus_update::<512>(wire_update(vec![0u8; 63]));
    assert_eq!(r, Err(Error::BadBitVector { expected_size: 512, received_bytes: vec![0u8; 63] }));
}

#[test]
fn long_bitmap_is_refused() {
    let a = ProtoSyncAggregate { sync_committee_bits: vec![0u8; 3], sync_committee_signature: vec![0u8; 96] };
    let r = convert_proto_sync_aggregate::<12>(a);
    assert_eq!(r, Err(Error::BadBitVector { expected_size: 12, received_bytes: vec![0u8; 3] }));
}

#[test]
fn bitmap_with_padding_bits_set_is_refused() {
    let a = ProtoSyncAggregate { sync_committee_bits: vec![0x10], sync_committee_signature: vec![0u8; 96] };
    let r = convert_proto_sync_aggregate::<4>(a);
    assert_eq!(r, Err(Error::BadBitVector { expected_size: 4, received_bytes: vec![0x10] }));
}

#[test]
fn bitmap_bits_are_little_endian() {
    let a = ProtoSyncAggregate { sync_committee_bits: vec![24, 1], sync_committee_signature: vec![9u8; 96] };
    let agg = convert_proto_sync_aggregate::<12>(a).unwrap();
    let set: Vec<usize> = (0..12).filter(|i| agg.sync_committee_bits[*i]).collect();
    assert_eq!(set, vec![3, 4, 8]);
    let back = convert_sync_aggregate_to_proto(&agg);
    assert_eq!(back.sync_committee_bits, vec![24, 1]);
    assert_eq!(back.sync_committee_signature, vec![9u8; 96]);
}

#[test]
fn bad_signature_is_refused() {
    let a = ProtoSyncAggregate { sync_committee_bits: vec![0], sync_committee_signature: vec![0u8; 95] };
    assert_eq!(convert_proto_sync_aggregate::<8>(a), Err(Error::BadSignature));
}

#[test]
fn consensus_update_round_trip() {
    let mut w = wire_update(vec![0b01]);
    w.next_sync_committee = Some(wire_committee(2));
    w.next_sync_committee_branch = vec![vec![8u8; 32], vec![9u8; 32]];
    let update = convert_proto_to_consensus_update::<2>(w.clone()).unwrap();
    let encoded = convert_consensus_update_to_proto(&update);
    assert_eq!(encoded, w);
    let again = convert_proto_to_consensus_update::<2>(encoded).unwrap();
    assert_eq!(again, update);
}

#[test]
fn consensus_update_without_committee_round_trip() {
    let w = wire_update(vec![0u8; 64]);
    let update = convert_proto_to_consensus_update::<512>(w.clone()).unwrap();
    assert_eq!(convert_consensus_update_to_proto(&update), w);
}

#[test]
fn header_round_trip_and_bad_root() {
    let h = convert_proto_to_header(&wire_header(5)).unwrap();
    assert_eq!(h.state_root.bytes, vec![2u8; 32]);
    assert_eq!(convert_header_to_proto(&h), wire_header(5));
    let mut bad = wire_header(5);
    bad.body_root = vec![3u8; 31];
    assert_eq!(convert_proto_to_header(&bad), Err(Error::BadHash));
}

#[test]
fn branch_codec() {
    let b = decode_branch(vec![vec![1u8; 32], vec![2u8; 32]]).unwrap();
    assert_eq!(b, vec![H256 { bytes: vec![1u8; 32] }, H256 { bytes: vec![2u8; 32] }]);
    assert_eq!(encode_branch(&b), vec![vec![1u8; 32], vec![2u8; 32]]);
    assert_eq!(decode_branch(vec![vec![1u8; 32], vec![2u8; 33]]), Err(Error::BadHash));
    assert_eq!(decode_branch(vec![]), Ok(vec![]));
}

#[test]
fn execution_update_round_trip() {
    let w = ProtoExecutionUpdate {
        state_root: vec![1u8; 32],
        state_root_branch: vec![vec![2u8; 32], vec![3u8; 32]],
        block_number: 12345,
        block_number_branch: vec![vec![4u8; 32]],
    };
    let e = convert_proto_to_execution_update(w.clone()).unwrap();
    assert_eq!(e.block_number(), 12345);
    assert_eq!(e.state_root().bytes, vec![1u8; 32]);
    assert_eq!(e.state_root_branch().len(), 2);
    assert_eq!(e.block_number_branch()[0].bytes, vec![4u8; 32]);
    assert_eq!(convert_execution_update_to_proto(&e), w);
    let mut bad = w;
    bad.state_root_branch[1] = vec![];
    assert_eq!(convert_proto_to_execution_update(bad), Err(Error::BadHash));
}

fn wire_trusted(revision_number: u64, revision_height: u64, n: usize) -> ProtoTrustedSyncCommittee {
    ProtoTrustedSyncCommittee {
        trusted_height: Some(ProtoHeight { revision_number, revision_height }),
        sync_committee: Some(wire_committee(n)),
        is_next: true,
    }
}

#[test]
fn trusted_committee_round_trip_and_validation() {
    let w = wire_trusted(ETHEREUM_CLIENT_REVISION_NUMBER, 10, 4);
    let t = TrustedSyncCommittee::<4>::from_proto(w.clone()).unwrap();
    assert_eq!(t.height, Height { revision_number: 0, revision_height: 10 });
    assert!(t.is_next);
    assert_eq!(t.validate(), Ok(()));
    assert_eq!(t.to_proto(), w);
}

#[test]
fn trusted_committee_with_other_revision_is_refused() {
    for revision_height in [1u64, 10, u64::MAX] {
        let t = TrustedSyncCommittee::<4>::from_proto(wire_trusted(1, revision_height, 4)).unwrap();
        assert_eq!(t.validate(), Err(Error::UnexpectedHeightRevisionNumber { expected: 0, got: 1 }));
    }
}

#[test]
fn trusted_committee_decode_errors() {
    let mut w = wire_trusted(0, 10, 4);
    w.trusted_height = None;
    assert_eq!(TrustedSyncCommittee::<4>::from_proto(w), Err(Error::MissingField(Field::TrustedHeight)));
    let mut w = wire_trusted(0, 10, 4);
    w.sync_committee = None;
    assert_eq!(TrustedSyncCommittee::<4>::from_proto(w), Err(Error::MissingField(Field::SyncCommittee)));
    assert_eq!(
        TrustedSyncCommittee::<4>::from_proto(wire_trusted(0, 0, 4)),
        Err(Error::InvalidHeight { revision_number: 0, revision_height: 0 })
    );
    assert_eq!(
        TrustedSyncCommittee::<4>::from_proto(wire_trusted(0, 3, 5)),
        Err(Error::BadSyncCommitteeSize { expected: 4, got: 5 })
    );
}

#[test]
fn empty_trusted_committee_fails_validation() {
    let mut t = TrustedSyncCommittee::<4>::from_proto(wire_trusted(0, 10, 4)).unwrap();
    t.sync_committee.pubkeys.clear();
    assert_eq!(t.validate(), Err(Error::EmptySyncCommittee));
    let c = decode_sync_committee::<4>(&wire_committee(4)).unwrap();
    assert_eq!(c.validate(), Ok(()));
}

#[test]
fn account_proof_encodes_nodes_raw() {
    let cat = vec![0x83, b'c', b'a', b't'];
    let dog = vec![0x83, b'd', b'o', b'g'];
    let encoded = encode_account_proof(vec![cat.clone(), dog.clone()]);
    assert_eq!(encoded, vec![0xc8, 0x83, b'c', b'a', b't', 0x83, b'd', b'o', b'g']);
    assert_eq!(decode_account_proof(&encoded), Ok(vec![cat, dog]));
}

#[test]
fn empty_account_proof() {
    assert_eq!(encode_account_proof(vec![]), vec![0xc0]);
    assert_eq!(decode_account_proof(&vec![0xc0]), Ok(vec![]));
}

#[test]
fn long_account_proof_round_trip() {
    let mut node = vec![0xb8, 58];
    node.extend(std::iter::repeat(7u8).take(58));
    let list = vec![0xc2, 0x80, 0x80];
    let nodes = vec![node.clone(), list.clone(), node.clone()];
    let encoded = encode_account_proof(nodes.clone());
    assert_eq!(&encoded[..3], &[0xf8, 123, 0xb8]);
    assert_eq!(encoded.len(), 2 + 123);
    assert_eq!(decode_account_proof(&encoded), Ok(nodes));
}

#[test]
fn account_proof_that_is_not_a_list_is_refused() {
    assert_eq!(decode_account_proof(&vec![0x83, b'c', b'a', b't']), Err(Error::BadRlp));
    assert_eq!(decode_account_proof(&vec![]), Err(Error::BadRlp));
}

#[test]
fn account_update_round_trip() {
    let a = AccountUpdateInfo {
        account_proof: vec![vec![0x80], vec![0xc1, 0x80]],
        account_storage_root: H256 { bytes: vec![5u8; 32] },
    };
    let w = a.to_proto();
    assert_eq!(w.account_proof, vec![0xc3, 0x80, 0xc1, 0x80]);
    assert_eq!(AccountUpdateInfo::from_proto(&w), Ok(a));
    let bad = ProtoAccountUpdate { account_proof: vec![0xc0], account_storage_root: vec![1u8; 3] };
    assert_eq!(AccountUpdateInfo::from_proto(&bad), Err(Error::BadHash));
}

#[test]
fn height_zero_is_no_height() {
    assert_eq!(Height::new(0, 0), Err(Error::InvalidHeight { revision_number: 0, revision_height: 0 }));
    let h = Height::new(2, 9).unwrap();
    assert_eq!((h.revision_number(), h.revision_height()), (2, 9));
}

#[test]
fn aggregate_of_eight_clear_bits() {
    let w = wire_update(vec![0u8]);
    let update: ConsensusUpdateInfo<8> = convert_proto_to_consensus_update(w).unwrap();
    assert_eq!(update.sync_aggregate.sync_committee_bits, vec![false; 8]);
}
