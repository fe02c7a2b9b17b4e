//! Sync committees and sync aggregates, sized by the committee size `N`.
use vstd::prelude::*;
use crate::bits::{bit_at, bitvector_from_bytes, bitvector_to_bytes, is_bitvector_encoding};
use crate::error::Error;
use crate::primitives::{PublicKey, Signature, PUBLIC_KEY_LEN, SIGNATURE_LEN};
use crate::wire::{byte_seqs, ProtoSyncAggregate, ProtoSyncCommittee};

verus! {

#[derive(Clone, Debug, PartialEq, Eq)]
pub struct SyncCommittee<const N: usize> {
    pub pubkeys: Vec<PublicKey>,
    pub aggregate_pubkey: PublicKey,
}

/// A committee as plain values: its member keys and its aggregate key.
pub type CommitteeView = (Seq<Seq<u8>>, Seq<u8>);

/// The contents of a list of keys.
pub open spec fn keys_view(k: Seq<PublicKey>) -> Seq<Seq<u8>> {
    k.map_values(|p: PublicKey| p@)
}

/// Every byte string of a wire key list is 48 bytes long.
pub open spec fn is_wire_key_list(k: Seq<Seq<u8>>) -> bool {
    forall|i: int| 0 <= i < k.len() ==> (#[trigger] k[i]).len() == PUBLIC_KEY_LEN
}

impl<const N: usize> View for SyncCommittee<N> {
    type V = CommitteeView;

    open spec fn view(&self) -> CommitteeView {
        (keys_view(self.pubkeys@), self.aggregate_pubkey@)
    }
}

/// A committee of `N` well-formed member keys and a well-formed aggregate key.
pub open spec fn committee_view_wf(n: int, c: CommitteeView) -> bool {
    &&& c.0.len() == n
    &&& is_wire_key_list(c.0)
    &&& c.1.len() == PUBLIC_KEY_LEN
}

impl<const N: usize> SyncCommittee<N> {
    pub open spec fn wf(&self) -> bool {
        committee_view_wf(N as int, self@)
    }

    /// What checking the committee gives: no keys, a count other than `N`, then a
    /// malformed key, are refused in that order.
    pub open spec fn check(&self) -> Result<(), Error> {
        if self.pubkeys@.len() == 0 {
            Err(Error::EmptySyncCommittee)
        } else if self.pubkeys@.len() != N {
            Err(Error::BadSyncCommitteeSize { expected: N, got: self.pubkeys@.len() as usize })
        } else if !self.wf() {
            Err(Error::BadPublicKey)
        } else {
            Ok(())
        }
    }

    /// Checks the committee: some keys, exactly `N` of them, each and the aggregate
    /// key of the right width.
    pub fn validate(&self) -> (r: Result<(), Error>)
        ensures
            r == self.check(),
            r is Ok <==> N != 0 && self.wf(),
    {
        if self.pubkeys.len() == 0 {
            return Err(Error::EmptySyncCommittee);
        }
        if self.pubkeys.len() != N {
            return Err(Error::BadSyncCommitteeSize { expected: N, got: self.pubkeys.len() });
        }
        let mut i: usize = 0;
        while i < self.pubkeys.len()
            invariant
                i <= self.pubkeys@.len(),
                self.pubkeys@.len() == N,
                N != 0,
                forall|j: int| 0 <= j < i ==> (#[trigger] self.pubkeys@[j])@.len() == PUBLIC_KEY_LEN,
            decreases self.pubkeys@.len() - i,
        {
            if self.pubkeys[i].bytes.len() != PUBLIC_KEY_LEN {
                assert(keys_view(self.pubkeys@)[i as int].len() != PUBLIC_KEY_LEN);
                return Err(Error::BadPublicKey);
            }
            i += 1;
        }
        if self.aggregate_pubkey.bytes.len() != PUBLIC_KEY_LEN {
            return Err(Error::BadPublicKey);
        }
        assert(is_wire_key_list(keys_view(self.pubkeys@)));
        Ok(())
    }
}

/// The committee of size `n` that a wire committee stands for: keys are decoded first
/// (a malformed one fails), then their number is checked, then the aggregate key.
pub open spec fn committee_of_wire(n: usize, c: ProtoSyncCommittee) -> Result<CommitteeView, Error> {
    if !is_wire_key_list(byte_seqs(c.pubkeys@)) {
        Err(Error::BadPublicKey)
    } else if c.pubkeys@.len() != n {
        Err(Error::BadSyncCommitteeSize { expected: n, got: c.pubkeys@.len() as usize })
    } else if c.aggregate_pubkey@.len() != PUBLIC_KEY_LEN {
        Err(Error::BadPublicKey)
    } else {
        Ok((byte_seqs(c.pubkeys@), c.aggregate_pubkey@))
    }
}

/// Decodes a wire committee into a committee of `N` keys.
pub fn decode_sync_committee<const N: usize>(c: &ProtoSyncCommittee) -> (r: Result<
    SyncCommittee<N>,
    Error,
>)
    ensures
        match committee_of_wire(N, *c) {
            Ok(v) => r matches Ok(s) && s@ == v && s.wf(),
            Err(e) => r == Err::<SyncCommittee<N>, Error>(e),
        },
{
    let mut keys: Vec<PublicKey> = Vec::new();
    let mut i: usize = 0;
    while i < c.pubkeys.len()
        invariant
            i <= c.pubkeys@.len(),
            keys@.len() == i,
            forall|j: int| 0 <= j < i ==> (#[trigger] keys@[j])@ == c.pubkeys@[j]@,
            forall|j: int| 0 <= j < i ==> (#[trigger] c.pubkeys@[j])@.len() == PUBLIC_KEY_LEN,
        decreases c.pubkeys@.len() - i,
    {
        match PublicKey::from_slice(&c.pubkeys[i]) {
            Ok(k) => keys.push(k),
            Err(e) => {
                assert(byte_seqs(c.pubkeys@)[i as int].len() != PUBLIC_KEY_LEN);
                return Err(e);
            },
        }
        i += 1;
    }
    assert(is_wire_key_list(byte_seqs(c.pubkeys@)));
    assert(keys_view(keys@) =~= byte_seqs(c.pubkeys@));
    if keys.len() != N {
        return Err(Error::BadSyncCommitteeSize { expected: N, got: keys.len() });
    }
    let aggregate_pubkey = PublicKey::from_slice(&c.aggregate_pubkey)?;
    Ok(SyncCommittee { pubkeys: keys, aggregate_pubkey })
}

/// Encodes a committee as its key bytes.
pub fn encode_sync_committee<const N: usize>(c: &SyncCommittee<N>) -> (r: ProtoSyncCommittee)
    ensures
        byte_seqs(r.pubkeys@) == c@.0,
        r.aggregate_pubkey@ == c@.1,
{
    let mut pubkeys: Vec<Vec<u8>> = Vec::new();
    let mut i: usize = 0;
    while i < c.pubkeys.len()
        invariant
            i <= c.pubkeys@.len(),
            pubkeys@.len() == i,
            forall|j: int| 0 <= j < i ==> (#[trigger] pubkeys@[j])@ == c.pubkeys@[j]@,
        decreases c.pubkeys@.len() - i,
    {
        pubkeys.push(c.pubkeys[i].to_vec());
        i += 1;
    }
    assert(byte_seqs(pubkeys@) =~= keys_view(c.pubkeys@));
    ProtoSyncCommittee { pubkeys, aggregate_pubkey: c.aggregate_pubkey.to_vec() }
}

#[derive(Clone, Debug, PartialEq, Eq)]
pub struct SyncAggregate<const N: usize> {
    pub sync_committee_bits: Vec<bool>,
    pub sync_committee_signature: Signature,
}

/// An aggregate as plain values: the participation bits and the signature bytes.
pub type AggregateView = (Seq<bool>, Seq<u8>);

impl<const N: usize> View for SyncAggregate<N> {
    type V = AggregateView;

    open spec fn view(&self) -> AggregateView {
        (self.sync_committee_bits@, self.sync_committee_signature@)
    }
}

impl<const N: usize> SyncAggregate<N> {
    pub open spec fn wf(&self) -> bool {
        self.sync_committee_bits@.len() == N && self.sync_committee_signature.wf()
    }
}

/// The bits that a canonical encoding of `n` bits holds.
pub open spec fn bits_of_bytes(n: int, bytes: Seq<u8>) -> Seq<bool> {
    Seq::new(n as nat, |i: int| bit_at(bytes, i))
}

/// The aggregate of size `n` that a wire aggregate stands for: the bitmap is checked
/// first, then the signature.
pub open spec fn aggregate_of_wire(n: usize, a: ProtoSyncAggregate) -> Result<AggregateView, Error> {
    if !is_bitvector_encoding(n as int, a.sync_committee_bits@) {
        Err(Error::BadBitVector { expected_size: n, received_bytes: a.sync_committee_bits })
    } else if a.sync_committee_signature@.len() != SIGNATURE_LEN {
        Err(Error::BadSignature)
    } else {
        Ok((bits_of_bytes(n as int, a.sync_committee_bits@), a.sync_committee_signature@))
    }
}

/// Decodes a wire aggregate into an aggregate over `N` committee members.
pub fn convert_proto_sync_aggregate<const N: usize>(sync_aggregate: ProtoSyncAggregate) -> (r:
    Result<SyncAggregate<N>, Error>)
    ensures
        match aggregate_of_wire(N, sync_aggregate) {
            Ok(v) => r matches Ok(a) && a@ == v && a.wf(),
            Err(e) => r == Err::<SyncAggregate<N>, Error>(e),
        },
{
    let bits = match bitvector_from_bytes::<N>(&sync_aggregate.sync_committee_bits) {
        Some(b) => b,
        None => {
            return Err(
                Error::BadBitVector {
                    expected_size: N,
                    received_bytes: sync_aggregate.sync_committee_bits,
                },
            );
        },
    };
    let signature = Signature::from_slice(&sync_aggregate.sync_committee_signature)?;
    assert(bits@ =~= bits_of_bytes(N as int, sync_aggregate.sync_committee_bits@));
    Ok(SyncAggregate { sync_committee_bits: bits, sync_committee_signature: signature })
}

/// Encodes an aggregate; a bitmap of `N` bits needs `N > 0`.
pub fn convert_sync_aggregate_to_proto<const N: usize>(sync_aggregate: &SyncAggregate<N>) -> (r:
    ProtoSyncAggregate)
    requires
        N > 0,
        sync_aggregate.wf(),
    ensures
        aggregate_of_wire(N, r) == Ok::<AggregateView, Error>(sync_aggregate@),
{
    let bits = bitvector_to_bytes::<N>(&sync_aggregate.sync_committee_bits);
    let r = ProtoSyncAggregate {
        sync_committee_bits: bits,
        sync_committee_signature: sync_aggregate.sync_committee_signature.to_vec(),
    };
    assert(bits_of_bytes(N as int, r.sync_committee_bits@) =~= sync_aggregate@.0);
    r
}

} // verus!

verus! {

/// A wire bitmap whose length is not that of `n` bits is refused with an error that
/// names `n` and the bytes received.
pub proof fn lemma_bitmap_size_checked(n: usize, a: ProtoSyncAggregate)
    requires
        a.sync_committee_bits@.len() != crate::bits::byte_len(n as int),
    ensures
        aggregate_of_wire(n, a) == Err::<AggregateView, Error>(
            Error::BadBitVector { expected_size: n, received_bytes: a.sync_committee_bits },
        ),
{
}

} // verus!
