//! Fixed-width byte values (hashes, BLS keys and signatures) and the branch codec.
use vstd::prelude::*;
use crate::error::Error;
use crate::wire::byte_seqs;

verus! {

pub const HASH_LEN: usize = 32;
pub const PUBLIC_KEY_LEN: usize = 48;
pub const SIGNATURE_LEN: usize = 96;

/// A copy of a byte string.
fn copy_bytes(b: &Vec<u8>) -> (r: Vec<u8>)
    ensures
        r@ == b@,
{
    let r = b.clone();
    assert(r@ =~= b@);
    r
}

/// A 32-byte hash.
#[derive(Clone, Debug, PartialEq, Eq)]
pub struct H256 {
    pub bytes: Vec<u8>,
}

impl View for H256 {
    type V = Seq<u8>;

    open spec fn view(&self) -> Seq<u8> {
        self.bytes@
    }
}

impl H256 {
    pub open spec fn wf(&self) -> bool {
        self@.len() == HASH_LEN
    }

    /// The hash held by exactly 32 bytes.
    pub fn from_slice(b: &Vec<u8>) -> (r: Result<H256, Error>)
        ensures
            b@.len() == HASH_LEN ==> (r matches Ok(h) && h@ == b@),
            b@.len() != HASH_LEN ==> r == Err::<H256, Error>(Error::BadHash),
    {
        if b.len() == HASH_LEN {
            Ok(H256 { bytes: copy_bytes(b) })
        } else {
            Err(Error::BadHash)
        }
    }

    pub fn to_vec(&self) -> (r: Vec<u8>)
        ensures
            r@ == self@,
    {
        copy_bytes(&self.bytes)
    }
}

/// A BLS public key in its 48-byte compressed form.
#[derive(Clone, Debug, PartialEq, Eq)]
pub struct PublicKey {
    pub bytes: Vec<u8>,
}

impl View for PublicKey {
    type V = Seq<u8>;

    open spec fn view(&self) -> Seq<u8> {
        self.bytes@
    }
}

impl PublicKey {
    pub open spec fn wf(&self) -> bool {
        self@.len() == PUBLIC_KEY_LEN
    }

    pub fn from_slice(b: &Vec<u8>) -> (r: Result<PublicKey, Error>)
        ensures
            b@.len() == PUBLIC_KEY_LEN ==> (r matches Ok(k) && k@ == b@),
            b@.len() != PUBLIC_KEY_LEN ==> r == Err::<PublicKey, Error>(Error::BadPublicKey),
    {
        if b.len() == PUBLIC_KEY_LEN {
            Ok(PublicKey { bytes: copy_bytes(b) })
        } else {
            Err(Error::BadPublicKey)
        }
    }

    pub fn to_vec(&self) -> (r: Vec<u8>)
        ensures
            r@ == self@,
    {
        copy_bytes(&self.bytes)
    }
}

/// A BLS signature in its 96-byte compressed form.
#[derive(Clone, Debug, PartialEq, Eq)]
pub struct Signature {
    pub bytes: Vec<u8>,
}

impl View for Signature {
    type V = Seq<u8>;

    open spec fn view(&self) -> Seq<u8> {
        self.bytes@
    }
}

impl Signature {
    pub open spec fn wf(&self) -> bool {
        self@.len() == SIGNATURE_LEN
    }

    pub fn from_slice(b: &Vec<u8>) -> (r: Result<Signature, Error>)
        ensures
            b@.len() == SIGNATURE_LEN ==> (r matches Ok(s) && s@ == b@),
            b@.len() != SIGNATURE_LEN ==> r == Err::<Signature, Error>(Error::BadSignature),
    {
        if b.len() == SIGNATURE_LEN {
            Ok(Signature { bytes: copy_bytes(b) })
        } else {
            Err(Error::BadSignature)
        }
    }

    pub fn to_vec(&self) -> (r: Vec<u8>)
        ensures
            r@ == self@,
    {
        copy_bytes(&self.bytes)
    }
}

/// The contents of a sequence of hashes.
pub open spec fn branch_view(b: Seq<H256>) -> Seq<Seq<u8>> {
    b.map_values(|h: H256| h@)
}

/// Every hash of a branch is 32 bytes long.
pub open spec fn branch_wf(b: Seq<H256>) -> bool {
    forall|i: int| 0 <= i < b.len() ==> (#[trigger] b[i]).wf()
}

/// Every byte string of a wire branch is 32 bytes long.
pub open spec fn is_wire_branch(bz: Seq<Seq<u8>>) -> bool {
    forall|i: int| 0 <= i < bz.len() ==> (#[trigger] bz[i]).len() == HASH_LEN
}

/// Decodes a wire branch: each byte string must be exactly one 32-byte hash.
pub fn decode_branch(bz: Vec<Vec<u8>>) -> (r: Result<Vec<H256>, Error>)
    ensures
        is_wire_branch(byte_seqs(bz@)) ==> (r matches Ok(b) && branch_view(b@) == byte_seqs(bz@)),
        !is_wire_branch(byte_seqs(bz@)) ==> r == Err::<Vec<H256>, Error>(Error::BadHash),
{
    let mut out: Vec<H256> = Vec::new();
    let mut i: usize = 0;
    while i < bz.len()
        invariant
            i <= bz@.len(),
            out@.len() == i,
            forall|j: int| 0 <= j < i ==> (#[trigger] out@[j])@ == bz@[j]@,
            forall|j: int| 0 <= j < i ==> (#[trigger] bz@[j])@.len() == HASH_LEN,
        decreases bz@.len() - i,
    {
        match H256::from_slice(&bz[i]) {
            Ok(h) => out.push(h),
            Err(e) => {
                assert(byte_seqs(bz@)[i as int].len() != HASH_LEN);
                return Err(e);
            },
        }
        i += 1;
    }
    assert(branch_view(out@) =~= byte_seqs(bz@));
    assert(is_wire_branch(byte_seqs(bz@)));
    Ok(out)
}

/// Encodes a branch as one 32-byte string per hash.
pub fn encode_branch(b: &Vec<H256>) -> (r: Vec<Vec<u8>>)
    ensures
        byte_seqs(r@) == branch_view(b@),
{
    let mut out: Vec<Vec<u8>> = Vec::new();
    let mut i: usize = 0;
    while i < b.len()
        invariant
            i <= b@.len(),
            out@.len() == i,
            forall|j: int| 0 <= j < i ==> (#[trigger] out@[j])@ == b@[j]@,
        decreases b@.len() - i,
    {
        out.push(b[i].to_vec());
        i += 1;
    }
    assert(byte_seqs(out@) =~= branch_view(b@));
    out
}

} // verus!

verus! {

/// A copy of a branch.
pub fn copy_branch(b: &Vec<H256>) -> (r: Vec<H256>)
    ensures
        branch_view(r@) == branch_view(b@),
{
    let mut out: Vec<H256> = Vec::new();
    let mut i: usize = 0;
    while i < b.len()
        invariant
            i <= b@.len(),
            out@.len() == i,
            forall|j: int| 0 <= j < i ==> (#[trigger] out@[j])@ == b@[j]@,
        decreases b@.len() - i,
    {
        out.push(H256 { bytes: b[i].to_vec() });
        i += 1;
    }
    assert(branch_view(out@) =~= branch_view(b@));
    out
}

} // verus!
