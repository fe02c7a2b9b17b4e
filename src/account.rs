//! Account proofs (Merkle-Patricia trie proofs, EIP-1184) packed as one RLP list.
use vstd::prelude::*;
use crate::error::Error;
use crate::primitives::{H256, HASH_LEN};
use crate::wire::{byte_seqs, ProtoAccountUpdate};

verus! {

#[verifier::external_type_specification]
#[verifier::external_body]
pub struct ExRlpStream(rlp::RlpStream);

/// The bytes of a stream that are complete: everything before its open list, if any.
pub uninterp spec fn rlp_stream_done(s: rlp::RlpStream) -> Seq<u8>;

/// A stream's open list, if any: how many items it still expects, and the raw
/// payload appended to it so far.
pub uninterp spec fn rlp_stream_open_list(s: rlp::RlpStream) -> Option<(nat, Seq<u8>)>;

/// Big-endian bytes of `n` without leading zeros.
pub open spec fn be_bytes(n: nat) -> Seq<u8>
    decreases n,
{
    if n == 0 {
        Seq::empty()
    } else {
        be_bytes(n / 256) + seq![(n % 256) as u8]
    }
}

/// The RLP header of a list whose payload is `len` bytes long.
pub open spec fn rlp_list_header(len: nat) -> Seq<u8> {
    if len <= 55 {
        seq![(0xc0 + len) as u8]
    } else {
        seq![(0xf7 + be_bytes(len).len()) as u8] + be_bytes(len)
    }
}

/// Relies on `rlp::RlpStream::new`: an empty stream with no open list.
#[verifier::external_body]
fn rlp_stream_new() -> (r: rlp::RlpStream)
    ensures
        rlp_stream_done(r) == Seq::<u8>::empty(),
        rlp_stream_open_list(r) is None,
{
    rlp::RlpStream::new()
}

/// Relies on `rlp::RlpStream::begin_list`: a list of no items is written out at once
/// as `0xc0`; any other count opens a list that expects that many items.
#[verifier::external_body]
fn rlp_begin_list(s: &mut rlp::RlpStream, len: usize)
    requires
        rlp_stream_open_list(*old(s)) is None,
    ensures
        len == 0 ==> rlp_stream_done(*final(s)) == rlp_stream_done(*old(s)).push(0xc0u8),
        len == 0 ==> rlp_stream_open_list(*final(s)) is None,
        len != 0 ==> rlp_stream_done(*final(s)) == rlp_stream_done(*old(s)),
        len != 0 ==> rlp_stream_open_list(*final(s)) == Some((len as nat, Seq::<u8>::empty())),
{
    s.begin_list(len);
}

/// Relies on `rlp::RlpStream::append_raw` with an item count of one: the bytes join
/// the open list's payload unchanged; with its last item the list is closed, and its
/// header (of a payload under 2^32 bytes) and payload are written out.
#[verifier::external_body]
fn rlp_append_raw_item(s: &mut rlp::RlpStream, bytes: &[u8])
    requires
        rlp_stream_open_list(*old(s)) matches Some(l) && l.0 > 0 && l.1.len() + bytes@.len()
            < 0x1_0000_0000,
    ensures
        ({
            let (k, p) = rlp_stream_open_list(*old(s))->Some_0;
            if k > 1 {
                &&& rlp_stream_open_list(*final(s)) == Some(((k - 1) as nat, p + bytes@))
                &&& rlp_stream_done(*final(s)) == rlp_stream_done(*old(s))
            } else {
                &&& rlp_stream_open_list(*final(s)) is None
                &&& rlp_stream_done(*final(s)) == rlp_stream_done(*old(s)) + rlp_list_header(
                    (p + bytes@).len(),
                ) + p + bytes@
            }
        }),
{
    s.append_raw(bytes, 1);
}

/// Relies on `rlp::RlpStream::out`: the bytes of a stream with no open list.
#[verifier::external_body]
fn rlp_stream_out(s: rlp::RlpStream) -> (r: Vec<u8>)
    requires
        rlp_stream_open_list(s) is None,
    ensures
        r@ == rlp_stream_done(s),
{
    s.out().to_vec()
}

/// The RLP list whose items are the given raw, already encoded, nodes.
pub open spec fn account_proof_encoding(nodes: Seq<Seq<u8>>) -> Seq<u8> {
    rlp_list_header(nodes.flatten().len()) + nodes.flatten()
}

/// Packs proof nodes, each already an RLP item, into one RLP list: the list header,
/// then every node appended as it is.
pub fn encode_account_proof(bz: Vec<Vec<u8>>) -> (r: Vec<u8>)
    requires
        byte_seqs(bz@).flatten().len() < 0x1_0000_0000,
    ensures
        r@ == account_proof_encoding(byte_seqs(bz@)),
{
    let ghost nodes = byte_seqs(bz@);
    proof {
        nodes.lemma_flatten_and_flatten_alt_are_equivalent();
    }
    let mut stream = rlp_stream_new();
    rlp_begin_list(&mut stream, bz.len());
    if bz.len() == 0 {
        assert(account_proof_encoding(nodes) =~= seq![0xc0u8]);
        return rlp_stream_out(stream);
    }
    let mut i: usize = 0;
    while i < bz.len()
        invariant
            nodes == byte_seqs(bz@),
            nodes.flatten() == nodes.flatten_alt(),
            nodes.flatten().len() < 0x1_0000_0000,
            0 < bz@.len(),
            i <= bz@.len(),
            i < bz@.len() ==> rlp_stream_done(stream) == Seq::<u8>::empty(),
            i < bz@.len() ==> rlp_stream_open_list(stream) == Some(
                ((bz@.len() - i) as nat, nodes.take(i as int).flatten_alt()),
            ),
            i == bz@.len() ==> rlp_stream_open_list(stream) is None,
            i == bz@.len() ==> rlp_stream_done(stream) == account_proof_encoding(nodes),
        decreases bz@.len() - i,
    {
        proof {
            assert(nodes.take(i as int + 1).drop_last() =~= nodes.take(i as int));
            assert(nodes.take(i as int + 1).last() == bz@[i as int]@);
            lemma_flatten_alt_prefix_len(nodes, i as int);
        }
        rlp_append_raw_item(&mut stream, bz[i].as_slice());
        i += 1;
        proof {
            if i == bz@.len() {
                assert(nodes.take(i as int) =~= nodes);
                assert(rlp_stream_done(stream) =~= account_proof_encoding(nodes));
            }
        }
    }
    rlp_stream_out(stream)
}

/// A prefix of a list of byte strings is no longer, flattened, than the whole.
proof fn lemma_flatten_alt_prefix_len(s: Seq<Seq<u8>>, i: int)
    requires
        0 <= i < s.len(),
    ensures
        s.take(i + 1).flatten_alt().len() <= s.flatten_alt().len(),
    decreases s.len(),
{
    if i + 1 < s.len() {
        assert(s.drop_last().take(i + 1) =~= s.take(i + 1));
        lemma_flatten_alt_prefix_len(s.drop_last(), i);
    } else {
        assert(s.take(i + 1) =~= s);
    }
}

} // verus!

verus! {

/// The number of items of an RLP list, as `rlp::Rlp::item_count` reports it; none for
/// bytes that are not a list.
pub uninterp spec fn rlp_list_item_count(b: Seq<u8>) -> Option<nat>;

/// The raw bytes (header included) of item `i` of an RLP list, as `rlp::Rlp::at`
/// finds it; none where it fails.
pub uninterp spec fn rlp_list_item(b: Seq<u8>, i: int) -> Option<Seq<u8>>;

/// Whether RLP bytes start a list: a first byte of at least `0xc0`.
pub open spec fn is_rlp_list(b: Seq<u8>) -> bool {
    b.len() > 0 && b[0] >= 0xc0
}

/// Relies on `rlp::Rlp::item_count`: a count for bytes that start a list, an error
/// for any other bytes.
#[verifier::external_body]
fn rlp_item_count(b: &Vec<u8>) -> (r: Option<usize>)
    ensures
        r matches Some(n) ==> rlp_list_item_count(b@) == Some(n as nat),
        r is None ==> rlp_list_item_count(b@) is None,
        r is Some <==> is_rlp_list(b@),
{
    rlp::Rlp::new(b.as_slice()).item_count().ok()
}

/// Relies on `rlp::Rlp::at` and `rlp::Rlp::as_raw`: the raw bytes of item `i` of a list.
#[verifier::external_body]
fn rlp_item_at(b: &Vec<u8>, i: usize) -> (r: Option<Vec<u8>>)
    ensures
        r matches Some(v) ==> rlp_list_item(b@, i as int) == Some(v@),
        r is None ==> rlp_list_item(b@, i as int) is None,
{
    rlp::Rlp::new(b.as_slice()).at(i).ok().map(|x| x.as_raw().to_vec())
}

/// The proof nodes that RLP list bytes hold, each taken verbatim; an error for bytes
/// that are not a list or whose items cannot be read.
pub open spec fn account_proof_of_rlp(b: Seq<u8>) -> Result<Seq<Seq<u8>>, Error> {
    match rlp_list_item_count(b) {
        None => Err(Error::BadRlp),
        Some(n) => if forall|i: int| 0 <= i < n ==> (#[trigger] rlp_list_item(b, i)) is Some {
            Ok(Seq::new(n, |i: int| rlp_list_item(b, i)->Some_0))
        } else {
            Err(Error::BadRlp)
        },
    }
}

/// Unpacks an RLP list of proof nodes, returning each item's raw bytes.
pub fn decode_account_proof(b: &Vec<u8>) -> (r: Result<Vec<Vec<u8>>, Error>)
    ensures
        match account_proof_of_rlp(b@) {
            Ok(v) => r matches Ok(nodes) && byte_seqs(nodes@) == v,
            Err(e) => r == Err::<Vec<Vec<u8>>, Error>(e),
        },
        !is_rlp_list(b@) ==> r == Err::<Vec<Vec<u8>>, Error>(Error::BadRlp),
{
    let n = match rlp_item_count(b) {
        Some(n) => n,
        None => {
            return Err(Error::BadRlp);
        },
    };
    let mut nodes: Vec<Vec<u8>> = Vec::new();
    let mut i: usize = 0;
    while i < n
        invariant
            i <= n,
            rlp_list_item_count(b@) == Some(n as nat),
            nodes@.len() == i,
            forall|j: int| 0 <= j < i ==> rlp_list_item(b@, j) == Some((#[trigger] nodes@[j])@),
        decreases n - i,
    {
        match rlp_item_at(b, i) {
            Some(v) => nodes.push(v),
            None => {
                assert(rlp_list_item(b@, i as int) is None);
                return Err(Error::BadRlp);
            },
        }
        i += 1;
    }
    assert forall|j: int| 0 <= j < n implies (#[trigger] rlp_list_item(b@, j)) is Some by {
        assert(rlp_list_item(b@, j) == Some(nodes@[j]@));
    }
    assert(byte_seqs(nodes@) =~= Seq::new(n as nat, |j: int| rlp_list_item(b@, j)->Some_0));
    Ok(nodes)
}

#[derive(Clone, Debug, PartialEq, Eq)]
pub struct AccountUpdateInfo {
    pub account_proof: Vec<Vec<u8>>,
    pub account_storage_root: H256,
}

impl AccountUpdateInfo {
    /// Decodes a wire account update: the proof list, then the storage root.
    pub fn from_proto(value: &ProtoAccountUpdate) -> (r: Result<AccountUpdateInfo, Error>)
        ensures
            match account_proof_of_rlp(value.account_proof@) {
                Err(e) => r == Err::<AccountUpdateInfo, Error>(e),
                Ok(v) => if value.account_storage_root@.len() == HASH_LEN {
                    r matches Ok(a) && byte_seqs(a.account_proof@) == v
                        && a.account_storage_root@ == value.account_storage_root@
                } else {
                    r == Err::<AccountUpdateInfo, Error>(Error::BadHash)
                },
            },
    {
        let account_proof = decode_account_proof(&value.account_proof)?;
        let account_storage_root = H256::from_slice(&value.account_storage_root)?;
        Ok(AccountUpdateInfo { account_proof, account_storage_root })
    }

    /// Encodes an account update: the proof nodes packed into one RLP list.
    pub fn to_proto(&self) -> (r: ProtoAccountUpdate)
        requires
            byte_seqs(self.account_proof@).flatten().len() < 0x1_0000_0000,
        ensures
            r.account_proof@ == account_proof_encoding(byte_seqs(self.account_proof@)),
            r.account_storage_root@ == self.account_storage_root@,
    {
        let mut proof: Vec<Vec<u8>> = Vec::new();
        let mut i: usize = 0;
        while i < self.account_proof.len()
            invariant
                i <= self.account_proof@.len(),
                proof@.len() == i,
                forall|j: int| 0 <= j < i ==> (#[trigger] proof@[j])@ == self.account_proof@[j]@,
            decreases self.account_proof@.len() - i,
        {
            proof.push(self.account_proof[i].clone());
            proof {
                assert(proof@[i as int]@ =~= self.account_proof@[i as int]@);
            }
            i += 1;
        }
        assert(byte_seqs(proof@) =~= byte_seqs(self.account_proof@));
        ProtoAccountUpdate {
            account_proof: encode_account_proof(proof),
            account_storage_root: self.account_storage_root.to_vec(),
        }
    }
}

} // verus!

verus! {

/// A length under 2^32 takes at most four big-endian bytes.
proof fn lemma_be_bytes_short(n: nat)
    requires
        n < 0x1_0000_0000,
    ensures
        be_bytes(n).len() <= 4,
{
    reveal_with_fuel(be_bytes, 5);
    let a = n / 256;
    let b = a / 256;
    let c = b / 256;
    assert(c / 256 == 0);
}

/// An encoded account proof always starts an RLP list, so its decoding never fails
/// for want of a list.
pub proof fn lemma_account_proof_encoding_is_list(nodes: Seq<Seq<u8>>)
    requires
        nodes.flatten().len() < 0x1_0000_0000,
    ensures
        is_rlp_list(account_proof_encoding(nodes)),
{
    let len = nodes.flatten().len();
    if len > 55 {
        lemma_be_bytes_short(len);
    }
}

} // verus!
