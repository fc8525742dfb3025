//! Blocks, headers and hashes as plain values.

use bitcoin::BitcoinHash;
use vstd::prelude::*;

verus! {

/// A double-SHA256 block hash, in the byte order of its serialization.
#[derive(Clone, Copy, Debug)]
pub struct BlockHash {
    pub bytes: [u8; 32],
}

impl View for BlockHash {
    type V = Seq<u8>;

    open spec fn view(&self) -> Seq<u8> {
        self.bytes@
    }
}

impl BlockHash {
    /// The all-zero hash, which a genesis header names as its parent.
    pub fn zero() -> (r: BlockHash)
        ensures
            r@ == Seq::new(32, |i: int| 0u8),
    {
        let r = BlockHash { bytes: [0u8; 32] };
        assert(r@ =~= Seq::new(32, |i: int| 0u8));
        r
    }

    /// Compares two hashes byte by byte.
    pub fn same(&self, other: &BlockHash) -> (r: bool)
        ensures
            r == (self@ == other@),
    {
        let mut i: usize = 0;
        while i < 32
            invariant
                i <= 32,
                self@.len() == 32,
                other@.len() == 32,
                forall|j: int| 0 <= j < i ==> self@[j] == other@[j],
            decreases 32 - i,
        {
            if self.bytes[i] != other.bytes[i] {
                return false;
            }
            i = i + 1;
        }
        assert(self@ =~= other@);
        true
    }
}

impl PartialEq for BlockHash {
    fn eq(&self, other: &BlockHash) -> (r: bool) {
        self.same(other)
    }
}

impl vstd::std_specs::cmp::PartialEqSpecImpl for BlockHash {
    open spec fn obeys_eq_spec() -> bool {
        true
    }

    open spec fn eq_spec(&self, other: &BlockHash) -> bool {
        self@ == other@
    }
}

/// The network a header store is scoped to.
#[derive(Clone, Copy, Debug, PartialEq, Eq, Structural)]
pub enum Network {
    Bitcoin,
    Testnet,
    Regtest,
}

/// The 80-byte block header, field by field.
#[derive(Clone, Copy, Debug)]
pub struct BlockHeader {
    pub version: u32,
    pub prev_blockhash: BlockHash,
    pub merkle_root: BlockHash,
    pub time: u32,
    pub bits: u32,
    pub nonce: u32,
}

impl BlockHeader {
    /// The header's hash, which identifies its block.
    pub fn block_hash(&self) -> (r: BlockHash)
        ensures
            r@ == header_hash_of(*self),
    {
        header_hash(self)
    }
}

/// A full block: its header and its serialized transactions.
#[derive(Debug)]
pub struct Block {
    pub header: BlockHeader,
    pub txdata: Vec<Vec<u8>>,
}

/// Two blocks with the same header and the same transaction bytes.
pub open spec fn same_block(a: Block, b: Block) -> bool {
    &&& a.header == b.header
    &&& a.txdata@.len() == b.txdata@.len()
    &&& forall|i: int| 0 <= i < a.txdata@.len() ==> a.txdata@[i]@ == b.txdata@[i]@
}

impl Block {
    /// A copy of the block, transaction bytes included.
    pub fn duplicate(&self) -> (r: Block)
        ensures
            same_block(r, *self),
    {
        let mut txdata: Vec<Vec<u8>> = Vec::new();
        let mut i: usize = 0;
        while i < self.txdata.len()
            invariant
                i <= self.txdata@.len(),
                txdata@.len() == i,
                forall|j: int| 0 <= j < i ==> txdata@[j]@ == self.txdata@[j]@,
            decreases self.txdata@.len() - i,
        {
            let tx: Vec<u8> = self.txdata[i].clone();
            txdata.push(tx);
            i = i + 1;
        }
        Block { header: self.header, txdata }
    }

    /// The block's identity: the hash of its header.
    pub fn block_hash(&self) -> (r: BlockHash)
        ensures
            r@ == header_hash_of(self.header),
    {
        header_hash(&self.header)
    }
}

/// The double-SHA256 of a header's consensus serialization.
pub uninterp spec fn header_hash_of(h: BlockHeader) -> Seq<u8>;

/// The genesis header that bitcoin fixes for a network.
pub uninterp spec fn genesis_header_of(n: Network) -> BlockHeader;

/// Relies on `bitcoin::BlockHeader::bitcoin_hash`: the hash of the header
/// built from these fields, which depends on the fields alone. The two
/// 32-byte hashes go in through `sha256d::Hash::from_slice`, which copies a
/// slice of that length.
#[verifier::external_body]
fn header_hash(h: &BlockHeader) -> (r: BlockHash)
    ensures
        r@ == header_hash_of(*h),
{
    let header = bitcoin::BlockHeader {
        version: h.version,
        prev_blockhash: <bitcoin_hashes::sha256d::Hash as bitcoin_hashes::Hash>::from_slice(&h.prev_blockhash.bytes).unwrap_or_default(),
        merkle_root: <bitcoin_hashes::sha256d::Hash as bitcoin_hashes::Hash>::from_slice(&h.merkle_root.bytes).unwrap_or_default(),
        time: h.time,
        bits: h.bits,
        nonce: h.nonce,
    };
    BlockHash { bytes: bitcoin_hashes::Hash::into_inner(header.bitcoin_hash()) }
}

/// Relies on `bitcoin::blockdata::constants::genesis_block`: the header of
/// the network's genesis block, whose parent is the all-zero hash.
#[verifier::external_body]
pub(crate) fn genesis_header(network: Network) -> (r: BlockHeader)
    ensures
        r == genesis_header_of(network),
        r.prev_blockhash@ == Seq::new(32, |i: int| 0u8),
{
    let net = match network {
        Network::Bitcoin => bitcoin::Network::Bitcoin,
        Network::Testnet => bitcoin::Network::Testnet,
        Network::Regtest => bitcoin::Network::Regtest,
    };
    let h = bitcoin::blockdata::constants::genesis_block(net).header;
    BlockHeader {
        version: h.version,
        prev_blockhash: BlockHash { bytes: bitcoin_hashes::Hash::into_inner(h.prev_blockhash) },
        merkle_root: BlockHash { bytes: bitcoin_hashes::Hash::into_inner(h.merkle_root) },
        time: h.time,
        bits: h.bits,
        nonce: h.nonce,
    }
}

} // verus!
