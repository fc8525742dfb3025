//! The heavy state: an append-only store of block bodies with its own tip,
//! and the UTXO store, modelled by the blocks applied to it, in order.

use crate::block::{same_block, Block, BlockHash};
use vstd::prelude::*;

verus! {

/// Where the block store put a block: its position among the stored blocks.
#[derive(Clone, Copy, Debug, PartialEq, Eq, Structural)]
pub struct BlockRef {
    pub pos: usize,
}

/// The view of an optional hash.
pub open spec fn opt_hash(h: Option<BlockHash>) -> Option<Seq<u8>> {
    match h {
        Some(x) => Some(x@),
        None => None,
    }
}

/// Append-only storage of block bodies, with the hash of the last block
/// that was recorded as its tip.
pub struct BlockStore {
    blocks: Vec<Block>,
    tip: Option<BlockHash>,
}

impl BlockStore {
    /// The stored blocks, in the order they were stored.
    pub closed spec fn stored(&self) -> Seq<Block> {
        self.blocks@
    }

    pub closed spec fn tip_spec(&self) -> Option<Seq<u8>> {
        opt_hash(self.tip)
    }

    pub fn mem() -> (r: BlockStore)
        ensures
            r.stored().len() == 0,
            r.tip_spec() is None,
    {
        BlockStore { blocks: Vec::new(), tip: None }
    }

    /// The recorded tip, if any.
    pub fn fetch_tip(&self) -> (r: Option<BlockHash>)
        ensures
            opt_hash(r) == self.tip_spec(),
    {
        self.tip
    }

    /// The number of stored blocks.
    pub fn len(&self) -> (r: usize)
        ensures
            r == self.stored().len(),
    {
        self.blocks.len()
    }

    /// Appends a copy of `block`; the tip is not touched.
    pub fn store(&mut self, block: &Block) -> (r: BlockRef)
        ensures
            r.pos == old(self).stored().len(),
            final(self).stored().len() == old(self).stored().len() + 1,
            final(self).stored().subrange(0, r.pos as int) == old(self).stored(),
            same_block(final(self).stored()[r.pos as int], *block),
            final(self).tip_spec() == old(self).tip_spec(),
    {
        let pos = self.blocks.len();
        self.blocks.push(block.duplicate());
        assert(self.blocks@.subrange(0, pos as int) =~= old(self).blocks@);
        BlockRef { pos }
    }

    /// Records `h` as the tip.
    pub fn store_tip(&mut self, h: &BlockHash)
        ensures
            final(self).tip_spec() == Some(h@),
            final(self).stored() == old(self).stored(),
    {
        self.tip = Some(*h);
    }

    /// Removes the last stored block and makes its parent the tip. A store
    /// without blocks is left as it is.
    pub fn unwind_tip(&mut self)
        ensures
            old(self).stored().len() == 0 ==> final(self).stored() == old(self).stored() && final(self).tip_spec() == old(self).tip_spec(),
            old(self).stored().len() > 0 ==> {
                &&& final(self).stored() == old(self).stored().drop_last()
                &&& final(self).tip_spec() == Some(old(self).stored().last().header.prev_blockhash@)
            },
    {
        match self.blocks.pop() {
            Some(last) => {
                self.tip = Some(last.header.prev_blockhash);
            },
            None => {},
        }
    }
}

/// The UTXO store, as the sequence of stored blocks applied to it.
pub struct UtxoStore {
    applied: Vec<BlockRef>,
}

impl UtxoStore {
    /// The blocks applied so far, oldest first.
    pub closed spec fn applied(&self) -> Seq<BlockRef> {
        self.applied@
    }

    pub fn mem() -> (r: UtxoStore)
        ensures
            r.applied().len() == 0,
    {
        UtxoStore { applied: Vec::new() }
    }

    /// Applies the stored block at `r`.
    pub fn apply_block(&mut self, r: BlockRef)
        ensures
            final(self).applied() == old(self).applied().push(r),
    {
        self.applied.push(r);
    }

    /// Reverts the most recent application; with none, nothing changes.
    pub fn unwind_tip(&mut self)
        ensures
            final(self).applied() == (if old(self).applied().len() == 0 {
                old(self).applied()
            } else {
                old(self).applied().drop_last()
            }),
    {
        self.applied.pop();
    }

    /// The applied blocks, oldest first.
    pub fn applied_blocks(&self) -> (r: Vec<BlockRef>)
        ensures
            r@ == self.applied(),
    {
        self.applied.clone()
    }
}

/// The heavy bundle: block bodies and UTXO state, created together.
pub struct HeavyChainDB {
    pub blocks: BlockStore,
    pub utxos: UtxoStore,
}

impl HeavyChainDB {
    pub fn mem() -> (r: HeavyChainDB)
        ensures
            r.blocks.stored().len() == 0,
            r.blocks.tip_spec() is None,
            r.utxos.applied().len() == 0,
    {
        HeavyChainDB { blocks: BlockStore::mem(), utxos: UtxoStore::mem() }
    }

    /// Reverts the UTXO store's last application, then retracts the block
    /// store by one block.
    pub fn unwind_tip(&mut self)
        ensures
            final(self).utxos.applied() == (if old(self).utxos.applied().len() == 0 {
                old(self).utxos.applied()
            } else {
                old(self).utxos.applied().drop_last()
            }),
            old(self).blocks.stored().len() == 0 ==> final(self).blocks.stored() == old(self).blocks.stored()
                && final(self).blocks.tip_spec() == old(self).blocks.tip_spec(),
            old(self).blocks.stored().len() > 0 ==> {
                &&& final(self).blocks.stored() == old(self).blocks.stored().drop_last()
                &&& final(self).blocks.tip_spec() == Some(old(self).blocks.stored().last().header.prev_blockhash@)
            },
    {
        self.utxos.unwind_tip();
        self.blocks.unwind_tip();
    }
}

} // verus!
