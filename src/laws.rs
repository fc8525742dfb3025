//! Properties of the extend and unwind protocols, over their contracts.

use crate::block::{header_hash_of, Block, BlockHash};
use crate::chain::{extend_full_post, unwind_post, ChainDB};
use crate::heavy::opt_hash;
use vstd::prelude::*;

verus! {

/// An extension stores a block only if, just before, the block's known
/// header named the block store's tip as its parent; any other block leaves
/// the instance as it was.
pub proof fn lemma_linear_extension(before: ChainDB, after: ChainDB, block: Block)
    requires
        extend_full_post(before, after, block),
    ensures
        after.heavy_db() != before.heavy_db() ==> before.parent_is_heavy_tip(block),
        !before.parent_is_heavy_tip(block) ==> after.heavy_db() == before.heavy_db()
            && after.light_db() == before.light_db(),
{
}

/// Extending with a block that is already on the trunk changes nothing: a
/// block taken in once is neither stored nor filtered a second time once
/// its header has joined the trunk.
pub proof fn lemma_on_trunk_is_noop(before: ChainDB, after: ChainDB, block: Block)
    requires
        before.light_db().on_trunk(header_hash_of(block.header)),
        extend_full_post(before, after, block),
    ensures
        after.heavy_db() == before.heavy_db(),
        after.light_db() == before.light_db(),
{
}

/// Without heavy state, extending changes nothing and unwinding leaves the
/// instance without heavy state.
pub proof fn lemma_light_only(
    before: ChainDB,
    extended: ChainDB,
    unwound: ChainDB,
    block: Block,
    tip: Option<BlockHash>,
)
    requires
        before.heavy_db() is None,
        extend_full_post(before, extended, block),
        unwind_post(before, unwound, tip),
    ensures
        extended.heavy_db() is None,
        extended.light_db() == before.light_db(),
        unwound.heavy_db() is None,
{
}

/// Unwinding with heavy state whose last stored block is B reverts B's
/// application to the UTXO store, makes B's parent the block store's tip,
/// and retracts the trunk by one hash, returning the hash before it, or
/// nothing when B's hash was the only one.
pub proof fn lemma_unwind_order(before: ChainDB, after: ChainDB, tip: Option<BlockHash>)
    requires
        unwind_post(before, after, tip),
        before.heavy_db() is Some,
        before.heavy_db().unwrap().blocks.stored().len() > 0,
        before.heavy_db().unwrap().utxos.applied().len() > 0,
        before.light_db().trunk().len() > 0,
    ensures
        ({
            let oh = before.heavy_db().unwrap();
            let nh = after.heavy_db().unwrap();
            let b = oh.blocks.stored().last();
            let t = before.light_db().trunk();
            &&& after.heavy_db() is Some
            &&& nh.utxos.applied() == oh.utxos.applied().drop_last()
            &&& nh.blocks.tip_spec() == Some(b.header.prev_blockhash@)
            &&& after.light_db().trunk() == t.drop_last()
            &&& t.len() == 1 ==> tip is None
            &&& t.len() > 1 ==> opt_hash(tip) == Some(t[t.len() - 2])
        }),
{
    let t = before.light_db().trunk();
    if t.len() > 1 {
        assert(t.drop_last().last() == t[t.len() - 2]);
    }
}

/// A block that extends the heavy state leaves a filter keyed by its hash
/// and its parent's hash.
pub proof fn lemma_filter_recorded(before: ChainDB, after: ChainDB, block: Block)
    requires
        extend_full_post(before, after, block),
        before.skip_of(block) is None,
    ensures
        after.light_db().filter_of(header_hash_of(block.header), block.header.prev_blockhash@) is Some,
{
}

} // verus!
