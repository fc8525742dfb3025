//! The chain coordinator: keeps the heavy state in step with the trunk of
//! the header store as blocks arrive and as the chain unwinds.

use crate::block::{header_hash_of, genesis_header_of, same_block, Block, BlockHash, BlockHeader, Network};
use crate::heavy::{opt_hash, BlockRef, HeavyChainDB, UtxoStore};
use crate::light::LightChainDB;
use vstd::prelude::*;

verus! {

/// Failures of the stores.
#[derive(Clone, Copy, Debug, PartialEq, Eq, Structural)]
pub enum ChainError {
    /// A store could not be created, opened or initialized.
    StoreInit,
    /// A read or write against a store failed.
    Storage,
}

/// Why an extension stored nothing.
#[derive(Clone, Copy, Debug, PartialEq, Eq, Structural)]
pub enum Skip {
    /// The instance keeps no heavy state.
    LightOnly,
    /// The block is already on the trunk.
    OnTrunk,
    /// The block store has no tip to extend.
    NoHeavyTip,
    /// The block's header is not known.
    UnknownHeader,
    /// The header's parent is not the block store's tip.
    NotOnHeavyTip,
}

/// The first condition, in order, that stops a block from extending the
/// heavy state; `None` when the block extends it.
pub open spec fn extend_skip(
    heavy: bool,
    on_trunk: bool,
    tip: Option<Seq<u8>>,
    header: Option<BlockHeader>,
) -> Option<Skip> {
    if !heavy {
        Some(Skip::LightOnly)
    } else if on_trunk {
        Some(Skip::OnTrunk)
    } else if tip is None {
        Some(Skip::NoHeavyTip)
    } else if header is None {
        Some(Skip::UnknownHeader)
    } else if header.unwrap().prev_blockhash@ != tip.unwrap() {
        Some(Skip::NotOnHeavyTip)
    } else {
        None
    }
}

/// Decides whether a block extends the heavy state, from what the stores
/// report of it.
pub fn check_extend(
    heavy: bool,
    on_trunk: bool,
    tip: Option<BlockHash>,
    header: Option<BlockHeader>,
) -> (r: Option<Skip>)
    ensures
        r == extend_skip(heavy, on_trunk, opt_hash(tip), header),
{
    if !heavy {
        return Some(Skip::LightOnly);
    }
    if on_trunk {
        return Some(Skip::OnTrunk);
    }
    match tip {
        None => Some(Skip::NoHeavyTip),
        Some(t) => match header {
            None => Some(Skip::UnknownHeader),
            Some(hd) => {
                if hd.prev_blockhash.same(&t) {
                    None
                } else {
                    Some(Skip::NotOnHeavyTip)
                }
            },
        },
    }
}

/// `new` is `old` with `block` appended to the block store and made its tip.
pub open spec fn appended(old: HeavyChainDB, new: HeavyChainDB, block: Block) -> bool {
    let n = old.blocks.stored().len();
    &&& new.blocks.stored().len() == n + 1
    &&& new.blocks.stored().subrange(0, n as int) == old.blocks.stored()
    &&& same_block(new.blocks.stored()[n as int], block)
    &&& new.blocks.tip_spec() == Some(header_hash_of(block.header))
}

/// What `extend_blocks_utxo_filters` does to an instance, apart from the
/// content of the filter it records.
pub open spec fn extend_full_post(old: ChainDB, new: ChainDB, block: Block) -> bool {
    let h = header_hash_of(block.header);
    let p = block.header.prev_blockhash@;
    &&& new.wf()
    &&& new.light_db().network_spec() == old.light_db().network_spec()
    &&& new.light_db().headers() == old.light_db().headers()
    &&& new.light_db().trunk() == old.light_db().trunk()
    &&& (new.heavy_db() is Some <==> old.heavy_db() is Some)
    &&& old.skip_of(block) is Some ==> new.light_db() == old.light_db() && new.heavy_db() == old.heavy_db()
    &&& old.skip_of(block) is None ==> {
        let oh = old.heavy_db().unwrap();
        let nh = new.heavy_db().unwrap();
        &&& appended(oh, nh, block)
        &&& nh.utxos.applied() == oh.utxos.applied().push(BlockRef { pos: oh.blocks.stored().len() as usize })
        &&& new.light_db().filter_of(h, p) is Some
        &&& forall|b2: Seq<u8>, p2: Seq<u8>| !(b2 == h && p2 == p) ==>
            #[trigger] new.light_db().filter_of(b2, p2) == old.light_db().filter_of(b2, p2)
    }
}

/// What `unwind_tip` does to an instance, and what it returns.
pub open spec fn unwind_post(old: ChainDB, new: ChainDB, r: Option<BlockHash>) -> bool {
    let ot = old.light_db().trunk();
    &&& new.wf()
    &&& new.light_db().network_spec() == old.light_db().network_spec()
    &&& new.light_db().headers() == old.light_db().headers()
    &&& new.light_db().filters() == old.light_db().filters()
    &&& new.light_db().trunk() == (if ot.len() == 0 { ot } else { ot.drop_last() })
    &&& opt_hash(r) == new.light_db().trunk_tip()
    &&& (new.heavy_db() is Some <==> old.heavy_db() is Some)
    &&& old.heavy_db() matches Some(oh) ==> {
        let nh = new.heavy_db().unwrap();
        let ob = oh.blocks.stored();
        &&& nh.utxos.applied() == (if oh.utxos.applied().len() == 0 {
            oh.utxos.applied()
        } else {
            oh.utxos.applied().drop_last()
        })
        &&& ob.len() == 0 ==> nh.blocks.stored() == ob && nh.blocks.tip_spec() == oh.blocks.tip_spec()
        &&& ob.len() > 0 ==> nh.blocks.stored() == ob.drop_last()
            && nh.blocks.tip_spec() == Some(ob.last().header.prev_blockhash@)
    }
}

/// The header store, the heavy state if the instance keeps one, and the
/// protocols that keep the two consistent.
pub struct ChainDB {
    light: LightChainDB,
    heavy: Option<HeavyChainDB>,
}

impl ChainDB {
    pub closed spec fn light_db(&self) -> LightChainDB {
        self.light
    }

    pub closed spec fn heavy_db(&self) -> Option<HeavyChainDB> {
        self.heavy
    }

    pub open spec fn wf(&self) -> bool {
        self.light_db().wf()
    }

    /// The block store's tip, if there is heavy state and it has a tip.
    pub open spec fn heavy_tip(&self) -> Option<Seq<u8>> {
        match self.heavy_db() {
            Some(h) => h.blocks.tip_spec(),
            None => None,
        }
    }

    /// Why `block` would not extend the heavy state, if it would not.
    pub open spec fn skip_of(&self, block: Block) -> Option<Skip> {
        let h = header_hash_of(block.header);
        extend_skip(
            self.heavy_db() is Some,
            self.light_db().on_trunk(h),
            self.heavy_tip(),
            self.light_db().header_of(h),
        )
    }

    /// Whether the known header of `block` names the block store's tip as
    /// its parent.
    pub open spec fn parent_is_heavy_tip(&self, block: Block) -> bool {
        let h = header_hash_of(block.header);
        &&& self.heavy_db() is Some
        &&& self.light_db().header_of(h) is Some
        &&& self.heavy_tip() == Some(self.light_db().header_of(h).unwrap().prev_blockhash@)
    }

    /// An in-memory instance for `network`, with heavy state if `heavy`.
    pub fn mem(network: Network, heavy: bool) -> (r: Result<ChainDB, ChainError>)
        ensures
            r matches Ok(db) && {
                &&& db.wf()
                &&& db.light_db().network_spec() == network
                &&& db.light_db().headers().len() == 0
                &&& db.light_db().trunk().len() == 0
                &&& db.light_db().filters().len() == 0
                &&& (db.heavy_db() is Some <==> heavy)
                &&& db.heavy_db() matches Some(h) ==> {
                    &&& h.blocks.stored().len() == 0
                    &&& h.blocks.tip_spec() is None
                    &&& h.utxos.applied().len() == 0
                }
            },
    {
        let light = LightChainDB::mem(network);
        if heavy {
            Ok(ChainDB { light, heavy: Some(HeavyChainDB::mem()) })
        } else {
            Ok(ChainDB { light, heavy: None })
        }
    }

    /// Bootstraps the header store with the network's genesis header, once.
    pub fn init(&mut self) -> (r: Result<(), ChainError>)
        requires
            old(self).wf(),
        ensures
            r is Ok,
            final(self).wf(),
            final(self).heavy_db() == old(self).heavy_db(),
            final(self).light_db().network_spec() == old(self).light_db().network_spec(),
            final(self).light_db().filters() == old(self).light_db().filters(),
            old(self).light_db().headers().len() != 0 ==> final(self).light_db() == old(self).light_db(),
            old(self).light_db().headers().len() == 0 && old(self).light_db().trunk().len() == 0 ==> {
                let g = genesis_header_of(old(self).light_db().network_spec());
                &&& final(self).light_db().headers().len() == 1
                &&& final(self).light_db().headers()[0].header == g
                &&& final(self).light_db().trunk() == seq![header_hash_of(g)]
            },
    {
        self.light.init();
        Ok(())
    }

    /// Stores the body of `block` and makes it the block store's tip, if it
    /// extends that tip (see `skip_of`); returns where it was stored.
    pub fn extend_blocks(&mut self, block: &Block) -> (r: Result<Option<BlockRef>, ChainError>)
        requires
            old(self).wf(),
        ensures
            final(self).wf(),
            final(self).light_db() == old(self).light_db(),
            (final(self).heavy_db() is Some <==> old(self).heavy_db() is Some),
            old(self).skip_of(*block) is Some ==> r == Ok::<Option<BlockRef>, ChainError>(None)
                && final(self).heavy_db() == old(self).heavy_db(),
            old(self).skip_of(*block) is None ==> {
                let oh = old(self).heavy_db().unwrap();
                let nh = final(self).heavy_db().unwrap();
                &&& r == Ok::<Option<BlockRef>, ChainError>(Some(BlockRef { pos: oh.blocks.stored().len() as usize }))
                &&& appended(oh, nh, *block)
                &&& nh.utxos.applied() == oh.utxos.applied()
            },
    {
        let skip = self.extend_check(block);
        if skip.is_some() {
            return Ok(None);
        }
        let hash = block.block_hash();
        match &mut self.heavy {
            Some(heavy) => {
                let sref = heavy.blocks.store(block);
                heavy.blocks.store_tip(&hash);
                Ok(Some(sref))
            },
            None => Ok(None),
        }
    }

    /// Applies the stored block at `block_ref` to the UTXO store.
    fn extend_utxo(&mut self, block_ref: BlockRef) -> (r: Result<(), ChainError>)
        ensures
            r is Ok,
            final(self).light_db() == old(self).light_db(),
            (final(self).heavy_db() is Some <==> old(self).heavy_db() is Some),
            old(self).heavy_db() matches Some(oh) ==> {
                let nh = final(self).heavy_db().unwrap();
                &&& nh.blocks == oh.blocks
                &&& nh.utxos.applied() == oh.utxos.applied().push(block_ref)
            },
    {
        match &mut self.heavy {
            Some(heavy) => {
                heavy.utxos.apply_block(block_ref);
            },
            None => {},
        }
        Ok(())
    }

    /// The filter of `block`, computed by `compute` with the UTXO store as
    /// lookup; `None` without heavy state.
    fn compute_filter<F: Fn(&Block, &UtxoStore) -> Vec<u8>>(&self, block: &Block, compute: &F) -> (r: Result<Option<Vec<u8>>, ChainError>)
        requires
            forall|b: &Block, u: &UtxoStore| #[trigger] compute.requires((b, u)),
        ensures
            self.heavy_db() is None ==> r matches Ok(None),
            self.heavy_db() matches Some(h) ==> r matches Ok(Some(c)) && compute.ensures((block, &h.utxos), c),
    {
        match &self.heavy {
            Some(heavy) => {
                let filter = compute(block, &heavy.utxos);
                Ok(Some(filter))
            },
            None => Ok(None),
        }
    }

    /// Takes in a newly received block: if it extends the heavy state (see
    /// `skip_of`), stores its body, applies it to the UTXO store, and records
    /// the filter that `compute` makes of it, with the UTXO store as lookup,
    /// under the block's hash and its parent's hash. Otherwise nothing changes.
    pub fn extend_blocks_utxo_filters<F: Fn(&Block, &UtxoStore) -> Vec<u8>>(&mut self, block: &Block, compute: F) -> (r: Result<(), ChainError>)
        requires
            old(self).wf(),
            forall|b: &Block, u: &UtxoStore| #[trigger] compute.requires((b, u)),
        ensures
            r is Ok,
            extend_full_post(*old(self), *final(self), *block),
            old(self).skip_of(*block) is None ==> exists|c: Vec<u8>|
                #[trigger] compute.ensures((block, &final(self).heavy_db().unwrap().utxos), c)
                && final(self).light_db().filter_of(header_hash_of(block.header), block.header.prev_blockhash@) == Some(c@),
    {
        if self.heavy.is_none() {
            return Ok(());
        }
        let extended = self.extend_blocks(block);
        match extended {
            Ok(Some(block_ref)) => {
                let applied = self.extend_utxo(block_ref);
                let filter = self.compute_filter(block, &compute);
                match filter {
                    Ok(Some(content)) => {
                        let hash = block.block_hash();
                        self.light.add_filter(&hash, &block.header.prev_blockhash, content);
                    },
                    _ => {},
                }
                Ok(())
            },
            _ => Ok(()),
        }
    }

    /// Retracts the chain by one block: the heavy state first (the UTXO
    /// store, then the block store), then the trunk. Returns the trunk's new
    /// last hash.
    pub fn unwind_tip(&mut self) -> (r: Result<Option<BlockHash>, ChainError>)
        requires
            old(self).wf(),
        ensures
            r matches Ok(t) && unwind_post(*old(self), *final(self), t),
    {
        match &mut self.heavy {
            Some(heavy) => {
                heavy.unwind_tip();
            },
            None => {},
        }
        let tip = self.light.unwind_tip();
        Ok(tip)
    }

    /// Makes `header` known to the header store, off the trunk; returns its
    /// hash.
    pub fn add_header(&mut self, header: BlockHeader) -> (r: BlockHash)
        requires
            old(self).wf(),
        ensures
            final(self).wf(),
            r@ == header_hash_of(header),
            final(self).heavy_db() == old(self).heavy_db(),
            final(self).light_db().network_spec() == old(self).light_db().network_spec(),
            final(self).light_db().trunk() == old(self).light_db().trunk(),
            final(self).light_db().filters() == old(self).light_db().filters(),
            final(self).light_db().is_known(r@),
            forall|h: Seq<u8>| h != r@ ==> #[trigger] final(self).light_db().header_of(h) == old(self).light_db().header_of(h),
            final(self).light_db().header_of(r@) == (if old(self).light_db().is_known(r@) {
                old(self).light_db().header_of(r@)
            } else {
                Some(header)
            }),
    {
        self.light.add_header(header)
    }

    /// Appends the known header `h` to the trunk, unless it is unknown or
    /// already there; returns whether the trunk grew.
    pub fn mark_on_trunk(&mut self, h: &BlockHash) -> (r: bool)
        requires
            old(self).wf(),
        ensures
            final(self).wf(),
            r == (old(self).light_db().is_known(h@) && !old(self).light_db().on_trunk(h@)),
            final(self).heavy_db() == old(self).heavy_db(),
            final(self).light_db().network_spec() == old(self).light_db().network_spec(),
            final(self).light_db().headers() == old(self).light_db().headers(),
            final(self).light_db().filters() == old(self).light_db().filters(),
            r ==> final(self).light_db().trunk() == old(self).light_db().trunk().push(h@),
            !r ==> final(self).light_db().trunk() == old(self).light_db().trunk(),
    {
        self.light.mark_on_trunk(h)
    }

    /// Stores `block` in the heavy state and makes it the block store's tip
    /// without any check, as for a block that is imported from elsewhere.
    /// Returns where it was stored; `None` without heavy state.
    pub fn import_block(&mut self, block: &Block) -> (r: Option<BlockRef>)
        ensures
            final(self).light_db() == old(self).light_db(),
            (final(self).heavy_db() is Some <==> old(self).heavy_db() is Some),
            old(self).heavy_db() is None ==> r is None,
            old(self).heavy_db() matches Some(oh) ==> {
                let nh = final(self).heavy_db().unwrap();
                &&& r == Some(BlockRef { pos: oh.blocks.stored().len() as usize })
                &&& appended(oh, nh, *block)
                &&& nh.utxos.applied() == oh.utxos.applied()
            },
    {
        let hash = block.block_hash();
        match &mut self.heavy {
            Some(heavy) => {
                let sref = heavy.blocks.store(block);
                heavy.blocks.store_tip(&hash);
                Some(sref)
            },
            None => None,
        }
    }

    /// The header store.
    pub fn light(&self) -> (r: &LightChainDB)
        ensures
            *r == self.light_db(),
    {
        &self.light
    }

    /// The heavy state, if the instance keeps one.
    pub fn heavy(&self) -> (r: Option<&HeavyChainDB>)
        ensures
            self.heavy_db() is None ==> r is None,
            self.heavy_db() matches Some(h) ==> r matches Some(x) && *x == h,
    {
        match &self.heavy {
            Some(h) => Some(h),
            None => None,
        }
    }

    /// Why `block` would not extend the heavy state now, if it would not.
    pub fn extend_check(&self, block: &Block) -> (r: Option<Skip>)
        requires
            self.wf(),
        ensures
            r == self.skip_of(*block),
    {
        let hash = block.block_hash();
        let on_trunk = self.light.is_on_trunk(&hash);
        let header = self.light.get_header(&hash);
        let tip = match &self.heavy {
            Some(h) => h.blocks.fetch_tip(),
            None => None,
        };
        check_extend(self.heavy.is_some(), on_trunk, tip, header)
    }
}

} // verus!
