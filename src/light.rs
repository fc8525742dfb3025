//! The header/trunk store: known headers, the selected best chain (the
//! trunk) and the compact filters recorded for blocks.

use crate::block::{genesis_header, genesis_header_of, header_hash_of, BlockHash, BlockHeader, Network};
use vstd::prelude::*;

verus! {

/// A known header together with its hash.
#[derive(Clone, Copy, Debug)]
pub struct StoredHeader {
    pub hash: BlockHash,
    pub header: BlockHeader,
}

/// A compact filter, keyed by a block hash and the block's parent hash.
#[derive(Debug)]
pub struct FilterEntry {
    pub block: BlockHash,
    pub prev: BlockHash,
    pub content: Vec<u8>,
}

/// The header/trunk store.
pub struct LightChainDB {
    network: Network,
    headers: Vec<StoredHeader>,
    trunk: Vec<BlockHash>,
    filters: Vec<FilterEntry>,
}

impl LightChainDB {
    pub closed spec fn network_spec(&self) -> Network {
        self.network
    }

    /// The known headers, in the order they became known.
    pub closed spec fn headers(&self) -> Seq<StoredHeader> {
        self.headers@
    }

    /// The hashes of the trunk, genesis first.
    pub closed spec fn trunk(&self) -> Seq<Seq<u8>> {
        self.trunk@.map_values(|h: BlockHash| h@)
    }

    /// The recorded filters as (block hash, parent hash, content).
    pub closed spec fn filters(&self) -> Seq<(Seq<u8>, Seq<u8>, Seq<u8>)> {
        self.filters@.map_values(|f: FilterEntry| (f.block@, f.prev@, f.content@))
    }

    /// Each stored hash is its header's hash; hashes and filter keys are unique.
    pub closed spec fn wf(&self) -> bool {
        let hs = self.headers@;
        let fs = self.filters@;
        &&& forall|i: int| 0 <= i < hs.len() ==> #[trigger] hs[i].hash@ == header_hash_of(hs[i].header)
        &&& forall|i: int, j: int|
            #![trigger hs[i], hs[j]]
            0 <= i < hs.len() && 0 <= j < hs.len() && i != j ==> hs[i].hash@ != hs[j].hash@
        &&& forall|i: int, j: int|
            #![trigger fs[i], fs[j]]
            0 <= i < fs.len() && 0 <= j < fs.len() && i != j ==> !(fs[i].block@ == fs[j].block@ && fs[i].prev@ == fs[j].prev@)
    }

    pub open spec fn is_known(&self, h: Seq<u8>) -> bool {
        exists|i: int| 0 <= i < self.headers().len() && #[trigger] self.headers()[i].hash@ == h
    }

    /// The position of the header known under hash `h`.
    pub open spec fn header_index(&self, h: Seq<u8>) -> int {
        choose|i: int| 0 <= i < self.headers().len() && #[trigger] self.headers()[i].hash@ == h
    }

    /// The header known under hash `h`, if any.
    pub open spec fn header_of(&self, h: Seq<u8>) -> Option<BlockHeader> {
        if self.is_known(h) {
            Some(self.headers()[self.header_index(h)].header)
        } else {
            None
        }
    }

    pub open spec fn on_trunk(&self, h: Seq<u8>) -> bool {
        self.trunk().contains(h)
    }

    /// The last hash of the trunk, if the trunk is not empty.
    pub open spec fn trunk_tip(&self) -> Option<Seq<u8>> {
        if self.trunk().len() == 0 {
            None
        } else {
            Some(self.trunk().last())
        }
    }

    pub open spec fn has_filter(&self, b: Seq<u8>, p: Seq<u8>) -> bool {
        exists|i: int| 0 <= i < self.filters().len() && #[trigger] self.filters()[i].0 == b && self.filters()[i].1 == p
    }

    /// The position of the filter recorded under (`b`, `p`).
    pub open spec fn filter_index(&self, b: Seq<u8>, p: Seq<u8>) -> int {
        choose|i: int| 0 <= i < self.filters().len() && #[trigger] self.filters()[i].0 == b && self.filters()[i].1 == p
    }

    /// The filter content recorded under (`b`, `p`), if any.
    pub open spec fn filter_of(&self, b: Seq<u8>, p: Seq<u8>) -> Option<Seq<u8>> {
        if self.has_filter(b, p) {
            Some(self.filters()[self.filter_index(b, p)].2)
        } else {
            None
        }
    }

    /// An empty store for `network`.
    pub fn mem(network: Network) -> (r: LightChainDB)
        ensures
            r.wf(),
            r.network_spec() == network,
            r.headers().len() == 0,
            r.trunk().len() == 0,
            r.filters().len() == 0,
    {
        let r = LightChainDB { network, headers: Vec::new(), trunk: Vec::new(), filters: Vec::new() };
        assert(r.trunk() =~= Seq::empty());
        assert(r.filters() =~= Seq::empty());
        r
    }

    /// The position of the header known under `h`, if any.
    fn find_header(&self, h: &BlockHash) -> (r: Option<usize>)
        requires
            self.wf(),
        ensures
            r is None <==> !self.is_known(h@),
            r matches Some(i) ==> i < self.headers().len() && i == self.header_index(h@),
    {
        let mut i: usize = 0;
        while i < self.headers.len()
            invariant
                i <= self.headers@.len(),
                self.headers() == self.headers@,
                self.wf(),
                forall|j: int| 0 <= j < i ==> self.headers()[j].hash@ != h@,
            decreases self.headers@.len() - i,
        {
            if self.headers[i].hash.same(h) {
                assert(self.headers()[i as int].hash@ == h@);
                assert(self.is_known(h@));
                let ghost k = self.header_index(h@);
                assert(self.headers()[k].hash@ == h@);
                assert(self.headers@[k] == self.headers@[k] && self.headers@[i as int] == self.headers@[i as int]);
                return Some(i);
            }
            i = i + 1;
        }
        None
    }

    /// The position of the filter recorded under (`b`, `p`), if any.
    fn find_filter(&self, b: &BlockHash, p: &BlockHash) -> (r: Option<usize>)
        requires
            self.wf(),
        ensures
            r is None <==> !self.has_filter(b@, p@),
            r matches Some(i) ==> i < self.filters().len() && i == self.filter_index(b@, p@),
    {
        let mut i: usize = 0;
        while i < self.filters.len()
            invariant
                i <= self.filters@.len(),
                self.filters().len() == self.filters@.len(),
                self.wf(),
                forall|j: int| 0 <= j < i ==> !(#[trigger] self.filters()[j].0 == b@ && self.filters()[j].1 == p@),
            decreases self.filters@.len() - i,
        {
            if self.filters[i].block.same(b) && self.filters[i].prev.same(p) {
                assert(self.filters()[i as int].0 == b@ && self.filters()[i as int].1 == p@);
                assert(self.has_filter(b@, p@));
                let ghost k = self.filter_index(b@, p@);
                assert(self.filters()[k].0 == b@ && self.filters()[k].1 == p@);
                return Some(i);
            }
            i = i + 1;
        }
        None
    }

    /// Whether `h` is on the trunk.
    pub fn is_on_trunk(&self, h: &BlockHash) -> (r: bool)
        ensures
            r == self.on_trunk(h@),
    {
        let mut i: usize = 0;
        while i < self.trunk.len()
            invariant
                i <= self.trunk@.len(),
                self.trunk().len() == self.trunk@.len(),
                forall|j: int| 0 <= j < i ==> self.trunk()[j] != h@,
            decreases self.trunk@.len() - i,
        {
            if self.trunk[i].same(h) {
                assert(self.trunk()[i as int] == h@);
                return true;
            }
            i = i + 1;
        }
        assert(!self.trunk().contains(h@));
        false
    }

    /// The header known under `h`, if any.
    pub fn get_header(&self, h: &BlockHash) -> (r: Option<BlockHeader>)
        requires
            self.wf(),
        ensures
            r == self.header_of(h@),
    {
        match self.find_header(h) {
            Some(i) => Some(self.headers[i].header),
            None => None,
        }
    }

    /// Records `header` as known, unless a header of the same hash is; the
    /// trunk is not touched. Returns the header's hash.
    pub fn add_header(&mut self, header: BlockHeader) -> (r: BlockHash)
        requires
            old(self).wf(),
        ensures
            final(self).wf(),
            r@ == header_hash_of(header),
            final(self).network_spec() == old(self).network_spec(),
            final(self).trunk() == old(self).trunk(),
            final(self).filters() == old(self).filters(),
            old(self).is_known(r@) ==> final(self).headers() == old(self).headers(),
            !old(self).is_known(r@) ==> final(self).headers() == old(self).headers().push(
                StoredHeader { hash: r, header },
            ),
            final(self).header_of(r@) == (if old(self).is_known(r@) { old(self).header_of(r@) } else { Some(header) }),
            final(self).is_known(r@),
            forall|h: Seq<u8>| h != r@ ==> #[trigger] final(self).header_of(h) == old(self).header_of(h),
    {
        let hash = header.block_hash();
        if self.find_header(&hash).is_none() {
            self.headers.push(StoredHeader { hash, header });
            let ghost n = self.headers@.len() - 1;
            assert(self.headers()[n].hash@ == hash@);
            assert(self.is_known(hash@));
            let ghost k = self.header_index(hash@);
            assert(self.headers()[k].hash@ == hash@);
            assert(self.headers@[k] == self.headers@[k] && self.headers@[n] == self.headers@[n]);
        }
        proof {
            let o = *old(self);
            assert forall|h: Seq<u8>| h != hash@ implies #[trigger] self.header_of(h) == o.header_of(h) by {
                if o.is_known(h) {
                    let k = o.header_index(h);
                    assert(self.headers()[k].hash@ == h);
                    let k2 = self.header_index(h);
                    assert(self.headers@[k] == self.headers@[k] && self.headers@[k2] == self.headers@[k2]);
                }
                if self.is_known(h) {
                    let k = self.header_index(h);
                    assert(o.headers()[k].hash@ == h);
                }
            }
        }
        hash
    }

    /// Appends the known header `h` to the trunk, unless it is unknown or
    /// already on the trunk. Returns whether the trunk grew.
    pub fn mark_on_trunk(&mut self, h: &BlockHash) -> (r: bool)
        requires
            old(self).wf(),
        ensures
            final(self).wf(),
            r == (old(self).is_known(h@) && !old(self).on_trunk(h@)),
            final(self).network_spec() == old(self).network_spec(),
            final(self).headers() == old(self).headers(),
            final(self).filters() == old(self).filters(),
            r ==> final(self).trunk() == old(self).trunk().push(h@),
            !r ==> final(self).trunk() == old(self).trunk(),
    {
        if self.get_header(h).is_none() || self.is_on_trunk(h) {
            return false;
        }
        self.trunk.push(*h);
        assert(self.trunk() =~= old(self).trunk().push(h@));
        true
    }

    /// The hash at the end of the trunk, if any.
    pub fn tip(&self) -> (r: Option<BlockHash>)
        ensures
            r matches Some(t) ==> self.trunk_tip() == Some(t@),
            r is None ==> self.trunk_tip() is None,
    {
        let n = self.trunk.len();
        if n == 0 {
            None
        } else {
            Some(self.trunk[n - 1])
        }
    }

    /// Seeds an empty store with the network's genesis header, on the trunk.
    /// A store that already knows a header is left as it is.
    pub fn init(&mut self)
        requires
            old(self).wf(),
        ensures
            final(self).wf(),
            final(self).network_spec() == old(self).network_spec(),
            final(self).filters() == old(self).filters(),
            old(self).headers().len() != 0 ==> *final(self) == *old(self),
            old(self).headers().len() == 0 && old(self).trunk().len() == 0 ==> {
                let g = genesis_header_of(old(self).network_spec());
                &&& final(self).headers().len() == 1
                &&& final(self).headers()[0].header == g
                &&& final(self).trunk() == seq![header_hash_of(g)]
            },
    {
        if self.headers.len() != 0 {
            return;
        }
        let g = genesis_header(self.network);
        let hash = self.add_header(g);
        if self.trunk.len() == 0 {
            self.trunk.push(hash);
            assert(self.trunk() =~= seq![hash@]);
        }
    }

    /// Records `content` as the filter of block `b` with parent `p`,
    /// replacing one recorded earlier under the same key.
    pub fn add_filter(&mut self, b: &BlockHash, p: &BlockHash, content: Vec<u8>)
        requires
            old(self).wf(),
        ensures
            final(self).wf(),
            final(self).network_spec() == old(self).network_spec(),
            final(self).headers() == old(self).headers(),
            final(self).trunk() == old(self).trunk(),
            final(self).filter_of(b@, p@) == Some(content@),
            forall|b2: Seq<u8>, p2: Seq<u8>| !(b2 == b@ && p2 == p@) ==>
                #[trigger] final(self).filter_of(b2, p2) == old(self).filter_of(b2, p2),
            final(self).filters().len() == old(self).filters().len() + (if old(self).has_filter(b@, p@) { 0int } else { 1int }),
    {
        let found = self.find_filter(b, p);
        let entry = FilterEntry { block: *b, prev: *p, content };
        if let Some(i) = found {
            self.filters.set(i, entry);
            assert(self.filters() =~= old(self).filters().update(i as int, (b@, p@, content@)));
            assert(self.filters()[i as int].0 == b@ && self.filters()[i as int].1 == p@);
            let ghost k0 = self.filter_index(b@, p@);
            assert(self.filters@[k0] == self.filters@[k0] && self.filters@[i as int] == self.filters@[i as int]);
            assert(old(self).filters()[i as int].0 == b@ && old(self).filters()[i as int].1 == p@);
            assert forall|x: int, y: int|
                0 <= x < self.filters@.len() && 0 <= y < self.filters@.len() && x != y implies
                !(self.filters@[x].block@ == self.filters@[y].block@ && self.filters@[x].prev@ == self.filters@[y].prev@) by {
                assert(old(self).filters@[x] == old(self).filters@[x] && old(self).filters@[y] == old(self).filters@[y]);
                assert(old(self).filters@[i as int] == old(self).filters@[i as int]);
            }
            assert forall|b2: Seq<u8>, p2: Seq<u8>| !(b2 == b@ && p2 == p@) implies
                #[trigger] self.filter_of(b2, p2) == old(self).filter_of(b2, p2) by {
                if old(self).has_filter(b2, p2) {
                    let k = old(self).filter_index(b2, p2);
                    assert(self.filters()[k].0 == b2 && self.filters()[k].1 == p2);
                    assert(self.filter_index(b2, p2) == k);
                }
                if self.has_filter(b2, p2) {
                    let k = self.filter_index(b2, p2);
                    assert(old(self).filters()[k].0 == b2 && old(self).filters()[k].1 == p2);
                }
            }
        } else {
            self.filters.push(entry);
            let ghost n = old(self).filters().len();
            assert(self.filters() =~= old(self).filters().push((b@, p@, content@)));
            assert(self.filters()[n as int].0 == b@ && self.filters()[n as int].1 == p@);
            let ghost k0 = self.filter_index(b@, p@);
            assert(self.filters@[k0] == self.filters@[k0] && self.filters@[n as int] == self.filters@[n as int]);
            assert forall|x: int, y: int|
                0 <= x < self.filters@.len() && 0 <= y < self.filters@.len() && x != y implies
                !(self.filters@[x].block@ == self.filters@[y].block@ && self.filters@[x].prev@ == self.filters@[y].prev@) by {
                if x < n && y < n {
                    assert(old(self).filters@[x] == old(self).filters@[x] && old(self).filters@[y] == old(self).filters@[y]);
                } else if x < n {
                    assert(old(self).filters()[x].0 == old(self).filters@[x].block@);
                    assert(old(self).filters()[x].1 == old(self).filters@[x].prev@);
                } else {
                    assert(old(self).filters()[y].0 == old(self).filters@[y].block@);
                    assert(old(self).filters()[y].1 == old(self).filters@[y].prev@);
                }
            }
            assert forall|b2: Seq<u8>, p2: Seq<u8>| !(b2 == b@ && p2 == p@) implies
                #[trigger] self.filter_of(b2, p2) == old(self).filter_of(b2, p2) by {
                if old(self).has_filter(b2, p2) {
                    let k = old(self).filter_index(b2, p2);
                    assert(self.filters()[k].0 == b2 && self.filters()[k].1 == p2);
                    assert(self.filter_index(b2, p2) == k);
                }
                if self.has_filter(b2, p2) {
                    let k = self.filter_index(b2, p2);
                    assert(old(self).filters()[k].0 == b2 && old(self).filters()[k].1 == p2);
                }
            }
        }
    }

    /// The filter recorded under (`b`, `p`), if any.
    pub fn get_filter(&self, b: &BlockHash, p: &BlockHash) -> (r: Option<Vec<u8>>)
        requires
            self.wf(),
        ensures
            r matches Some(c) ==> self.filter_of(b@, p@) == Some(c@),
            r is None ==> self.filter_of(b@, p@) is None,
    {
        match self.find_filter(b, p) {
            Some(i) => Some(self.filters[i].content.clone()),
            None => None,
        }
    }

    /// Retracts the trunk by one hash and returns the new end of the trunk.
    /// An empty trunk stays empty.
    pub fn unwind_tip(&mut self) -> (r: Option<BlockHash>)
        requires
            old(self).wf(),
        ensures
            final(self).wf(),
            final(self).network_spec() == old(self).network_spec(),
            final(self).headers() == old(self).headers(),
            final(self).filters() == old(self).filters(),
            old(self).trunk().len() == 0 ==> final(self).trunk() == old(self).trunk(),
            old(self).trunk().len() > 0 ==> final(self).trunk() == old(self).trunk().drop_last(),
            r matches Some(t) ==> final(self).trunk_tip() == Some(t@),
            r is None ==> final(self).trunk_tip() is None,
    {
        if self.trunk.len() > 0 {
            self.trunk.pop();
            assert(self.trunk() =~= old(self).trunk().drop_last());
        }
        self.tip()
    }

    pub fn network(&self) -> (r: Network)
        ensures
            r == self.network_spec(),
    {
        self.network
    }
}

} // verus!
