use chaindb::block::{Block, BlockHash, BlockHeader, Network};
use chaindb::chain::{check_extend, ChainDB, ChainError, Skip};
use chaindb::heavy::BlockRef;
use chaindb::light::LightChainDB;

fn hash_from_display(s: &str) -> BlockHash {
    let mut bytes = [0u8; 32];
    for i in 0..32 {
        bytes[31 - i] = u8::from_str_radix(&s[2 * i..2 * i + 2], 16).unwrap();
    }
    BlockHash { bytes }
}

fn filled(b: u8) -> BlockHash {
    BlockHash { bytes: [b; 32] }
}

fn header_on(prev: BlockHash, nonce: u32) -> BlockHeader {
    BlockHeader { version: 1, prev_blockhash: prev, merkle_root: filled(7), time: 1_300_000_000, bits: 0x1d00ffff, nonce }
}

fn filter_of(block: &Block, _utxos: &chaindb::heavy::UtxoStore) -> Vec<u8> {
    let mut v = block.header.nonce.to_le_bytes().to_vec();
    v.push(block.txdata.len() as u8);
    v
}

/// A heavy testnet instance, initialized, with the genesis block imported
/// so that the block store's tip is the genesis hash.
fn heavy_with_genesis() -> (ChainDB, BlockHash) {
    let mut db = ChainDB::mem(Network::Testnet, true).unwrap();
    db.init().unwrap();
    let g_hash = db.light().tip().unwrap();
    let g = db.light().get_header(&g_hash).unwrap();
    let r = db.import_block(&Block { header: g, txdata: vec![] });
    assert_eq!(r, Some(BlockRef { pos: 0 }));
    (db, g_hash)
}

fn stored_count(db: &ChainDB) -> usize {
    db.heavy().unwrap().blocks.len()
}

fn heavy_tip(db: &ChainDB) -> Option<BlockHash> {
    db.heavy().unwrap().blocks.fetch_tip()
}

#[test]
fn genesis_hashes_match_the_networks() {
    let cases = [
        (Network::Bitcoin, "000000000019d6689c085ae165831e934ff763ae46a2a6c172b3f1b60a8ce26f"),
        (Network::Testnet, "000000000933ea01ad0ee984209779baaec3ced90fa3f408719526f8d77f4943"),
        (Network::Regtest, "0f9188f13cb7b2c71f2a335e3a4fc328bf5beb436012afca590b1a11466e2206"),
    ];
    for (net, hex) in cases.iter() {
        let mut light = LightChainDB::mem(*net);
        light.init();
        let tip = light.tip().unwrap();
        assert_eq!(tip.bytes, hash_from_display(hex).bytes);
        let g = light.get_header(&tip).unwrap();
        assert_eq!(g.prev_blockhash.bytes, [0u8; 32]);
        let b = Block { header: g, txdata: vec![] };
        assert_eq!(b.block_hash().bytes, tip.bytes);
    }
}

#[test]
fn init_is_idempotent() {
    let mut db = ChainDB::mem(Network::Regtest, false).unwrap();
    db.init().unwrap();
    let first = db.light().tip().unwrap();
    db.init().unwrap();
    assert_eq!(db.light().tip().unwrap().bytes, first.bytes);
    db.unwind_tip().unwrap();
    assert!(db.light().tip().is_none());
}

#[test]
fn hash_depends_on_every_field() {
    let h = header_on(filled(1), 5);
    let base = Block { header: h, txdata: vec![] }.block_hash();
    let mut other = h;
    other.nonce = 6;
    assert!(!Block { header: other, txdata: vec![] }.block_hash().same(&base));
    let mut other = h;
    other.prev_blockhash = filled(2);
    assert!(!Block { header: other, txdata: vec![] }.block_hash().same(&base));
    assert!(Block { header: h, txdata: vec![vec![1]] }.block_hash().same(&base));
}

#[test]
fn block_hash_same_and_zero() {
    assert!(BlockHash::zero().same(&filled(0)));
    assert!(!BlockHash::zero().same(&filled(1)));
    let mut a = filled(3);
    let b = filled(3);
    assert!(a.same(&b));
    a.bytes[31] = 4;
    assert!(!a.same(&b));
}

#[test]
fn check_extend_follows_condition_order() {
    let t = filled(1);
    let on_t = header_on(filled(1), 0);
    let off_t = header_on(filled(2), 0);
    assert_eq!(check_extend(false, true, None, None), Some(Skip::LightOnly));
    assert_eq!(check_extend(true, true, None, None), Some(Skip::OnTrunk));
    assert_eq!(check_extend(true, false, None, Some(on_t)), Some(Skip::NoHeavyTip));
    assert_eq!(check_extend(true, false, Some(t), None), Some(Skip::UnknownHeader));
    assert_eq!(check_extend(true, false, Some(t), Some(off_t)), Some(Skip::NotOnHeavyTip));
    assert_eq!(check_extend(true, false, Some(t), Some(on_t)), None);
}

#[test]
fn scenario_extend_then_on_trunk_is_noop() {
    let (mut db, g_hash) = heavy_with_genesis();
    let b1 = Block { header: header_on(g_hash, 11), txdata: vec![vec![1, 2, 3]] };
    let b1_hash = db.add_header(b1.header);
    assert_eq!(db.extend_check(&b1), None);
    assert_eq!(db.extend_blocks_utxo_filters(&b1, filter_of), Ok(()));
    assert_eq!(stored_count(&db), 2);
    assert_eq!(heavy_tip(&db).unwrap().bytes, b1_hash.bytes);
    assert_eq!(db.heavy().unwrap().utxos.applied_blocks(), vec![BlockRef { pos: 1 }]);
    assert_eq!(db.light().get_filter(&b1_hash, &g_hash), Some(vec![11, 0, 0, 0, 1]));

    assert!(db.mark_on_trunk(&b1_hash));
    assert_eq!(db.extend_check(&b1), Some(Skip::OnTrunk));
    assert_eq!(db.extend_blocks_utxo_filters(&b1, filter_of), Ok(()));
    assert_eq!(stored_count(&db), 2);
    assert_eq!(db.heavy().unwrap().utxos.applied_blocks(), vec![BlockRef { pos: 1 }]);
}

#[test]
fn parent_not_on_heavy_tip_stores_nothing() {
    let (mut db, g_hash) = heavy_with_genesis();
    let stray = Block { header: header_on(filled(9), 1), txdata: vec![] };
    let stray_hash = db.add_header(stray.header);
    assert_eq!(db.extend_check(&stray), Some(Skip::NotOnHeavyTip));
    assert_eq!(db.extend_blocks(&stray), Ok(None));
    assert_eq!(db.extend_blocks_utxo_filters(&stray, filter_of), Ok(()));
    assert_eq!(stored_count(&db), 1);
    assert_eq!(heavy_tip(&db).unwrap().bytes, g_hash.bytes);
    assert!(db.heavy().unwrap().utxos.applied_blocks().is_empty());
    assert_eq!(db.light().get_filter(&stray_hash, &filled(9)), None);
}

#[test]
fn unknown_header_stores_nothing() {
    let (mut db, g_hash) = heavy_with_genesis();
    let b1 = Block { header: header_on(g_hash, 2), txdata: vec![] };
    assert_eq!(db.extend_check(&b1), Some(Skip::UnknownHeader));
    assert_eq!(db.extend_blocks_utxo_filters(&b1, filter_of), Ok(()));
    assert_eq!(stored_count(&db), 1);
}

#[test]
fn empty_block_store_stores_nothing() {
    let mut db = ChainDB::mem(Network::Testnet, true).unwrap();
    db.init().unwrap();
    let g_hash = db.light().tip().unwrap();
    let b1 = Block { header: header_on(g_hash, 3), txdata: vec![] };
    db.add_header(b1.header);
    assert_eq!(db.extend_check(&b1), Some(Skip::NoHeavyTip));
    assert_eq!(db.extend_blocks(&b1), Ok(None));
    assert_eq!(stored_count(&db), 0);
}

#[test]
fn light_only_never_touches_heavy_state() {
    let mut db = ChainDB::mem(Network::Testnet, false).unwrap();
    db.init().unwrap();
    let g_hash = db.light().tip().unwrap();
    let b1 = Block { header: header_on(g_hash, 4), txdata: vec![] };
    let b1_hash = db.add_header(b1.header);
    assert_eq!(db.extend_check(&b1), Some(Skip::LightOnly));
    assert_eq!(db.extend_blocks_utxo_filters(&b1, filter_of), Ok(()));
    assert!(db.heavy().is_none());
    assert_eq!(db.import_block(&b1), None);
    assert_eq!(db.light().get_filter(&b1_hash, &g_hash), None);
    assert!(db.mark_on_trunk(&b1_hash));
    let t = db.unwind_tip().unwrap();
    assert_eq!(t.unwrap().bytes, g_hash.bytes);
    assert!(db.heavy().is_none());
}

#[test]
fn unwind_retracts_heavy_then_trunk() {
    let (mut db, g_hash) = heavy_with_genesis();
    let b1 = Block { header: header_on(g_hash, 21), txdata: vec![] };
    let b1_hash = db.add_header(b1.header);
    db.extend_blocks_utxo_filters(&b1, filter_of).unwrap();
    assert!(db.mark_on_trunk(&b1_hash));
    assert_eq!(db.light().tip().unwrap().bytes, b1_hash.bytes);

    let t = db.unwind_tip().unwrap();
    assert_eq!(t.unwrap().bytes, g_hash.bytes);
    assert_eq!(heavy_tip(&db).unwrap().bytes, g_hash.bytes);
    assert_eq!(stored_count(&db), 1);
    assert!(db.heavy().unwrap().utxos.applied_blocks().is_empty());

    // B1 is again the next block on the heavy tip.
    assert_eq!(db.extend_check(&b1), None);
    assert_eq!(db.extend_blocks(&b1), Ok(Some(BlockRef { pos: 1 })));
}

#[test]
fn unwind_of_genesis_leaves_empty_trunk() {
    let (mut db, _g) = heavy_with_genesis();
    let t = db.unwind_tip().unwrap();
    assert!(t.is_none());
    assert!(db.light().tip().is_none());
    assert_eq!(stored_count(&db), 0);
    assert_eq!(heavy_tip(&db).unwrap().bytes, [0u8; 32]);
    assert_eq!(db.unwind_tip(), Ok(None));
    assert_eq!(filled(4), filled(4));
    assert_ne!(filled(4), filled(5));
}

#[test]
fn chain_of_two_extensions() {
    let (mut db, g_hash) = heavy_with_genesis();
    let b1 = Block { header: header_on(g_hash, 31), txdata: vec![] };
    let b1_hash = db.add_header(b1.header);
    let b2 = Block { header: header_on(b1_hash, 32), txdata: vec![vec![9], vec![8]] };
    let b2_hash = db.add_header(b2.header);
    // Out of order: B2 does not extend the tip yet.
    db.extend_blocks_utxo_filters(&b2, filter_of).unwrap();
    assert_eq!(stored_count(&db), 1);
    db.extend_blocks_utxo_filters(&b1, filter_of).unwrap();
    db.extend_blocks_utxo_filters(&b2, filter_of).unwrap();
    assert_eq!(stored_count(&db), 3);
    assert_eq!(heavy_tip(&db).unwrap().bytes, b2_hash.bytes);
    assert_eq!(db.heavy().unwrap().utxos.applied_blocks(), vec![BlockRef { pos: 1 }, BlockRef { pos: 2 }]);
    assert_eq!(db.light().get_filter(&b2_hash, &b1_hash), Some(vec![32, 0, 0, 0, 2]));
    assert_eq!(db.light().get_filter(&b1_hash, &g_hash), Some(vec![31, 0, 0, 0, 0]));
}

#[test]
fn add_filter_replaces_under_same_key() {
    let mut light = LightChainDB::mem(Network::Regtest);
    light.add_filter(&filled(1), &filled(2), vec![1]);
    light.add_filter(&filled(1), &filled(3), vec![2]);
    light.add_filter(&filled(1), &filled(2), vec![3]);
    assert_eq!(light.get_filter(&filled(1), &filled(2)), Some(vec![3]));
    assert_eq!(light.get_filter(&filled(1), &filled(3)), Some(vec![2]));
    assert_eq!(light.get_filter(&filled(2), &filled(1)), None);
}

#[test]
fn headers_are_known_once_and_trunk_needs_known_header() {
    let mut light = LightChainDB::mem(Network::Bitcoin);
    let h = header_on(filled(1), 1);
    assert!(!light.mark_on_trunk(&filled(5)));
    let a = light.add_header(h);
    let b = light.add_header(h);
    assert!(a.same(&b));
    assert!(!light.is_on_trunk(&a));
    assert!(light.mark_on_trunk(&a));
    assert!(!light.mark_on_trunk(&a));
    assert!(light.is_on_trunk(&a));
    assert_eq!(light.network(), Network::Bitcoin);
}

#[test]
fn errors_compare() {
    assert_ne!(ChainError::StoreInit, ChainError::Storage);
}
