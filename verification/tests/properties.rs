//! Concrete instances of the sequencing laws.

use source_chain::address::Address;
use source_chain::chain_sequence::ChainSequenceBuffer;
use source_chain::error::WorkspaceError;
use source_chain::store::{ChainStore, StoreBuffer};

fn addr(s: &str) -> Address {
    Address::new(s.as_bytes().to_vec())
}

/// Commits a session staging `headers` over `store`; the head must not
/// have moved, so the commit succeeds.
fn commit(store: ChainStore, headers: &[&str]) -> ChainStore {
    let reader = store.reader();
    let mut buf = ChainSequenceBuffer::new(&reader).unwrap();
    for h in headers {
        buf.add_header(addr(h));
    }
    let mut writer = store.begin_write();
    buf.finalize(&mut writer).unwrap();
    writer.commit()
}

#[test]
fn indices_are_gap_free_across_sessions() {
    let store = ChainStore::new();
    let store = commit(store, &["a"]);
    let store = commit(store, &["b", "c", "d"]);
    let store = commit(store, &["e", "f"]);
    let indices: Vec<u32> = store.items().iter().map(|i| i.index).collect();
    assert_eq!(indices, vec![0, 1, 2, 3, 4, 5]);
}

#[test]
fn head_follows_last_append_and_never_reverts() {
    let store = ChainStore::new();
    let store = commit(store, &["a", "b"]);
    let buf = ChainSequenceBuffer::new(&store.reader()).unwrap();
    assert_eq!(buf.chain_head(), Some(&addr("b")));

    let store = commit(store, &["c"]);
    let buf = ChainSequenceBuffer::new(&store.reader()).unwrap();
    assert_eq!(buf.chain_head(), Some(&addr("c")));

    // The earlier records stay an untouched prefix.
    let heads: Vec<Address> = store.items().iter().map(|i| i.header_address.clone()).collect();
    assert_eq!(heads, vec![addr("a"), addr("b"), addr("c")]);
}

#[test]
fn batch_increments_by_one_whatever_each_session_appended() {
    let store = ChainStore::new();
    let store = commit(store, &["a"]);
    let store = commit(store, &["b", "c", "d"]);
    let store = commit(store, &["e", "f"]);
    let batches: Vec<u32> = store.items().iter().map(|i| i.tx_seq).collect();
    assert_eq!(batches, vec![0, 1, 1, 1, 2, 2]);
}

#[test]
fn head_reflects_staged_append_before_any_commit() {
    let store = ChainStore::new();
    let reader = store.reader();
    let mut buf = ChainSequenceBuffer::new(&reader).unwrap();
    buf.add_header(addr("h"));
    assert_eq!(buf.chain_head(), Some(&addr("h")));
}

#[test]
fn conflicting_session_contributes_nothing_over_nonempty_baseline() {
    let store = ChainStore::new();
    let store = commit(store, &["base"]);

    let reader_a = store.reader();
    let reader_b = store.reader();
    let mut buf_a = ChainSequenceBuffer::new(&reader_a).unwrap();
    buf_a.add_header(addr("a1"));
    let mut buf_b = ChainSequenceBuffer::new(&reader_b).unwrap();
    buf_b.add_header(addr("b1"));
    buf_b.add_header(addr("b2"));

    let mut writer = store.begin_write();
    assert!(buf_b.finalize(&mut writer).is_ok());
    let store = writer.commit();

    let mut writer = store.begin_write();
    assert_eq!(buf_a.finalize(&mut writer), Err(WorkspaceError::SourceChainHeadMoved));
    let store = writer.abort();

    let heads: Vec<Address> = store.items().iter().map(|i| i.header_address.clone()).collect();
    assert_eq!(heads, vec![addr("base"), addr("b1"), addr("b2")]);
    let batches: Vec<u32> = store.items().iter().map(|i| i.tx_seq).collect();
    assert_eq!(batches, vec![0, 1, 1]);
}

#[test]
fn records_start_with_transforms_incomplete() {
    let store = ChainStore::new();
    let store = commit(store, &["a", "b"]);
    assert!(store.items().iter().all(|i| !i.dht_transforms_complete));
}
