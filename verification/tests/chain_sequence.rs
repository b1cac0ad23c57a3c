//! Behaviour of the sequencing session over the in-memory store engine.

use source_chain::address::Address;
use source_chain::chain_sequence::ChainSequenceBuffer;
use source_chain::error::WorkspaceError;
use source_chain::store::{ChainStore, StoreBuffer};

fn addr(s: &str) -> Address {
    Address::new(s.as_bytes().to_vec())
}

#[test]
fn chain_sequence_scratch_awareness() {
    let store = ChainStore::new();
    let reader = store.reader();
    let mut buf = ChainSequenceBuffer::new(&reader).unwrap();
    assert_eq!(buf.chain_head(), None);
    buf.add_header(addr("0"));
    assert_eq!(buf.chain_head(), Some(&addr("0")));
    buf.add_header(addr("1"));
    assert_eq!(buf.chain_head(), Some(&addr("1")));
    buf.add_header(addr("2"));
    assert_eq!(buf.chain_head(), Some(&addr("2")));
}

#[test]
fn chain_sequence_functionality() {
    let store = ChainStore::new();
    let reader = store.reader();
    let mut buf = ChainSequenceBuffer::new(&reader).unwrap();
    buf.add_header(addr("0"));
    buf.add_header(addr("1"));
    assert_eq!(buf.chain_head(), Some(&addr("1")));
    buf.add_header(addr("2"));
    let mut writer = store.begin_write();
    buf.finalize(&mut writer).unwrap();
    let store = writer.commit();

    let buf = ChainSequenceBuffer::new(&store.reader()).unwrap();
    assert_eq!(buf.chain_head(), Some(&addr("2")));
    let items: Vec<u32> = store.items().iter().map(|i| i.index).collect();
    assert_eq!(items, vec![0, 1, 2]);

    let mut buf = ChainSequenceBuffer::new(&store.reader()).unwrap();
    buf.add_header(addr("3"));
    buf.add_header(addr("4"));
    buf.add_header(addr("5"));
    let mut writer = store.begin_write();
    buf.finalize(&mut writer).unwrap();
    let store = writer.commit();

    let buf = ChainSequenceBuffer::new(&store.reader()).unwrap();
    assert_eq!(buf.chain_head(), Some(&addr("5")));
    let items: Vec<u32> = store.items().iter().map(|i| i.tx_seq).collect();
    assert_eq!(items, vec![0, 0, 0, 1, 1, 1]);
}

#[test]
fn chain_sequence_head_moved() {
    let store = ChainStore::new();
    let reader_a = store.reader();
    let reader_b = store.reader();

    let mut buf_a = ChainSequenceBuffer::new(&reader_a).unwrap();
    buf_a.add_header(addr("0"));
    buf_a.add_header(addr("1"));
    buf_a.add_header(addr("2"));

    let mut buf_b = ChainSequenceBuffer::new(&reader_b).unwrap();
    buf_b.add_header(addr("3"));
    buf_b.add_header(addr("4"));
    buf_b.add_header(addr("5"));

    // B's finalize acquires the writer transaction first and commits.
    let mut writer = store.begin_write();
    assert!(buf_b.finalize(&mut writer).is_ok());
    let store = writer.commit();

    // A then finalizes: the head moved, so it must fail and write nothing.
    let mut writer = store.begin_write();
    let result = buf_a.finalize(&mut writer);
    assert_eq!(result, Err(WorkspaceError::SourceChainHeadMoved));
    let store = writer.abort();

    // The final store holds exactly what B alone produced.
    let indices: Vec<u32> = store.items().iter().map(|i| i.index).collect();
    assert_eq!(indices, vec![0, 1, 2]);
    let batches: Vec<u32> = store.items().iter().map(|i| i.tx_seq).collect();
    assert_eq!(batches, vec![0, 0, 0]);
    let heads: Vec<Address> = store.items().iter().map(|i| i.header_address.clone()).collect();
    assert_eq!(heads, vec![addr("3"), addr("4"), addr("5")]);
    let buf = ChainSequenceBuffer::new(&store.reader()).unwrap();
    assert_eq!(buf.chain_head(), Some(&addr("5")));
}

#[test]
fn with_reader_keeps_staged_records() {
    let store = ChainStore::new();
    let reader = store.reader();
    let mut buf = ChainSequenceBuffer::new(&reader).unwrap();
    buf.add_header(addr("a"));
    buf.add_header(addr("b"));

    // Rebinding to a fresh reader of the same store keeps the staging area
    // while every derived field reflects the new reader's durable view.
    let fresh_reader = store.reader();
    let buf = buf.with_reader(&fresh_reader).unwrap();
    assert_eq!(buf.chain_head(), None);

    let mut writer = store.begin_write();
    buf.finalize(&mut writer).unwrap();
    let store = writer.commit();
    let heads: Vec<Address> = store.items().iter().map(|i| i.header_address.clone()).collect();
    assert_eq!(heads, vec![addr("a"), addr("b")]);
}

#[test]
fn empty_session_commits_nothing_and_keeps_batch_numbering() {
    let store = ChainStore::new();
    let buf = ChainSequenceBuffer::new(&store.reader()).unwrap();
    let mut writer = store.begin_write();
    buf.finalize(&mut writer).unwrap();
    let store = writer.commit();
    assert!(store.items().is_empty());

    // A later session still opens batch zero: nothing was committed.
    let mut buf = ChainSequenceBuffer::new(&store.reader()).unwrap();
    buf.add_header(addr("x"));
    let mut writer = store.begin_write();
    buf.finalize(&mut writer).unwrap();
    let store = writer.commit();
    let batches: Vec<u32> = store.items().iter().map(|i| i.tx_seq).collect();
    assert_eq!(batches, vec![0]);
}
