//! An in-memory model of the transactional engine the sequencing layer
//! runs against: a store of chain records reached through snapshot readers
//! and one serialized, exclusive writer transaction.
//!
//! Readers are cheap copies of committed state and any number may be
//! outstanding. A writer takes ownership of the whole store, so the type
//! system itself serializes write transactions: a second writer cannot
//! begin until the first has committed or aborted.

use vstd::prelude::*;

use crate::chain_sequence::{items_view, ChainSequenceItem, ItemModel};
use crate::error::WorkspaceError;

verus! {

/// Something the sequencing layer can derive a session from: a consistent,
/// ordered view of chain records.
pub trait Readable {
    /// The records this view holds, in key order.
    spec fn chain_view(&self) -> Seq<ItemModel>;

    /// The record with the greatest key, or `None` when the view is empty.
    /// Index order permits seeking directly to the tail, so implementors
    /// need no full scan.
    fn latest(&self) -> (r: Option<&ChainSequenceItem>)
        ensures
            match r {
                Some(item) => self.chain_view().len() > 0 && item@ == self.chain_view().last(),
                None => self.chain_view().len() == 0,
            },
    ;
}

/// Any component that stages writes over the engine before committing them
/// must expose `finalize`: all staged writes become durable as part of the
/// caller's writer transaction, or none does and an error says why. Nothing
/// before `finalize` may touch the store.
pub trait StoreBuffer {
    /// The records this component has staged, in write order.
    spec fn staged_view(&self) -> Seq<ItemModel>;

    /// Flushes every staged write into the caller's writer transaction,
    /// all or nothing.
    fn finalize(self, writer: &mut Writer) -> (r: Result<(), WorkspaceError>)
        ensures
            r is Ok ==> final(writer)@ == old(writer)@ + self.staged_view(),
            r is Err ==> final(writer)@ == old(writer)@,
    ;
}

/// The durable store: the chain records committed so far, in key order.
pub struct ChainStore {
    chain: Vec<ChainSequenceItem>,
}

/// A read-only snapshot of store state, fixed at some commit instant.
pub struct Reader {
    snapshot: Vec<ChainSequenceItem>,
}

/// The single exclusive write transaction. Its consistent read view holds
/// everything committed before it began plus its own pending writes; the
/// pending writes become durable only through `commit`.
pub struct Writer {
    base: Vec<ChainSequenceItem>,
    appended: Vec<ChainSequenceItem>,
}

impl View for ChainStore {
    type V = Seq<ItemModel>;

    closed spec fn view(&self) -> Seq<ItemModel> {
        items_view(self.chain@)
    }
}

impl View for Reader {
    type V = Seq<ItemModel>;

    closed spec fn view(&self) -> Seq<ItemModel> {
        items_view(self.snapshot@)
    }
}

impl Writer {
    /// The committed records this transaction began from.
    pub closed spec fn base_view(&self) -> Seq<ItemModel> {
        items_view(self.base@)
    }

    /// The records written into this transaction so far.
    pub closed spec fn appended_view(&self) -> Seq<ItemModel> {
        items_view(self.appended@)
    }
}

impl View for Writer {
    type V = Seq<ItemModel>;

    open spec fn view(&self) -> Seq<ItemModel> {
        self.base_view() + self.appended_view()
    }
}

/// Copies records so that a reader owns its snapshot.
fn clone_items(items: &Vec<ChainSequenceItem>) -> (r: Vec<ChainSequenceItem>)
    ensures
        items_view(r@) == items_view(items@),
{
    let r = items.clone();
    proof {
        assert(items_view(r@) =~= items_view(items@));
    }
    r
}

impl ChainStore {
    /// An empty store: no records have ever been committed.
    pub fn new() -> (store: ChainStore)
        ensures
            store@ == Seq::<ItemModel>::empty(),
    {
        let store = ChainStore { chain: Vec::new() };
        proof {
            assert(store@ =~= Seq::<ItemModel>::empty());
        }
        store
    }

    /// Opens a snapshot reader over the committed records. Any number of
    /// readers may be outstanding at once.
    pub fn reader(&self) -> (r: Reader)
        ensures
            r@ == self@,
    {
        Reader { snapshot: clone_items(&self.chain) }
    }

    /// Begins the store's single write transaction. The store moves into
    /// the writer and comes back through `commit` or `abort`, so write
    /// transactions are serialized by ownership.
    pub fn begin_write(self) -> (w: Writer)
        ensures
            w.base_view() == self@,
            w.appended_view() == Seq::<ItemModel>::empty(),
    {
        let w = Writer { base: self.chain, appended: Vec::new() };
        proof {
            assert(w.appended_view() =~= Seq::<ItemModel>::empty());
        }
        w
    }

    /// The committed records, in key order.
    pub fn items(&self) -> (r: &Vec<ChainSequenceItem>)
        ensures
            items_view(r@) == self@,
    {
        &self.chain
    }
}

impl Readable for Reader {
    open spec fn chain_view(&self) -> Seq<ItemModel> {
        self@
    }

    fn latest(&self) -> (r: Option<&ChainSequenceItem>) {
        let n = self.snapshot.len();
        if n == 0 {
            None
        } else {
            Some(&self.snapshot[n - 1])
        }
    }
}

impl Readable for Writer {
    open spec fn chain_view(&self) -> Seq<ItemModel> {
        self@
    }

    fn latest(&self) -> (r: Option<&ChainSequenceItem>) {
        let n_appended = self.appended.len();
        if n_appended > 0 {
            let item = &self.appended[n_appended - 1];
            proof {
                assert(item@ == self.chain_view().last());
            }
            Some(item)
        } else {
            let n_base = self.base.len();
            if n_base > 0 {
                let item = &self.base[n_base - 1];
                proof {
                    assert(item@ == self.chain_view().last());
                }
                Some(item)
            } else {
                proof {
                    assert(self.chain_view().len() == 0);
                }
                None
            }
        }
    }
}

impl Writer {
    /// Writes one record into this transaction, keyed after everything the
    /// transaction already sees.
    pub fn put(&mut self, item: ChainSequenceItem)
        ensures
            final(self).base_view() == old(self).base_view(),
            final(self).appended_view() == old(self).appended_view().push(item@),
    {
        let ghost before = self.appended@;
        self.appended.push(item);
        proof {
            assert(items_view(self.appended@) =~= items_view(before).push(item@));
        }
    }

    /// Makes every write of this transaction durable and hands the store
    /// back.
    pub fn commit(self) -> (store: ChainStore)
        ensures
            store@ == self.base_view() + self.appended_view(),
    {
        let Writer { mut base, mut appended } = self;
        let ghost base_before = base@;
        let ghost appended_before = appended@;
        base.append(&mut appended);
        proof {
            assert(items_view(base@) =~= items_view(base_before) + items_view(appended_before));
        }
        ChainStore { chain: base }
    }

    /// Abandons every write of this transaction and hands the store back
    /// exactly as it was when the transaction began.
    pub fn abort(self) -> (store: ChainStore)
        ensures
            store@ == self.base_view(),
    {
        ChainStore { chain: self.base }
    }
}

} // verus!
