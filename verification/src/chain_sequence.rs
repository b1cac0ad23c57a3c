//! The chain sequence layer serves several purposes:
//! - knows what the chain head is, by reading the last record's header address
//! - assigns each record a dense, strictly increasing index
//! - stamps every record committed in the same session with one batch number
//! - tracks whether each record has undergone downstream transform publishing
//!
//! When a session is finalized, a special step ensures source chain
//! consistency: if the chain head has moved since the session was opened,
//! finalizing fails with a head-moved conflict and writes nothing.

use vstd::prelude::*;

use crate::address::Address;
use crate::error::{WorkspaceError, WorkspaceResult};
use crate::store::{Readable, StoreBuffer, Writer};

verus! {

/// One record of the chain sequence log.
#[derive(Debug)]
pub struct ChainSequenceItem {
    /// Content-addressed identifier of the linked header this record points
    /// to. Immutable once committed.
    pub header_address: Address,
    /// Dense, strictly increasing position; also the store key.
    pub index: u32,
    /// Groups all records appended within the same commit session.
    pub tx_seq: u32,
    /// Whether the record's derived transforms have been published by a
    /// downstream process; the only field mutated after commit.
    pub dht_transforms_complete: bool,
}

/// The mathematical value of one chain record.
#[verifier::ext_equal]
pub ghost struct ItemModel {
    pub header_address: Seq<u8>,
    pub index: int,
    pub tx_seq: int,
    pub dht_transforms_complete: bool,
}

impl View for ChainSequenceItem {
    type V = ItemModel;

    open spec fn view(&self) -> ItemModel {
        ItemModel {
            header_address: self.header_address@,
            index: self.index as int,
            tx_seq: self.tx_seq as int,
            dht_transforms_complete: self.dht_transforms_complete,
        }
    }
}

impl Clone for ChainSequenceItem {
    fn clone(&self) -> (r: Self)
        ensures
            r@ == self@,
    {
        ChainSequenceItem {
            header_address: self.header_address.clone(),
            index: self.index,
            tx_seq: self.tx_seq,
            dht_transforms_complete: self.dht_transforms_complete,
        }
    }
}

/// The mathematical value of a sequence of chain records.
pub open spec fn items_view(items: Seq<ChainSequenceItem>) -> Seq<ItemModel> {
    items.map_values(|item: ChainSequenceItem| item@)
}

/// The head of a chain: the header address of its last record, or `None`
/// for an empty chain.
pub open spec fn head_of(chain: Seq<ItemModel>) -> Option<Seq<u8>> {
    if chain.len() == 0 {
        None
    } else {
        Some(chain.last().header_address)
    }
}

/// The index a session opened over `chain` assigns to its first record.
pub open spec fn next_index_of(chain: Seq<ItemModel>) -> int {
    if chain.len() == 0 {
        0
    } else {
        chain.last().index + 1
    }
}

/// The batch number a session opened over `chain` stamps on its records.
pub open spec fn next_batch_of(chain: Seq<ItemModel>) -> int {
    if chain.len() == 0 {
        0
    } else {
        chain.last().tx_seq + 1
    }
}

/// The head of a staging buffer as seen by its owner.
pub open spec fn head_view(head: Option<Address>) -> Option<Seq<u8>> {
    match head {
        Some(address) => Some(address@),
        None => None,
    }
}

/// Well-formedness of a committed chain: indices are dense from zero, the
/// first record opens batch zero, batch numbers are non-negative and grow
/// by at most one from record to record.
pub open spec fn wf_chain(chain: Seq<ItemModel>) -> bool {
    &&& forall|i: int| 0 <= i < chain.len() ==> (#[trigger] chain[i].index) == i
    &&& (chain.len() > 0 ==> chain[0].tx_seq == 0)
    &&& forall|i: int| 0 <= i < chain.len() ==> 0 <= (#[trigger] chain[i].tx_seq)
    &&& forall|i: int|
        0 < i < chain.len() ==> chain[i - 1].tx_seq <= (#[trigger] chain[i].tx_seq)
            <= chain[i - 1].tx_seq + 1
}

/// The mathematical value of a sequencing session.
#[verifier::ext_equal]
pub ghost struct BufferModel {
    /// Records staged in memory, not yet durable.
    pub staged: Seq<ItemModel>,
    /// Index the next staged record receives.
    pub next_index: int,
    /// Batch number stamped on every record this session stages.
    pub tx_seq: int,
    /// Latest head known to the session, staged records included.
    pub current_head: Option<Seq<u8>>,
    /// Head captured from the reader when the session was derived; the
    /// conflict baseline.
    pub persisted_head: Option<Seq<u8>>,
}

/// The session derived from a snapshot of `chain` with nothing staged.
pub open spec fn open_model(chain: Seq<ItemModel>) -> BufferModel {
    BufferModel {
        staged: Seq::empty(),
        next_index: next_index_of(chain),
        tx_seq: next_batch_of(chain),
        current_head: head_of(chain),
        persisted_head: head_of(chain),
    }
}

/// The session `b` rebound to a snapshot of `chain`: staged records are
/// kept, every derived field reflects the new snapshot.
pub open spec fn rebind_model(b: BufferModel, chain: Seq<ItemModel>) -> BufferModel {
    BufferModel { staged: b.staged, ..open_model(chain) }
}

/// The record staged by appending header `h` to session `b`.
pub open spec fn staged_record(b: BufferModel, h: Seq<u8>) -> ItemModel {
    ItemModel {
        header_address: h,
        index: b.next_index,
        tx_seq: b.tx_seq,
        dht_transforms_complete: false,
    }
}

/// The session after appending header `h` to session `b`.
pub open spec fn add_model(b: BufferModel, h: Seq<u8>) -> BufferModel {
    BufferModel {
        staged: b.staged.push(staged_record(b, h)),
        next_index: b.next_index + 1,
        tx_seq: b.tx_seq,
        current_head: Some(h),
        persisted_head: b.persisted_head,
    }
}

/// The session derived from a snapshot of `chain` after staging each
/// header of `headers`, in order.
pub open spec fn session_model(chain: Seq<ItemModel>, headers: Seq<Seq<u8>>) -> BufferModel
    decreases headers.len(),
{
    if headers.len() == 0 {
        open_model(chain)
    } else {
        add_model(session_model(chain, headers.drop_last()), headers.last())
    }
}

/// The chain after a session derived from `chain` stages each header of
/// `headers` and commits with the head unmoved.
pub open spec fn commit_model(chain: Seq<ItemModel>, headers: Seq<Seq<u8>>) -> Seq<ItemModel> {
    chain + session_model(chain, headers).staged
}

/// Whether finalizing session `b` against a writer whose consistent view is
/// `writer_chain` commits: it does exactly when the persisted head still
/// equals the session's baseline.
pub open spec fn finalize_ok(b: BufferModel, writer_chain: Seq<ItemModel>) -> bool {
    head_of(writer_chain) == b.persisted_head
}

/// The writer's view after finalizing session `b`: all staged records in
/// index order on success, untouched on conflict.
pub open spec fn finalize_model(b: BufferModel, writer_chain: Seq<ItemModel>) -> Seq<ItemModel> {
    if finalize_ok(b, writer_chain) {
        writer_chain + b.staged
    } else {
        writer_chain
    }
}

/// A transient sequencing session: stages new records in memory, exposes
/// the current (possibly uncommitted) head, and on finalize re-validates
/// against the persisted head inside the writer transaction before durably
/// applying its staged writes.
pub struct ChainSequenceBuffer {
    staged: Vec<ChainSequenceItem>,
    next_index: u64,
    tx_seq: u64,
    current_head: Option<Address>,
    persisted_head: Option<Address>,
}

impl View for ChainSequenceBuffer {
    type V = BufferModel;

    closed spec fn view(&self) -> BufferModel {
        BufferModel {
            staged: items_view(self.staged@),
            next_index: self.next_index as int,
            tx_seq: self.tx_seq as int,
            current_head: head_view(self.current_head),
            persisted_head: head_view(self.persisted_head),
        }
    }
}

impl ChainSequenceBuffer {
    /// Opens a session over a snapshot reader with nothing staged: the next
    /// index and batch number are derived from the record with the greatest
    /// key, and the baseline head is captured for conflict detection. A
    /// pure read; it never mutates the store.
    pub fn new<R: Readable>(reader: &R) -> (r: WorkspaceResult<Self>)
        ensures
            r is Ok,
            r matches Ok(buf) ==> buf@ == open_model(reader.chain_view()),
    {
        Self::from_db(reader, Vec::new())
    }

    /// Rebinds this session to a different snapshot reader: the staged
    /// records move into the returned session unchanged, while every
    /// derived field reflects the new reader's view of durable state. The
    /// consumed session is gone, so no two live sessions alias one staging
    /// area.
    pub fn with_reader<R: Readable>(self, reader: &R) -> (r: WorkspaceResult<Self>)
        ensures
            r is Ok,
            r matches Ok(buf) ==> buf@ == rebind_model(self@, reader.chain_view()),
    {
        Self::from_db(reader, self.staged)
    }

    /// Derives a session's positional fields from the reader's last record
    /// and adopts `staged` as the staging area.
    fn from_db<R: Readable>(reader: &R, staged: Vec<ChainSequenceItem>) -> (r: WorkspaceResult<Self>)
        ensures
            r is Ok,
            r matches Ok(buf) ==> buf@ == (BufferModel {
                staged: items_view(staged@),
                ..open_model(reader.chain_view())
            }),
    {
        let latest = reader.latest();
        let (next_index, tx_seq, current_head): (u64, u64, Option<Address>) = match latest {
            Some(item) => (
                item.index as u64 + 1,
                item.tx_seq as u64 + 1,
                Some(item.header_address.clone()),
            ),
            None => (0, 0, None),
        };
        let persisted_head = current_head.clone();
        Ok(
            ChainSequenceBuffer {
                staged,
                next_index,
                tx_seq,
                current_head,
                persisted_head,
            },
        )
    }

    /// The latest head known to this session, staged records included:
    /// a session always reads its own writes. Side-effect free.
    pub fn chain_head(&self) -> (r: Option<&Address>)
        ensures
            match r {
                Some(address) => self@.current_head == Some(address@),
                None => self@.current_head is None,
            },
    {
        self.current_head.as_ref()
    }

    /// Stages a new record carrying `header_address` at the next index,
    /// stamped with this session's batch number, and moves the session's
    /// head onto it. Pure in-memory mutation; nothing becomes durable
    /// before `finalize`.
    pub fn add_header(&mut self, header_address: Address)
        requires
            old(self)@.next_index <= u32::MAX,
            old(self)@.tx_seq <= u32::MAX,
        ensures
            final(self)@ == add_model(old(self)@, header_address@),
    {
        let ghost staged_before = self.staged@;
        let item = ChainSequenceItem {
            header_address: header_address.clone(),
            index: self.next_index as u32,
            tx_seq: self.tx_seq as u32,
            dht_transforms_complete: false,
        };
        self.staged.push(item);
        self.next_index = self.next_index + 1;
        self.current_head = Some(header_address);
        proof {
            assert(items_view(self.staged@) =~= items_view(staged_before).push(item@));
            assert(self@ =~= add_model(old(self)@, header_address@));
        }
    }
}

impl StoreBuffer for ChainSequenceBuffer {
    open spec fn staged_view(&self) -> Seq<ItemModel> {
        self@.staged
    }

    /// Re-derives the persisted head through the writer transaction's own
    /// consistent read view; if it no longer equals this session's
    /// baseline, another writer advanced the chain and nothing is written.
    /// Otherwise every staged record is written in index order.
    fn finalize(self, writer: &mut Writer) -> (r: Result<(), WorkspaceError>)
        ensures
            r is Ok <==> finalize_ok(self@, old(writer)@),
            final(writer)@ == finalize_model(self@, old(writer)@),
            final(writer).base_view() == old(writer).base_view(),
            r is Err ==> r == Err::<(), WorkspaceError>(WorkspaceError::SourceChainHeadMoved),
    {
        let baseline = self.persisted_head.clone();
        let fresh = match self.with_reader(writer) {
            Ok(buf) => buf,
            Err(e) => {
                return Err(e);
            },
        };
        if fresh.persisted_head != baseline {
            return Err(WorkspaceError::SourceChainHeadMoved);
        }
        let ChainSequenceBuffer { staged, .. } = fresh;
        let n = staged.len();
        let mut i: usize = 0;
        while i < n
            invariant
                n == staged@.len(),
                i <= n,
                writer.base_view() == old(writer).base_view(),
                writer.appended_view() == old(writer).appended_view() + items_view(
                    staged@,
                ).take(i as int),
            decreases n - i,
        {
            let item = staged[i].clone();
            writer.put(item);
            proof {
                assert(old(writer).appended_view() + items_view(staged@).take(i as int + 1)
                    =~= (old(writer).appended_view() + items_view(staged@).take(i as int)).push(
                    staged@[i as int]@,
                ));
            }
            i = i + 1;
        }
        proof {
            assert(items_view(staged@).take(n as int) =~= items_view(staged@));
            assert(writer@ =~= old(writer)@ + items_view(staged@));
        }
        Ok(())
    }
}

} // verus!
