//! Proved laws of the sequencing layer.
//!
//! Each proof function below states a property of whole commit histories
//! over the session and chain models that the executable contracts in
//! `chain_sequence` are written against.

use vstd::prelude::*;

use crate::chain_sequence::{
    add_model, commit_model, finalize_model, finalize_ok, head_of, next_batch_of, next_index_of,
    session_model, wf_chain, BufferModel, ItemModel,
};

verus! {

/// A session finalized against the very chain it was derived from always
/// commits: its baseline head still matches the persisted head, and the
/// result is that chain extended by the session's staged records.
pub proof fn lemma_finalize_from_unmoved_head(chain: Seq<ItemModel>, headers: Seq<Seq<u8>>)
    ensures
        finalize_ok(session_model(chain, headers), chain),
        finalize_model(session_model(chain, headers), chain) == commit_model(chain, headers),
{
    lemma_session_model(chain, headers);
}

/// What a session derived from `chain` looks like after staging `headers`
/// in order: the staged records carry consecutive indices starting at the
/// chain's next index, all share the chain's next batch number, the
/// baseline head is the chain's head, and the session head is the last
/// header staged.
pub proof fn lemma_session_model(chain: Seq<ItemModel>, headers: Seq<Seq<u8>>)
    ensures
        session_model(chain, headers).staged =~= batch_records(
            next_index_of(chain),
            next_batch_of(chain),
            headers,
        ),
        session_model(chain, headers).next_index == next_index_of(chain) + headers.len(),
        session_model(chain, headers).tx_seq == next_batch_of(chain),
        session_model(chain, headers).persisted_head == head_of(chain),
        session_model(chain, headers).current_head == (if headers.len() == 0 {
            head_of(chain)
        } else {
            Some(headers.last())
        }),
    decreases headers.len(),
{
    if headers.len() == 0 {
        assert(session_model(chain, headers).staged =~= batch_records(
            next_index_of(chain),
            next_batch_of(chain),
            headers,
        ));
    } else {
        let shorter = headers.drop_last();
        lemma_session_model(chain, shorter);
        assert(session_model(chain, headers).staged =~= batch_records(
            next_index_of(chain),
            next_batch_of(chain),
            headers,
        ));
    }
}

/// The records a session stamps when it stages `headers` starting at index
/// `start` within batch `batch`.
pub open spec fn batch_records(start: int, batch: int, headers: Seq<Seq<u8>>) -> Seq<ItemModel> {
    Seq::new(
        headers.len(),
        |j: int|
            ItemModel {
                header_address: headers[j],
                index: start + j,
                tx_seq: batch,
                dht_transforms_complete: false,
            },
    )
}

/// Gap-free indices: a successful commit over the chain its session was
/// derived from keeps the chain well-formed, and the committed indices are
/// exactly `0 .. len - 1` — no duplicates, no gaps, however many sessions
/// the history took.
pub proof fn lemma_gap_free_indices(chain: Seq<ItemModel>, headers: Seq<Seq<u8>>)
    requires
        wf_chain(chain),
    ensures
        wf_chain(commit_model(chain, headers)),
        commit_model(chain, headers).len() == chain.len() + headers.len(),
        forall|i: int|
            0 <= i < commit_model(chain, headers).len() ==> (#[trigger] commit_model(
                chain,
                headers,
            )[i].index) == i,
{
    lemma_session_model(chain, headers);
    let result = commit_model(chain, headers);
    let n = chain.len() as int;
    if chain.len() > 0 {
        assert(chain[n - 1].index == n - 1);
        assert(next_index_of(chain) == n);
    }
    assert(forall|i: int| 0 <= i < result.len() ==> (#[trigger] result[i].index) == i);
    assert(forall|i: int| 0 <= i < result.len() ==> 0 <= (#[trigger] result[i].tx_seq));
    assert forall|i: int|
        0 < i < result.len() implies result[i - 1].tx_seq <= (#[trigger] result[i].tx_seq)
        <= result[i - 1].tx_seq + 1 by {
        if i < n {
            assert(chain[i - 1].tx_seq <= chain[i].tx_seq <= chain[i - 1].tx_seq + 1);
        } else if i == n {
            assert(result[i].tx_seq == next_batch_of(chain));
        }
    }
}

/// Monotonic head: after a successful commit the head equals the header of
/// the last record appended in that session, and the previously committed
/// records stay an untouched prefix — across any history of successful
/// commits the head never reverts to an earlier value.
pub proof fn lemma_monotonic_head(chain: Seq<ItemModel>, headers: Seq<Seq<u8>>)
    requires
        headers.len() > 0,
    ensures
        head_of(commit_model(chain, headers)) == Some(headers.last()),
        commit_model(chain, headers).take(chain.len() as int) =~= chain,
{
    lemma_session_model(chain, headers);
    let result = commit_model(chain, headers);
    assert(result.last() == session_model(chain, headers).staged.last());
}

/// Batch increment: every record of one commit carries the same batch
/// number, and the batch number of the next session — however many records
/// either commit holds — is exactly this commit's batch number plus one.
pub proof fn lemma_batch_increment(
    chain: Seq<ItemModel>,
    headers_first: Seq<Seq<u8>>,
    headers_second: Seq<Seq<u8>>,
)
    requires
        headers_first.len() > 0,
    ensures
        ({
            let after_first = commit_model(chain, headers_first);
            let batch_first = next_batch_of(chain);
            &&& forall|j: int|
                chain.len() <= j < after_first.len() ==> (#[trigger] after_first[j].tx_seq)
                    == batch_first
            &&& session_model(after_first, headers_second).tx_seq == batch_first + 1
        }),
{
    lemma_session_model(chain, headers_first);
    let after_first = commit_model(chain, headers_first);
    lemma_session_model(after_first, headers_second);
    assert(after_first.last() == session_model(chain, headers_first).staged.last());
}

/// Read-your-own-writes: immediately after a session stages header `h`,
/// and before any commit, the session's head is `Some(h)`.
pub proof fn lemma_read_your_own_writes(b: BufferModel, h: Seq<u8>)
    ensures
        add_model(b, h).current_head == Some(h),
{
}

/// Conflict exclusivity: sessions A and B both derive their baseline from
/// `chain`, and B's finalize commits first. Provided B staged at least one
/// record and its last header differs from the baseline head — linked
/// headers never repeat an earlier head — A's finalize then reports the
/// head-moved conflict and contributes nothing: the store stays exactly
/// what B alone produced.
pub proof fn lemma_conflict_exclusivity(
    chain: Seq<ItemModel>,
    headers_a: Seq<Seq<u8>>,
    headers_b: Seq<Seq<u8>>,
)
    requires
        headers_b.len() > 0,
        Some(headers_b.last()) != head_of(chain),
    ensures
        ({
            let session_a = session_model(chain, headers_a);
            let after_b = commit_model(chain, headers_b);
            &&& !finalize_ok(session_a, after_b)
            &&& finalize_model(session_a, after_b) == after_b
        }),
{
    lemma_session_model(chain, headers_a);
    lemma_monotonic_head(chain, headers_b);
}

} // verus!
