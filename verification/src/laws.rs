//! What holds of every history, however it was written.

use vstd::prelude::*;
use crate::aggregate::TAggregate;
use crate::error::EventStoreError;
use crate::event::EnvelopeView;
use crate::event::TEvent;
use crate::history;

verus! {

/// The table after a run of commits on `start`, one for each aggregate of
/// `commits` in order. A commit that fails leaves the table as it was.
pub open spec fn after_commits<A: TAggregate>(
    start: Seq<EnvelopeView>,
    commits: Seq<A::V>,
) -> Seq<EnvelopeView>
    decreases commits.len(),
{
    if commits.len() == 0 {
        start
    } else {
        let earlier = after_commits::<A>(start, commits.drop_last());
        match history::commit_outcome::<A>(earlier, commits.last()) {
            Ok(rows) => rows,
            Err(_) => earlier,
        }
    }
}

/// The events that the successful commits of a run wrote for the aggregate
/// `id`, in commit order.
pub open spec fn events_committed<A: TAggregate>(
    start: Seq<EnvelopeView>,
    commits: Seq<A::V>,
    id: Seq<char>,
) -> Seq<<A::Event as View>::V>
    decreases commits.len(),
{
    if commits.len() == 0 {
        Seq::empty()
    } else {
        let earlier = events_committed::<A>(start, commits.drop_last(), id);
        let rows = after_commits::<A>(start, commits.drop_last());
        if history::commit_outcome::<A>(rows, commits.last()) is Ok && A::id_of(commits.last())
            == id {
            earlier + A::pending(commits.last())
        } else {
            earlier
        }
    }
}

/// Replay is a function of the events: two aggregates rebuilt independently
/// from the same ordered events have the same state.
pub proof fn replay_is_deterministic<A: TAggregate>(
    first: A,
    second: A,
    events: Seq<<A::Event as View>::V>,
)
    requires
        first@ == history::rebuilt::<A>(events),
        second@ == history::rebuilt::<A>(events),
    ensures
        first@ == second@,
        A::sequence_of(first@) == events.len() as i64,
{
    A::sequence_replaced(history::folded::<A>(A::initial(), events), events.len() as i64);
}

/// The sequence of a loaded aggregate is the number of envelopes stored for
/// it: the version is derived from the length of the history alone.
pub proof fn loaded_sequence_counts_history<A: TAggregate>(rows: Seq<EnvelopeView>, id: Seq<char>)
    requires
        history::contiguous(rows),
        history::load_outcome::<A>(rows, id) is Ok,
    ensures
        A::sequence_of(history::load_outcome::<A>(rows, id)->Ok_0) == history::history_of(
            rows,
            id,
        ).len(),
{
    let stored = history::history_of(rows, id);
    let events = history::decoded_all::<A::Event>(stored);
    if stored.len() > 0 {
        assert(stored[stored.len() - 1].sequence == stored.len());
    }
    A::sequence_replaced(history::folded::<A>(A::initial(), events), events.len() as i64);
}

/// A commit with nothing pending succeeds and writes nothing.
pub proof fn empty_commit_writes_nothing<A: TAggregate>(rows: Seq<EnvelopeView>, aggregate: A::V)
    requires
        A::pending(aggregate).len() == 0,
    ensures
        history::commit_outcome::<A>(rows, aggregate) == Ok::<Seq<EnvelopeView>, EventStoreError>(
            rows,
        ),
{
}

/// The batch of a commit belongs to the committed aggregate alone and is
/// numbered onwards from its sequence.
pub proof fn pending_batch_is_framed<A: TAggregate>(aggregate: A::V)
    requires
        A::sequence_of(aggregate) + A::pending(aggregate).len() <= i64::MAX,
    ensures
        history::pending_batch::<A>(aggregate).len() == A::pending(aggregate).len(),
        history::single_aggregate(history::pending_batch::<A>(aggregate), A::id_of(aggregate)),
        history::numbered_from(
            history::pending_batch::<A>(aggregate),
            A::sequence_of(aggregate) as int,
        ),
        history::decodable::<A::Event>(history::pending_batch::<A>(aggregate)),
        history::decoded_all::<A::Event>(history::pending_batch::<A>(aggregate)) == A::pending(
            aggregate,
        ),
{
    let batch = history::pending_batch::<A>(aggregate);
    let pending = A::pending(aggregate);
    assert forall|j: int| 0 <= j < batch.len() implies <A::Event as TEvent>::decoded(
        (#[trigger] batch[j]).payload,
    ) == Some(pending[j]) by {
        <A::Event as TEvent>::lossless(pending[j]);
    }
    assert(history::decoded_all::<A::Event>(batch) =~= pending);
}

/// One successful commit keeps the table contiguous, leaves every other
/// aggregate's history alone, and lengthens the committed aggregate's history
/// by exactly its pending events.
pub proof fn commit_extends_one_history<A: TAggregate>(
    rows: Seq<EnvelopeView>,
    aggregate: A::V,
    id: Seq<char>,
)
    requires
        history::contiguous(rows),
        history::commit_outcome::<A>(rows, aggregate) is Ok,
    ensures
        history::contiguous(history::commit_outcome::<A>(rows, aggregate)->Ok_0),
        history::history_of(history::commit_outcome::<A>(rows, aggregate)->Ok_0, id) == if id
            == A::id_of(aggregate) && A::pending(aggregate).len() > 0 {
            history::history_of(rows, id) + history::pending_batch::<A>(aggregate)
        } else {
            history::history_of(rows, id)
        },
{
    if A::pending(aggregate).len() > 0 {
        let batch = history::pending_batch::<A>(aggregate);
        pending_batch_is_framed::<A>(aggregate);
        assert(batch[0].aggregate_id == A::id_of(aggregate));
        history::append_keeps_contiguity(rows, batch);
        history::history_of_add(rows, batch, id);
        history::history_of_single(batch, A::id_of(aggregate), id);
        if id != A::id_of(aggregate) {
            assert(history::history_of(rows, id) + Seq::<EnvelopeView>::empty()
                == history::history_of(rows, id));
        }
    }
}

/// After any run of commits on a contiguous table the table is contiguous:
/// for every aggregate id the stored sequence numbers are exactly `1..=k`,
/// without gap or repeat, in the order written.
pub proof fn commits_keep_contiguity<A: TAggregate>(start: Seq<EnvelopeView>, commits: Seq<A::V>)
    requires
        history::contiguous(start),
    ensures
        history::contiguous(after_commits::<A>(start, commits)),
    decreases commits.len(),
{
    if commits.len() > 0 {
        commits_keep_contiguity::<A>(start, commits.drop_last());
        let earlier = after_commits::<A>(start, commits.drop_last());
        if history::commit_outcome::<A>(earlier, commits.last()) is Ok {
            commit_extends_one_history::<A>(earlier, commits.last(), A::id_of(commits.last()));
        }
    }
}

/// After any run of commits on an empty table, the history stored for an
/// aggregate id is numbered `1..=k`, where `k` is the number of events ever
/// committed for that id, and it decodes to exactly those events in commit
/// order.
pub proof fn history_is_what_was_committed<A: TAggregate>(commits: Seq<A::V>, id: Seq<char>)
    ensures
        history::numbered_from(
            history::history_of(after_commits::<A>(Seq::empty(), commits), id),
            0,
        ),
        history::history_of(after_commits::<A>(Seq::empty(), commits), id).len()
            == events_committed::<A>(Seq::empty(), commits, id).len(),
        history::decodable::<A::Event>(
            history::history_of(after_commits::<A>(Seq::empty(), commits), id),
        ),
        history::decoded_all::<A::Event>(
            history::history_of(after_commits::<A>(Seq::empty(), commits), id),
        ) == events_committed::<A>(Seq::empty(), commits, id),
    decreases commits.len(),
{
    let start = Seq::<EnvelopeView>::empty();
    assert(history::contiguous(start)) by {
        assert forall|other: Seq<char>|
            history::numbered_from(#[trigger] history::history_of(start, other), 0) by {
            history::history_of_single(start, other, other);
        }
    }
    commits_keep_contiguity::<A>(start, commits);
    if commits.len() == 0 {
        history::history_of_single(start, id, id);
        assert(history::decoded_all::<A::Event>(history::history_of(start, id)) =~= Seq::empty());
    } else {
        history_is_what_was_committed::<A>(commits.drop_last(), id);
        commits_keep_contiguity::<A>(start, commits.drop_last());
        let earlier = after_commits::<A>(start, commits.drop_last());
        let last = commits.last();
        if history::commit_outcome::<A>(earlier, last) is Ok {
            commit_extends_one_history::<A>(earlier, last, id);
            if id == A::id_of(last) && A::pending(last).len() > 0 {
                pending_batch_is_framed::<A>(last);
                let before = history::history_of(earlier, id);
                let batch = history::pending_batch::<A>(last);
                let joined = before + batch;
                assert forall|j: int| 0 <= j < joined.len() implies <A::Event as TEvent>::decoded(
                    (#[trigger] joined[j]).payload,
                ) is Some by {
                    if j < before.len() {
                        assert(joined[j] == before[j]);
                    } else {
                        assert(joined[j] == batch[j - before.len()]);
                    }
                }
                assert(history::decoded_all::<A::Event>(joined) =~= history::decoded_all::<
                    A::Event,
                >(before) + history::decoded_all::<A::Event>(batch));
            } else if id == A::id_of(last) {
                assert(events_committed::<A>(start, commits.drop_last(), id) + A::pending(last)
                    =~= events_committed::<A>(start, commits.drop_last(), id));
            }
        }
    }
}

/// Loading after any run of commits on an empty table gives the aggregate
/// that folding every event ever committed for the id, in commit order, gives.
pub proof fn load_after_commits_is_direct_fold<A: TAggregate>(commits: Seq<A::V>, id: Seq<char>)
    ensures
        history::load_outcome::<A>(after_commits::<A>(Seq::empty(), commits), id) == Ok::<
            A::V,
            EventStoreError,
        >(history::rebuilt::<A>(events_committed::<A>(Seq::empty(), commits, id))),
{
    history_is_what_was_committed::<A>(commits, id);
}

/// Two sessions hold the same aggregate at the head of its history. Once the
/// first has committed at least one event, a commit of the second, which
/// still rests on the old sequence, is refused with `ConcurrencyError`.
pub proof fn stale_commit_is_refused<A: TAggregate>(
    rows: Seq<EnvelopeView>,
    first: A::V,
    second: A::V,
)
    requires
        history::contiguous(rows),
        A::id_of(first) == A::id_of(second),
        A::sequence_of(first) == A::sequence_of(second),
        A::pending(first).len() > 0,
        A::pending(second).len() > 0,
        history::commit_outcome::<A>(rows, first) is Ok,
    ensures
        history::commit_outcome::<A>(
            history::commit_outcome::<A>(rows, first)->Ok_0,
            second,
        ) == Err::<Seq<EnvelopeView>, EventStoreError>(EventStoreError::ConcurrencyError),
{
    commit_extends_one_history::<A>(rows, first, A::id_of(first));
    pending_batch_is_framed::<A>(first);
}

} // verus!
