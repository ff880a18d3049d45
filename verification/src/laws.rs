//! What holds of every run of the machine.
//!
//! A run is the initial state and a sequence of events, whatever the driver
//! chooses to report; for the laws on batching, a sequence of operations fed
//! by a driver that does as the machine says.

use crate::geonames::{decoded, index_mapping, operation_of, PendingOperationView};
use crate::pipeline::{
    filled, next, table_event, ActionView, EventView, Phase, PipelineView, SeedError, NOT_FOUND,
};
use crate::table::Record;
use vstd::prelude::*;

verus! {

/// The state after the events of `events`, from the state `s`.
pub open spec fn state_after(s: PipelineView, events: Seq<EventView>) -> PipelineView
    decreases events.len(),
{
    if events.len() == 0 {
        s
    } else {
        next(state_after(s, events.drop_last()), events.last()).0
    }
}

/// The actions that the machine names on the events of `events`, one for
/// each, from the state `s`.
pub open spec fn actions_of(s: PipelineView, events: Seq<EventView>) -> Seq<ActionView>
    decreases events.len(),
{
    if events.len() == 0 {
        Seq::empty()
    } else {
        actions_of(s, events.drop_last()).push(
            next(state_after(s, events.drop_last()), events.last()).1,
        )
    }
}

/// The report that the index is not there.
pub open spec fn reports_absent(event: EventView) -> bool {
    event == (EventView::IndexChecked { status: NOT_FOUND })
}

// ---------------------------------------------------------------------------
// The machine keeps its invariant
// ---------------------------------------------------------------------------

/// Every step keeps the invariant of the state and the capacity.
pub proof fn law_step_keeps_invariant(s: PipelineView, event: EventView)
    requires
        s.wf(),
    ensures
        next(s, event).0.wf(),
        next(s, event).0.capacity == s.capacity,
{
}

// ---------------------------------------------------------------------------
// The index is set up before anything is sent to it
// ---------------------------------------------------------------------------

/// What is known of a run of `events` from the initial state, where `s` is
/// its state and `actions` are its actions.
spec fn bootstrapped(events: Seq<EventView>, s: PipelineView, actions: Seq<ActionView>) -> bool {
    let n = events.len();
    let absent = n > 0 && reports_absent(events[0]);
    &&& actions.len() == n
    &&& s.wf()
    &&& (s.phase == Phase::CheckingIndex <==> n == 0)
    &&& (s.phase == Phase::CreatingIndex ==> n == 1 && absent)
    &&& (s.phase == Phase::ApplyingMapping ==> n == 2 && absent)
    &&& (s.phase == Phase::Filling || s.phase is Flushing || s.phase == Phase::Done ==> {
        &&& n >= 1
        &&& events[0] is IndexChecked
        &&& (absent ==> n >= 3)
    })
    &&& (n >= 1 && absent && n >= 2 && !(s.phase is Failed) ==> actions[1]
        == ActionView::ApplyMapping(index_mapping()))
    &&& (n >= 1 && absent ==> actions[0] == ActionView::CreateIndex)
    &&& (forall|j: int| 0 <= j < n && (#[trigger] actions[j]) is CreateIndex ==> j == 0 && absent)
    &&& (forall|j: int|
        0 <= j < n && (#[trigger] actions[j]) is ApplyMapping ==> j == 1 && absent && actions[j]
            == ActionView::ApplyMapping(index_mapping()))
    &&& (forall|j: int|
        0 <= j < n && ((#[trigger] actions[j]) is SendBulk || actions[j] is Finish) ==> {
            &&& events[0] is IndexChecked
            &&& (absent ==> j >= 3 && actions[1] == ActionView::ApplyMapping(index_mapping()))
        })
}

proof fn lemma_bootstrapped(capacity: nat, events: Seq<EventView>)
    requires
        capacity >= 1,
    ensures
        bootstrapped(
            events,
            state_after(PipelineView::initial(capacity), events),
            actions_of(PipelineView::initial(capacity), events),
        ),
    decreases events.len(),
{
    let init = PipelineView::initial(capacity);
    if events.len() > 0 {
        let front = events.drop_last();
        lemma_bootstrapped(capacity, front);
        let mid = state_after(init, front);
        let before = actions_of(init, front);
        let (s, action) = next(mid, events.last());
        let actions = actions_of(init, events);
        assert(actions == before.push(action));
        if front.len() > 0 {
            assert(front[0] == events[0]);
        }
        assert forall|j: int| 0 <= j < front.len() implies actions[j] == before[j] by {}
        assert(actions[front.len() as int] == action);
        assert(bootstrapped(events, s, actions));
    }
}

/// The index is created and mapped before anything is sent to it, once, and
/// only where it was reported absent.
///
/// In every run from the initial state, whatever is reported: an action
/// that creates the index is the first action of the run and answers the
/// report that the index is not there; an action that applies a mapping is
/// the second action of such a run and applies the mapping of the index;
/// and where a bulk request is sent or the run finishes, the run began with
/// the report on the index, and if that said the index was not there, the
/// first two actions created and mapped it. So a run that finds the index
/// absent creates and maps it exactly once before it sends anything, and a
/// run that finds it present does neither.
pub proof fn law_index_ready_before_bulk(capacity: nat, events: Seq<EventView>)
    requires
        capacity >= 1,
    ensures
        ({
            let actions = actions_of(PipelineView::initial(capacity), events);
            &&& actions.len() == events.len()
            &&& forall|j: int|
                0 <= j < actions.len() && (#[trigger] actions[j]) is CreateIndex ==> j == 0
                    && reports_absent(events[0])
            &&& forall|j: int|
                0 <= j < actions.len() && (#[trigger] actions[j]) is ApplyMapping ==> {
                    &&& j == 1
                    &&& reports_absent(events[0])
                    &&& actions[0] == ActionView::CreateIndex
                    &&& actions[j] == ActionView::ApplyMapping(index_mapping())
                }
            &&& forall|j: int|
                0 <= j < actions.len() && ((#[trigger] actions[j]) is SendBulk
                    || actions[j] is Finish) ==> {
                    &&& events[0] is IndexChecked
                    &&& (reports_absent(events[0]) ==> {
                        &&& j >= 3
                        &&& actions[0] == ActionView::CreateIndex
                        &&& actions[1] == ActionView::ApplyMapping(index_mapping())
                    })
                    &&& (!reports_absent(events[0]) ==> forall|i: int|
                        0 <= i < actions.len() ==> !((#[trigger] actions[i]) is CreateIndex)
                            && !(actions[i] is ApplyMapping))
                }
        }),
{
    lemma_bootstrapped(capacity, events);
}

// ---------------------------------------------------------------------------
// A run that failed stays failed
// ---------------------------------------------------------------------------

/// A reply that does not plainly report success ends the run: the machine
/// fails, asks for the reply to be written down, and is left with no
/// operation to send.
pub proof fn law_bad_reply_aborts(s: PipelineView, errors: Option<bool>)
    requires
        s.phase is Flushing,
        errors != Some(false),
    ensures
        next(s, EventView::BulkReplied { errors }).0.phase is Failed,
        next(s, EventView::BulkReplied { errors }).0.batch.len() == 0,
        next(s, EventView::BulkReplied { errors }).1 matches ActionView::Abort { error, diagnostic }
            && diagnostic && error is BulkOperation,
{
}

/// After a failure nothing is sent: from a failed state the machine stays in
/// that state and answers every event by giving up, whatever is reported.
pub proof fn law_failure_is_final(s: PipelineView, error: SeedError, events: Seq<EventView>)
    requires
        s.phase == Phase::Failed(error),
    ensures
        state_after(s, events) == s,
        actions_of(s, events).len() == events.len(),
        forall|j: int|
            0 <= j < events.len() ==> (#[trigger] actions_of(s, events)[j]) == (ActionView::Abort {
                error,
                diagnostic: false,
            }),
    decreases events.len(),
{
    if events.len() > 0 {
        law_failure_is_final(s, error, events.drop_last());
    }
}

// ---------------------------------------------------------------------------
// Batches
// ---------------------------------------------------------------------------

/// `ops` cut into batches of `capacity`, in their order; the last batch holds
/// what is left, from one operation up to `capacity`.
pub open spec fn batches(ops: Seq<PendingOperationView>, capacity: nat) -> Seq<
    Seq<PendingOperationView>,
>
    decreases ops.len(),
{
    if ops.len() == 0 || capacity == 0 {
        Seq::empty()
    } else {
        let n = if ops.len() < capacity {
            ops.len() as int
        } else {
            capacity as int
        };
        seq![ops.take(n)] + batches(ops.skip(n), capacity)
    }
}

/// The batches in one sequence.
pub open spec fn joined(batches: Seq<Seq<PendingOperationView>>) -> Seq<PendingOperationView>
    decreases batches.len(),
{
    if batches.len() == 0 {
        Seq::empty()
    } else {
        batches[0] + joined(batches.skip(1))
    }
}

/// Cutting into batches loses nothing and keeps the order; no batch is
/// empty or larger than the capacity, and all but the last are full.
pub proof fn law_batches_partition(ops: Seq<PendingOperationView>, capacity: nat)
    requires
        capacity >= 1,
    ensures
        joined(batches(ops, capacity)) == ops,
        forall|i: int|
            0 <= i < batches(ops, capacity).len() ==> 1 <= (#[trigger] batches(
                ops,
                capacity,
            )[i]).len() <= capacity,
        forall|i: int|
            0 <= i < batches(ops, capacity).len() - 1 ==> (#[trigger] batches(
                ops,
                capacity,
            )[i]).len() == capacity,
        batches(ops, capacity).len() * capacity >= ops.len(),
        ops.len() > (batches(ops, capacity).len() - 1) * capacity,
    decreases ops.len(),
{
    if ops.len() > 0 {
        let n = if ops.len() < capacity {
            ops.len() as int
        } else {
            capacity as int
        };
        let rest = batches(ops.skip(n), capacity);
        let all = batches(ops, capacity);
        law_batches_partition(ops.skip(n), capacity);
        assert(all == seq![ops.take(n)] + rest);
        assert(all[0] == ops.take(n));
        assert(all.skip(1) =~= rest);
        assert(ops.take(n) + ops.skip(n) =~= ops);
        assert forall|i: int| 0 <= i < all.len() implies 1 <= (#[trigger] all[i]).len()
            <= capacity by {
            if i > 0 {
                assert(all[i] == rest[i - 1]);
            }
        }
        assert forall|i: int| 0 <= i < all.len() - 1 implies (#[trigger] all[i]).len()
            == capacity by {
            if i > 0 {
                assert(all[i] == rest[i - 1]);
            } else {
                assert(rest.len() > 0);
                assert(ops.skip(n).len() > 0);
            }
        }
        assert(all.len() == rest.len() + 1);
        assert(all.len() * capacity == rest.len() * capacity + capacity) by (nonlinear_arith)
            requires
                all.len() == rest.len() + 1,
        ;
        assert((all.len() - 1) * capacity == rest.len() * capacity) by (nonlinear_arith)
            requires
                all.len() == rest.len() + 1,
        ;
        if rest.len() > 0 {
            assert((rest.len() - 1) * capacity + capacity == rest.len() * capacity)
                by (nonlinear_arith);
        } else {
            assert(rest.len() * capacity == 0) by (nonlinear_arith)
                requires
                    rest.len() == 0,
            ;
        }
    } else {
        assert((batches(ops, capacity).len() - 1) * capacity < 0) by (nonlinear_arith)
            requires
                batches(ops, capacity).len() == 0,
                capacity >= 1,
        ;
    }
}

/// What a driver that does as the machine says makes of one operation, with
/// an engine that accepts every bulk request: the state after it, and the
/// bulk request that was sent on the way, if one was.
pub open spec fn fed(s: PipelineView, op: PendingOperationView) -> (
    PipelineView,
    Seq<Seq<PendingOperationView>>,
) {
    let (taken, action) = next(s, EventView::Record(Ok(op)));
    match action {
        ActionView::SendBulk { operations, .. } => (
            next(taken, EventView::BulkReplied { errors: Some(false) }).0,
            seq![operations],
        ),
        _ => (taken, Seq::empty()),
    }
}

/// The same for the end of the stream.
pub open spec fn ended(s: PipelineView) -> (PipelineView, Seq<Seq<PendingOperationView>>) {
    let (closing, action) = next(s, EventView::EndOfStream);
    match action {
        ActionView::SendBulk { operations, .. } => (
            next(closing, EventView::BulkReplied { errors: Some(false) }).0,
            seq![operations],
        ),
        _ => (closing, Seq::empty()),
    }
}

/// The same for the operations `ops`, one after the other, and then the end
/// of the stream: the state at the end and the bulk requests in the order
/// in which they were sent.
pub open spec fn ingested(s: PipelineView, ops: Seq<PendingOperationView>) -> (
    PipelineView,
    Seq<Seq<PendingOperationView>>,
)
    decreases ops.len(),
{
    if ops.len() == 0 {
        ended(s)
    } else {
        let (taken, sent) = fed(s, ops[0]);
        let (end, later) = ingested(taken, ops.skip(1));
        (end, sent + later)
    }
}

/// The bulk requests of a run are its operations in file order, cut into
/// batches of the capacity.
///
/// From a state that is filling, with the operations `ops` still to come and
/// every bulk request accepted: the requests sent are the batch at hand
/// followed by `ops`, cut into batches; the run ends done, and it has
/// counted every operation.
pub proof fn law_requests_are_batches(s: PipelineView, ops: Seq<PendingOperationView>)
    requires
        s.wf(),
        s.phase == Phase::Filling,
        s.records + ops.len() <= u64::MAX,
    ensures
        ingested(s, ops).1 == batches(s.batch + ops, s.capacity),
        ingested(s, ops).0.phase == Phase::Done,
        ingested(s, ops).0.records == s.records + ops.len(),
    decreases ops.len(),
{
    let c = s.capacity;
    if ops.len() == 0 {
        assert(s.batch + ops =~= s.batch);
        if s.batch.len() > 0 {
            assert(s.batch.take(s.batch.len() as int) =~= s.batch);
            assert(batches(s.batch.skip(s.batch.len() as int), c) =~= Seq::empty());
            assert(batches(s.batch, c) =~= seq![s.batch]);
        }
    } else {
        let (taken, sent) = fed(s, ops[0]);
        let grown = s.batch.push(ops[0]);
        law_requests_are_batches(taken, ops.skip(1));
        assert(grown + ops.skip(1) =~= s.batch + ops);
        if grown.len() >= c {
            let all = s.batch + ops;
            assert(all.take(c as int) =~= grown);
            assert(all.skip(c as int) =~= ops.skip(1));
            assert(taken.batch + ops.skip(1) =~= ops.skip(1));
        }
    }
}

// ---------------------------------------------------------------------------
// Tables
// ---------------------------------------------------------------------------

/// Every record of the table can be read and decodes to a record of the
/// gazetteer.
pub open spec fn sound_table(records: Seq<Record>) -> bool {
    forall|i: int|
        0 <= i < records.len() ==> (#[trigger] records[i]) is Some && decoded(
            records[i].unwrap(),
        ) is Ok
}

/// The operations that index the records of a sound table, in file order.
pub open spec fn table_operations(
    records: Seq<Record>,
    admin1: Map<Seq<char>, Seq<char>>,
    admin2: Map<Seq<char>, Seq<char>>,
) -> Seq<PendingOperationView> {
    Seq::new(
        records.len(),
        |i: int| operation_of(decoded(records[i].unwrap()).unwrap(), admin1, admin2),
    )
}

/// What a driver makes of a table when it fills the machine from it, sends
/// each bulk request that the machine hands out, and finds every one
/// accepted: the state at the end and the requests in the order in which
/// they were sent. (Where the run goes on after a request, the table is
/// shorter than before: such a request follows a record.)
pub open spec fn seeded(
    s: PipelineView,
    ahead: Seq<Record>,
    admin1: Map<Seq<char>, Seq<char>>,
    admin2: Map<Seq<char>, Seq<char>>,
) -> (PipelineView, Seq<Seq<PendingOperationView>>)
    decreases ahead.len(),
{
    let (after, action, rest) = filled(s, ahead, admin1, admin2);
    match action {
        ActionView::SendBulk { operations, .. } => {
            let replied = next(after, EventView::BulkReplied { errors: Some(false) }).0;
            if replied.phase == Phase::Filling && rest.len() < ahead.len() {
                let (end, later) = seeded(replied, rest, admin1, admin2);
                (end, seq![operations] + later)
            } else {
                (replied, seq![operations])
            }
        },
        _ => (after, Seq::empty()),
    }
}

/// Filling never adds to the table, and a request after which the run goes
/// on has taken at least one record from it.
proof fn lemma_filling_shortens(
    s: PipelineView,
    ahead: Seq<Record>,
    admin1: Map<Seq<char>, Seq<char>>,
    admin2: Map<Seq<char>, Seq<char>>,
)
    ensures
        filled(s, ahead, admin1, admin2).2.len() <= ahead.len(),
        filled(s, ahead, admin1, admin2).1 is SendBulk && next(
            filled(s, ahead, admin1, admin2).0,
            EventView::BulkReplied { errors: Some(false) },
        ).0.phase == Phase::Filling ==> filled(s, ahead, admin1, admin2).2.len() < ahead.len(),
    decreases ahead.len(),
{
    let (after, action) = next(s, table_event(ahead, admin1, admin2));
    if ahead.len() > 0 && action is Continue {
        lemma_filling_shortens(after, ahead.skip(1), admin1, admin2);
    }
}

/// Filling from a table and feeding its operations one by one come to the
/// same.
proof fn lemma_seeded_is_ingested(
    s: PipelineView,
    ahead: Seq<Record>,
    admin1: Map<Seq<char>, Seq<char>>,
    admin2: Map<Seq<char>, Seq<char>>,
)
    requires
        s.wf(),
        s.phase == Phase::Filling,
        sound_table(ahead),
        s.records + ahead.len() <= u64::MAX,
    ensures
        seeded(s, ahead, admin1, admin2) == ingested(
            s,
            table_operations(ahead, admin1, admin2),
        ),
    decreases ahead.len(),
{
    let ops = table_operations(ahead, admin1, admin2);
    if ahead.len() > 0 {
        let rest = ahead.skip(1);
        assert(ahead[0] is Some && decoded(ahead[0].unwrap()) is Ok);
        assert(table_event(ahead, admin1, admin2) == EventView::Record(Ok(ops[0])));
        let (after, action) = next(s, EventView::Record(Ok(ops[0])));
        assert(sound_table(rest)) by {
            assert forall|i: int| 0 <= i < rest.len() implies (#[trigger] rest[i]) is Some
                && decoded(rest[i].unwrap()) is Ok by {
                assert(rest[i] == ahead[i + 1]);
            }
        }
        assert(table_operations(rest, admin1, admin2) =~= ops.skip(1)) by {
            assert forall|i: int| 0 <= i < rest.len() implies table_operations(
                rest,
                admin1,
                admin2,
            )[i] == ops.skip(1)[i] by {
                assert(rest[i] == ahead[i + 1]);
            }
        }
        if action is Continue {
            lemma_seeded_is_ingested(after, rest, admin1, admin2);
            lemma_filling_shortens(after, rest, admin1, admin2);
            assert(filled(s, ahead, admin1, admin2) == filled(after, rest, admin1, admin2));
        } else {
            let replied = next(after, EventView::BulkReplied { errors: Some(false) }).0;
            lemma_seeded_is_ingested(replied, rest, admin1, admin2);
        }
    }
}

/// The bulk requests for a table are the operations of its records in file
/// order, cut into batches of the capacity.
///
/// From a state that is filling, with a table ahead whose every record can
/// be read and decoded, and every bulk request accepted: the requests sent
/// are the batch at hand followed by the operations of the table, cut into
/// batches; and the run ends done.
pub proof fn law_table_is_sent_in_batches(
    s: PipelineView,
    ahead: Seq<Record>,
    admin1: Map<Seq<char>, Seq<char>>,
    admin2: Map<Seq<char>, Seq<char>>,
)
    requires
        s.wf(),
        s.phase == Phase::Filling,
        sound_table(ahead),
        s.records + ahead.len() <= u64::MAX,
    ensures
        seeded(s, ahead, admin1, admin2).1 == batches(
            s.batch + table_operations(ahead, admin1, admin2),
            s.capacity,
        ),
        seeded(s, ahead, admin1, admin2).0.phase == Phase::Done,
        seeded(s, ahead, admin1, admin2).0.records == s.records + ahead.len(),
{
    lemma_seeded_is_ingested(s, ahead, admin1, admin2);
    law_requests_are_batches(s, table_operations(ahead, admin1, admin2));
}

} // verus!
