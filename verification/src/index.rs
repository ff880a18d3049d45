//! A model of the search index, for what can be said of a run's outcome.
//!
//! The index itself is the search engine's. What the run relies on is that
//! an operation stores its document under its id and replaces what was
//! there. The model is a map from id to document and says no more than that.

use crate::geonames::{operation_of, LocationView, PendingOperationView, SearchDocumentView};
use crate::laws::{batches, law_table_is_sent_in_batches, seeded, sound_table, table_operations};
use crate::pipeline::{Phase, PipelineView};
use crate::table::Record;
use crate::text::law_decimal_tells_apart;
use vstd::prelude::*;

verus! {

/// What the index holds: for each id, the document stored under it.
pub type IndexModel = Map<Seq<char>, SearchDocumentView>;

/// The index after the operations `ops`, carried out in their order.
pub open spec fn indexed(index: IndexModel, ops: Seq<PendingOperationView>) -> IndexModel
    decreases ops.len(),
{
    if ops.len() == 0 {
        index
    } else {
        indexed(index, ops.drop_last()).insert(ops.last().id, ops.last().document)
    }
}

/// The index after the bulk requests `requests`, carried out in their order.
pub open spec fn indexed_all(
    index: IndexModel,
    requests: Seq<Seq<PendingOperationView>>,
) -> IndexModel
    decreases requests.len(),
{
    if requests.len() == 0 {
        index
    } else {
        indexed_all(indexed(index, requests[0]), requests.skip(1))
    }
}

/// The document of the last operation of `ops` with the id `id`.
pub open spec fn latest(ops: Seq<PendingOperationView>, id: Seq<char>) -> Option<
    SearchDocumentView,
>
    decreases ops.len(),
{
    if ops.len() == 0 {
        None
    } else if ops.last().id == id {
        Some(ops.last().document)
    } else {
        latest(ops.drop_last(), id)
    }
}

/// After `ops`, the index holds under each id the document of the last
/// operation with that id, and where there was none, what it held before.
pub proof fn lemma_indexed_holds_latest(index: IndexModel, ops: Seq<PendingOperationView>)
    ensures
        forall|id: Seq<char>| #[trigger]
            indexed(index, ops).contains_key(id) <==> latest(ops, id) is Some || index.contains_key(
                id,
            ),
        forall|id: Seq<char>|
            latest(ops, id) is Some ==> (#[trigger] indexed(index, ops)[id]) == latest(
                ops,
                id,
            ).unwrap(),
        forall|id: Seq<char>|
            latest(ops, id) is None ==> (#[trigger] indexed(index, ops)[id]) == index[id],
    decreases ops.len(),
{
    if ops.len() > 0 {
        let front = ops.drop_last();
        let last = ops.last();
        lemma_indexed_holds_latest(index, front);
        let before = indexed(index, front);
        let after = indexed(index, ops);
        assert(after == before.insert(last.id, last.document));
        assert forall|id: Seq<char>| #[trigger]
            after.contains_key(id) <==> latest(ops, id) is Some || index.contains_key(id) by {
            assert(before.contains_key(id) <==> latest(front, id) is Some || index.contains_key(
                id,
            ));
        }
        assert forall|id: Seq<char>| latest(ops, id) is Some implies (#[trigger] after[id])
            == latest(ops, id).unwrap() by {
            if last.id != id {
                assert(before[id] == latest(front, id).unwrap());
            }
        }
        assert forall|id: Seq<char>| latest(ops, id) is None implies (#[trigger] after[id])
            == index[id] by {
            assert(last.id != id);
            assert(before[id] == index[id]);
        }
    }
}

/// Carrying out two runs of operations one after the other is carrying out
/// their concatenation.
pub proof fn lemma_indexed_concat(
    index: IndexModel,
    first: Seq<PendingOperationView>,
    second: Seq<PendingOperationView>,
)
    ensures
        indexed(index, first + second) == indexed(indexed(index, first), second),
    decreases second.len(),
{
    if second.len() == 0 {
        assert(first + second =~= first);
    } else {
        lemma_indexed_concat(index, first, second.drop_last());
        assert((first + second).drop_last() =~= first + second.drop_last());
        assert((first + second).last() == second.last());
    }
}

/// How the operations are cut into bulk requests makes no difference to
/// what the index holds in the end.
pub proof fn law_batching_keeps_outcome(
    index: IndexModel,
    ops: Seq<PendingOperationView>,
    capacity: nat,
)
    requires
        capacity >= 1,
    ensures
        indexed_all(index, batches(ops, capacity)) == indexed(index, ops),
    decreases ops.len(),
{
    if ops.len() > 0 {
        let n = if ops.len() < capacity {
            ops.len() as int
        } else {
            capacity as int
        };
        let requests = batches(ops, capacity);
        let rest = batches(ops.skip(n), capacity);
        assert(requests == seq![ops.take(n)] + rest);
        assert(requests[0] == ops.take(n));
        assert(requests.skip(1) =~= rest);
        law_batching_keeps_outcome(indexed(index, ops.take(n)), ops.skip(n), capacity);
        lemma_indexed_concat(index, ops.take(n), ops.skip(n));
        assert(ops.take(n) + ops.skip(n) =~= ops);
    }
}

/// Sending the same operations again changes nothing.
///
/// An index that has taken `ops` holds, after it takes them a second time,
/// what it held after the first: the same ids with the same documents, and
/// so the same number of documents. This holds of any index to begin with,
/// the empty one among them.
pub proof fn law_reingest_changes_nothing(index: IndexModel, ops: Seq<PendingOperationView>)
    ensures
        indexed(indexed(index, ops), ops) == indexed(index, ops),
        indexed(indexed(index, ops), ops).dom() == indexed(index, ops).dom(),
        indexed(indexed(index, ops), ops).len() == indexed(index, ops).len(),
{
    let once = indexed(index, ops);
    let twice = indexed(once, ops);
    lemma_indexed_holds_latest(index, ops);
    lemma_indexed_holds_latest(once, ops);
    assert forall|id: Seq<char>| twice.contains_key(id) <==> once.contains_key(id) by {
        assert(indexed(once, ops).contains_key(id) <==> latest(ops, id) is Some
            || once.contains_key(id));
        assert(indexed(index, ops).contains_key(id) <==> latest(ops, id) is Some
            || index.contains_key(id));
    }
    assert forall|id: Seq<char>| once.contains_key(id) implies twice[id] == once[id] by {
        if latest(ops, id) is Some {
            assert(indexed(once, ops)[id] == latest(ops, id).unwrap());
            assert(indexed(index, ops)[id] == latest(ops, id).unwrap());
        } else {
            assert(indexed(once, ops)[id] == once[id]);
        }
    }
    assert(twice =~= once);
}

/// Ingesting an archive twice leaves the index as ingesting it once does.
///
/// `ops` are the operations of the archive's records in file order; each
/// run sends them cut into batches of its capacity. The two runs need not
/// use the same capacity.
pub proof fn law_second_run_changes_nothing(
    index: IndexModel,
    ops: Seq<PendingOperationView>,
    first_capacity: nat,
    second_capacity: nat,
)
    requires
        first_capacity >= 1,
        second_capacity >= 1,
    ensures
        ({
            let once = indexed_all(index, batches(ops, first_capacity));
            let twice = indexed_all(once, batches(ops, second_capacity));
            twice == once && twice.len() == once.len()
        }),
{
    law_batching_keeps_outcome(index, ops, first_capacity);
    law_batching_keeps_outcome(indexed(index, ops), ops, second_capacity);
    law_reingest_changes_nothing(index, ops);
}

/// The state of a run that has found its index and is about to read the
/// gazetteer.
pub open spec fn ready(capacity: nat) -> PipelineView {
    PipelineView::initial(capacity).resting(Phase::Filling)
}

/// Seeding an index twice from one table leaves it as seeding it once does.
///
/// The table is one whose every record can be read and decoded; each run
/// sends what the machine hands out, and every request is accepted. Then
/// the index holds after the second run what it held after the first, and
/// as many documents.
pub proof fn law_seeding_twice_changes_nothing(
    index: IndexModel,
    records: Seq<Record>,
    admin1: Map<Seq<char>, Seq<char>>,
    admin2: Map<Seq<char>, Seq<char>>,
    first_capacity: nat,
    second_capacity: nat,
)
    requires
        first_capacity >= 1,
        second_capacity >= 1,
        sound_table(records),
        records.len() <= u64::MAX,
    ensures
        ({
            let first = seeded(ready(first_capacity), records, admin1, admin2).1;
            let second = seeded(ready(second_capacity), records, admin1, admin2).1;
            let once = indexed_all(index, first);
            let twice = indexed_all(once, second);
            twice == once && twice.len() == once.len()
        }),
{
    let ops = table_operations(records, admin1, admin2);
    law_table_is_sent_in_batches(ready(first_capacity), records, admin1, admin2);
    law_table_is_sent_in_batches(ready(second_capacity), records, admin1, admin2);
    assert(ready(first_capacity).batch + ops =~= ops);
    assert(ready(second_capacity).batch + ops =~= ops);
    law_second_run_changes_nothing(index, ops, first_capacity, second_capacity);
}

/// Records are stored under their own ids: two records whose operations
/// carry the same document id have the same record id. So a record never
/// replaces another record's document.
pub proof fn law_ids_tell_records_apart(
    first: LocationView,
    second: LocationView,
    admin1: Map<Seq<char>, Seq<char>>,
    admin2: Map<Seq<char>, Seq<char>>,
)
    requires
        operation_of(first, admin1, admin2).id == operation_of(second, admin1, admin2).id,
    ensures
        first.id == second.id,
{
    law_decimal_tells_apart(first.id, second.id);
}

} // verus!
