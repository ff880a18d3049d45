//! The ingestion run as a state machine.
//!
//! The run talks to the search engine and reads the gazetteer; the machine
//! does neither. Its driver performs the action that the machine names and
//! hands back what came of it as the next event: first the outcome of asking
//! whether the index exists, then, as the machine asks for them, the outcome
//! of creating the index and of applying the mapping, the rows of the
//! gazetteer one by one, the end of the stream, and the reply to each bulk
//! request. Whatever goes wrong ends the run: nothing is tried twice.

use crate::geonames::{
    decoded, index_mapping, mapping_view, operation_of, FieldMapping, FieldType, Location,
    PendingOperation, PendingOperationView,
};
use crate::lookup::AdminLookup;
use crate::reply::{errors_flag, read_errors_flag};
use crate::schema::{Row, SchemaError};
use crate::table::{Record, Table};
use vstd::prelude::*;

verus! {

/// The index could not be set up.
#[derive(Clone, Copy, Debug, PartialEq, Eq, Structural)]
pub enum IndexBootstrapError {
    /// Creating the index was answered with this status.
    CreateRefused { status: u16 },
    /// Applying the mapping was answered with this status. The index exists
    /// by then, without its mapping.
    MappingRefused { status: u16 },
}

/// A bulk request failed as a whole.
#[derive(Clone, Copy, Debug, PartialEq, Eq, Structural)]
pub enum BulkOperationError {
    /// The reply reports an error in at least one operation.
    ErrorsReported,
    /// The reply does not say whether there were errors.
    Unintelligible,
}

/// Why a run ended without success. Rows count from 0.
#[derive(Clone, Copy, Debug, PartialEq, Eq, Structural)]
pub enum SeedError {
    /// This row of the gazetteer does not follow the schema.
    Schema { row: u64, error: SchemaError },
    /// This row of the gazetteer could not be read.
    Unreadable { row: u64 },
    IndexBootstrap(IndexBootstrapError),
    BulkOperation(BulkOperationError),
    /// More records than a 64-bit counter holds.
    TooManyRecords,
    /// The driver reported something that the machine had not asked for.
    OutOfOrder,
}

/// Where a run stands.
#[derive(Clone, Copy, Debug, PartialEq, Eq, Structural)]
pub enum Phase {
    /// Waiting to hear whether the index exists.
    CheckingIndex,
    /// Waiting for the index to be created.
    CreatingIndex,
    /// Waiting for the mapping to be applied.
    ApplyingMapping,
    /// Taking records into the batch.
    Filling,
    /// Waiting for the reply to a bulk request; `last` where the stream has
    /// ended and this request carries its remainder.
    Flushing { last: bool },
    /// Every record was sent and accepted.
    Done,
    /// The run was given up.
    Failed(SeedError),
}

/// What the driver reports.
#[derive(Debug)]
pub enum Event {
    /// The status with which the engine answered the question whether the
    /// index exists.
    IndexChecked { status: u16 },
    /// The status with which it answered the creation of the index.
    IndexCreated { status: u16 },
    /// The status with which it answered the mapping.
    MappingApplied { status: u16 },
    /// The next row of the gazetteer, decoded and made into an operation, or
    /// the row's fault.
    Record(Result<PendingOperation, SchemaError>),
    /// The next row of the gazetteer could not be read.
    Unreadable,
    /// The gazetteer has no more rows.
    EndOfStream,
    /// What the reply to the bulk request says of errors.
    BulkReplied { errors: Option<bool> },
}

/// What the driver is to do next.
#[derive(Debug)]
pub enum Action {
    /// Create the index and report the status.
    CreateIndex,
    /// Apply this mapping to the index and report the status.
    ApplyMapping(Vec<FieldMapping>),
    /// Report the next row, or the end of the stream. `progress` is set
    /// after a bulk request that succeeded, to the number of records that
    /// the index has taken so far.
    Continue { progress: Option<u64> },
    /// Send these operations as one bulk request, in this order, and report
    /// the reply. `loaded` is the number of records read so far.
    SendBulk { operations: Vec<PendingOperation>, loaded: u64 },
    /// The run is complete; the index has taken `inserted` records.
    Finish { inserted: u64 },
    /// Give the run up. Where `diagnostic` is set, first write the reply
    /// that failed, as it came, to [`DIAGNOSTIC_PATH`].
    Abort { error: SeedError, diagnostic: bool },
}

/// The file that receives the reply to a bulk request that failed.
pub const DIAGNOSTIC_PATH: &'static str = "error.log";

/// The capacity of a batch where the operator names none.
pub const DEFAULT_CAPACITY: usize = 100000;

/// The name of the index where the operator names none.
pub const DEFAULT_INDEX: &'static str = "geolocations";

/// The search engine's address where the operator names none.
pub const DEFAULT_ENDPOINT: &'static str = "http://localhost:9200";

/// The status of a resource that does not exist.
pub const NOT_FOUND: u16 = 404;

/// The status of a request that was carried out.
pub const OK: u16 = 200;

/// What an [`Event`] holds.
pub enum EventView {
    IndexChecked { status: u16 },
    IndexCreated { status: u16 },
    MappingApplied { status: u16 },
    Record(Result<PendingOperationView, SchemaError>),
    Unreadable,
    EndOfStream,
    BulkReplied { errors: Option<bool> },
}

/// What an [`Action`] holds.
pub enum ActionView {
    CreateIndex,
    ApplyMapping(Seq<(Seq<char>, FieldType)>),
    Continue { progress: Option<u64> },
    SendBulk { operations: Seq<PendingOperationView>, loaded: u64 },
    Finish { inserted: u64 },
    Abort { error: SeedError, diagnostic: bool },
}

/// The operations of a batch, each taken by its view.
pub open spec fn operations_view(batch: Seq<PendingOperation>) -> Seq<PendingOperationView> {
    Seq::new(batch.len(), |i: int| batch[i]@)
}

impl View for Event {
    type V = EventView;

    open spec fn view(&self) -> EventView {
        match self {
            Event::IndexChecked { status } => EventView::IndexChecked { status: *status },
            Event::IndexCreated { status } => EventView::IndexCreated { status: *status },
            Event::MappingApplied { status } => EventView::MappingApplied { status: *status },
            Event::Record(Ok(op)) => EventView::Record(Ok(op@)),
            Event::Record(Err(e)) => EventView::Record(Err(*e)),
            Event::Unreadable => EventView::Unreadable,
            Event::EndOfStream => EventView::EndOfStream,
            Event::BulkReplied { errors } => EventView::BulkReplied { errors: *errors },
        }
    }
}

impl View for Action {
    type V = ActionView;

    open spec fn view(&self) -> ActionView {
        match self {
            Action::CreateIndex => ActionView::CreateIndex,
            Action::ApplyMapping(mapping) => ActionView::ApplyMapping(mapping_view(mapping@)),
            Action::Continue { progress } => ActionView::Continue { progress: *progress },
            Action::SendBulk { operations, loaded } => ActionView::SendBulk {
                operations: operations_view(operations@),
                loaded: *loaded,
            },
            Action::Finish { inserted } => ActionView::Finish { inserted: *inserted },
            Action::Abort { error, diagnostic } => ActionView::Abort {
                error: *error,
                diagnostic: *diagnostic,
            },
        }
    }
}

/// The state of a run.
pub struct PipelineView {
    /// How many operations make a full batch.
    pub capacity: nat,
    pub phase: Phase,
    /// The operations taken since the last bulk request, in their order.
    pub batch: Seq<PendingOperationView>,
    /// How many records were taken in all.
    pub records: u64,
}

impl PipelineView {
    /// The state before anything was reported.
    pub open spec fn initial(capacity: nat) -> PipelineView {
        PipelineView { capacity, phase: Phase::CheckingIndex, batch: Seq::empty(), records: 0 }
    }

    /// What holds of every state of a run: a batch is taken only while
    /// filling, and it is never full when the machine comes to rest.
    pub open spec fn wf(self) -> bool {
        &&& self.capacity >= 1
        &&& self.batch.len() < self.capacity
        &&& self.phase != Phase::Filling ==> self.batch.len() == 0
    }

    /// The state of a run that was given up for `error`.
    pub open spec fn failed(self, error: SeedError) -> PipelineView {
        PipelineView { phase: Phase::Failed(error), batch: Seq::empty(), ..self }
    }

    /// The state in `phase`, the batch empty.
    pub open spec fn resting(self, phase: Phase) -> PipelineView {
        PipelineView { phase, batch: Seq::empty(), ..self }
    }
}

/// Giving the run up for `error`.
pub open spec fn abort(s: PipelineView, error: SeedError) -> (PipelineView, ActionView) {
    (s.failed(error), ActionView::Abort { error, diagnostic: error is BulkOperation })
}

/// A status of the two hundreds.
pub open spec fn is_success(status: u16) -> bool {
    200 <= status <= 299
}

/// The step of the machine: the state after `event` and the action to take.
///
/// An index that is not there (`404`) is created and then mapped; any other
/// answer to the check takes it for present. Creation must succeed with a
/// status of the two hundreds, the mapping with `200`. While filling, each
/// record joins the batch, and the batch that reaches the capacity is sent;
/// the end of the stream sends what is left. A reply that does not plainly
/// report `errors: false` fails the run, as does a row that is at fault or
/// cannot be read. A run that failed stays failed.
pub open spec fn next(s: PipelineView, event: EventView) -> (PipelineView, ActionView) {
    match (s.phase, event) {
        (Phase::Failed(error), _) => (s, ActionView::Abort { error, diagnostic: false }),
        (Phase::CheckingIndex, EventView::IndexChecked { status }) => if status == NOT_FOUND {
            (s.resting(Phase::CreatingIndex), ActionView::CreateIndex)
        } else {
            (s.resting(Phase::Filling), ActionView::Continue { progress: None })
        },
        (Phase::CreatingIndex, EventView::IndexCreated { status }) => if is_success(status) {
            (s.resting(Phase::ApplyingMapping), ActionView::ApplyMapping(index_mapping()))
        } else {
            abort(s, SeedError::IndexBootstrap(IndexBootstrapError::CreateRefused { status }))
        },
        (Phase::ApplyingMapping, EventView::MappingApplied { status }) => if status == OK {
            (s.resting(Phase::Filling), ActionView::Continue { progress: None })
        } else {
            abort(s, SeedError::IndexBootstrap(IndexBootstrapError::MappingRefused { status }))
        },
        (Phase::Filling, EventView::Record(Err(error))) => abort(
            s,
            SeedError::Schema { row: s.records, error },
        ),
        (Phase::Filling, EventView::Unreadable) => abort(
            s,
            SeedError::Unreadable { row: s.records },
        ),
        (Phase::Filling, EventView::Record(Ok(op))) => if s.records == u64::MAX {
            abort(s, SeedError::TooManyRecords)
        } else {
            let records = (s.records + 1) as u64;
            let batch = s.batch.push(op);
            if batch.len() >= s.capacity {
                (
                    PipelineView { records, ..s.resting(Phase::Flushing { last: false }) },
                    ActionView::SendBulk { operations: batch, loaded: records },
                )
            } else {
                (PipelineView { records, batch, ..s }, ActionView::Continue { progress: None })
            }
        },
        (Phase::Filling, EventView::EndOfStream) => if s.batch.len() == 0 {
            (s.resting(Phase::Done), ActionView::Finish { inserted: s.records })
        } else {
            (
                s.resting(Phase::Flushing { last: true }),
                ActionView::SendBulk { operations: s.batch, loaded: s.records },
            )
        },
        (Phase::Flushing { last }, EventView::BulkReplied { errors }) => match errors {
            Some(false) => if last {
                (s.resting(Phase::Done), ActionView::Finish { inserted: s.records })
            } else {
                (s.resting(Phase::Filling), ActionView::Continue { progress: Some(s.records) })
            },
            Some(true) => abort(s, SeedError::BulkOperation(BulkOperationError::ErrorsReported)),
            None => abort(s, SeedError::BulkOperation(BulkOperationError::Unintelligible)),
        },
        _ => abort(s, SeedError::OutOfOrder),
    }
}

/// The machine of one run.
pub struct Pipeline {
    capacity: usize,
    phase: Phase,
    batch: Vec<PendingOperation>,
    records: u64,
}

impl View for Pipeline {
    type V = PipelineView;

    closed spec fn view(&self) -> PipelineView {
        PipelineView {
            capacity: self.capacity as nat,
            phase: self.phase,
            batch: operations_view(self.batch@),
            records: self.records,
        }
    }
}

impl Pipeline {
    #[verifier::type_invariant]
    spec fn well_formed(self) -> bool {
        self@.wf()
    }

    /// A run that sends batches of `capacity` operations.
    pub fn new(capacity: usize) -> (pipeline: Pipeline)
        requires
            capacity >= 1,
        ensures
            pipeline@ == PipelineView::initial(capacity as nat),
            pipeline@.wf(),
    {
        let pipeline = Pipeline {
            capacity,
            phase: Phase::CheckingIndex,
            batch: Vec::new(),
            records: 0,
        };
        assert(pipeline@.batch =~= Seq::empty());
        pipeline
    }

    /// Where the run stands.
    pub fn phase(&self) -> (phase: Phase)
        ensures
            phase == self@.phase,
    {
        self.phase
    }

    /// How many records the run has taken.
    pub fn records(&self) -> (records: u64)
        ensures
            records == self@.records,
    {
        self.records
    }

    /// How many operations wait in the batch.
    pub fn pending(&self) -> (pending: usize)
        ensures
            pending == self@.batch.len(),
            pending < self@.capacity,
    {
        proof {
            use_type_invariant(self);
        }
        self.batch.len()
    }

    /// How many operations make a full batch.
    pub fn capacity(&self) -> (capacity: usize)
        ensures
            capacity == self@.capacity,
            capacity >= 1,
    {
        proof {
            use_type_invariant(self);
        }
        self.capacity
    }

    /// Gives the run up.
    fn fail(&mut self, error: SeedError) -> (action: Action)
        ensures
            (final(self)@, action@) == abort(old(self)@, error),
            final(self)@.wf(),
    {
        proof {
            use_type_invariant(&*self);
        }
        let failed = Pipeline {
            capacity: self.capacity,
            phase: Phase::Failed(error),
            batch: Vec::new(),
            records: self.records,
        };
        assert(failed@.batch =~= Seq::empty());
        *self = failed;
        let diagnostic = match error {
            SeedError::BulkOperation(_) => true,
            _ => false,
        };
        Action::Abort { error, diagnostic }
    }

    /// Comes to rest in `phase` with an empty batch.
    fn rest(&mut self, phase: Phase)
        ensures
            final(self)@ == old(self)@.resting(phase),
            final(self)@.wf(),
    {
        proof {
            use_type_invariant(&*self);
        }
        let rested = Pipeline {
            capacity: self.capacity,
            phase,
            batch: Vec::new(),
            records: self.records,
        };
        assert(rested@.batch =~= Seq::empty());
        *self = rested;
    }

    /// Takes `event` and names the action that follows.
    pub fn step(&mut self, event: Event) -> (action: Action)
        ensures
            (final(self)@, action@) == next(old(self)@, event@),
            final(self)@.wf(),
    {
        proof {
            use_type_invariant(&*self);
        }
        match self.phase {
            Phase::Failed(error) => Action::Abort { error, diagnostic: false },
            Phase::CheckingIndex => match event {
                Event::IndexChecked { status } => {
                    if status == NOT_FOUND {
                        self.rest(Phase::CreatingIndex);
                        Action::CreateIndex
                    } else {
                        self.rest(Phase::Filling);
                        Action::Continue { progress: None }
                    }
                },
                _ => self.fail(SeedError::OutOfOrder),
            },
            Phase::CreatingIndex => match event {
                Event::IndexCreated { status } => {
                    if 200 <= status && status <= 299 {
                        self.rest(Phase::ApplyingMapping);
                        Action::ApplyMapping(Location::generate_mapping())
                    } else {
                        let refused = IndexBootstrapError::CreateRefused { status };
                        self.fail(SeedError::IndexBootstrap(refused))
                    }
                },
                _ => self.fail(SeedError::OutOfOrder),
            },
            Phase::ApplyingMapping => match event {
                Event::MappingApplied { status } => {
                    if status == OK {
                        self.rest(Phase::Filling);
                        Action::Continue { progress: None }
                    } else {
                        let refused = IndexBootstrapError::MappingRefused { status };
                        self.fail(SeedError::IndexBootstrap(refused))
                    }
                },
                _ => self.fail(SeedError::OutOfOrder),
            },
            Phase::Filling => match event {
                Event::Record(Err(error)) => {
                    let row = self.records;
                    self.fail(SeedError::Schema { row, error })
                },
                Event::Unreadable => {
                    let row = self.records;
                    self.fail(SeedError::Unreadable { row })
                },
                Event::Record(Ok(op)) => {
                    if self.records == u64::MAX {
                        self.fail(SeedError::TooManyRecords)
                    } else {
                        self.take(op)
                    }
                },
                Event::EndOfStream => {
                    if self.batch.len() == 0 {
                        let inserted = self.records;
                        self.rest(Phase::Done);
                        Action::Finish { inserted }
                    } else {
                        let loaded = self.records;
                        let operations = self.flush(Phase::Flushing { last: true }, loaded);
                        Action::SendBulk { operations, loaded }
                    }
                },
                _ => self.fail(SeedError::OutOfOrder),
            },
            Phase::Flushing { last } => match event {
                Event::BulkReplied { errors } => match errors {
                    Some(false) => {
                        let inserted = self.records;
                        if last {
                            self.rest(Phase::Done);
                            Action::Finish { inserted }
                        } else {
                            self.rest(Phase::Filling);
                            Action::Continue { progress: Some(inserted) }
                        }
                    },
                    Some(true) => self.fail(
                        SeedError::BulkOperation(BulkOperationError::ErrorsReported),
                    ),
                    None => self.fail(SeedError::BulkOperation(BulkOperationError::Unintelligible)),
                },
                _ => self.fail(SeedError::OutOfOrder),
            },
            Phase::Done => self.fail(SeedError::OutOfOrder),
        }
    }

    /// Hands the batch out and comes to rest in `phase` with `records`
    /// records counted.
    fn flush(&mut self, phase: Phase, records: u64) -> (operations: Vec<PendingOperation>)
        requires
            phase != Phase::Filling,
        ensures
            operations_view(operations@) == old(self)@.batch,
            final(self)@ == (PipelineView { records, ..old(self)@.resting(phase) }),
            final(self)@.wf(),
    {
        proof {
            use_type_invariant(&*self);
        }
        let mut operations: Vec<PendingOperation> = Vec::new();
        std::mem::swap(&mut operations, &mut self.batch);
        let flushed = Pipeline { capacity: self.capacity, phase, batch: Vec::new(), records };
        assert(flushed@.batch =~= Seq::empty());
        *self = flushed;
        operations
    }

    /// Takes one more operation into the batch and sends the batch where it
    /// is full.
    fn take(&mut self, op: PendingOperation) -> (action: Action)
        requires
            old(self)@.phase == Phase::Filling,
            old(self)@.records < u64::MAX,
        ensures
            (final(self)@, action@) == next(old(self)@, EventView::Record(Ok(op@))),
            final(self)@.wf(),
    {
        proof {
            use_type_invariant(&*self);
        }
        let records = self.records + 1;
        if self.batch.len() + 1 >= self.capacity {
            let mut operations = self.flush(Phase::Flushing { last: false }, records);
            operations.push(op);
            assert(operations_view(operations@) =~= old(self)@.batch.push(op@));
            Action::SendBulk { operations, loaded: records }
        } else {
            let mut batch: Vec<PendingOperation> = Vec::new();
            std::mem::swap(&mut batch, &mut self.batch);
            batch.push(op);
            let taken = Pipeline {
                capacity: self.capacity,
                phase: Phase::Filling,
                batch,
                records,
            };
            assert(taken@.batch =~= old(self)@.batch.push(op@));
            *self = taken;
            Action::Continue { progress: None }
        }
    }
}

/// The event that a row of the gazetteer makes: the operation that indexes
/// the record it decodes to, or the row's fault.
pub open spec fn record_event(
    row: Row,
    admin1: Map<Seq<char>, Seq<char>>,
    admin2: Map<Seq<char>, Seq<char>>,
) -> EventView {
    EventView::Record(
        match decoded(row) {
            Ok(record) => Ok(operation_of(record, admin1, admin2)),
            Err(e) => Err(e),
        },
    )
}

/// The event that the body of a reply to a bulk request makes.
pub open spec fn reply_event(body: Seq<u8>) -> EventView {
    EventView::BulkReplied { errors: errors_flag(body) }
}

impl Pipeline {
    /// Takes the next row of the gazetteer: decodes it, makes the operation
    /// that indexes it, and steps.
    pub fn feed_row(
        &mut self,
        row: &Vec<String>,
        admin1: &AdminLookup,
        admin2: &AdminLookup,
    ) -> (action: Action)
        ensures
            (final(self)@, action@) == next(
                old(self)@,
                record_event(row.deep_view(), admin1@, admin2@),
            ),
            final(self)@.wf(),
    {
        let record = match Location::from_row(row) {
            Ok(location) => Ok(location.index_operation(admin1, admin2)),
            Err(e) => Err(e),
        };
        self.step(Event::Record(record))
    }

    /// Takes the body of the reply to a bulk request, reads what it says of
    /// errors, and steps.
    pub fn feed_reply(&mut self, body: &[u8]) -> (action: Action)
        ensures
            (final(self)@, action@) == next(old(self)@, reply_event(body@)),
            final(self)@.wf(),
    {
        let errors = read_errors_flag(body);
        self.step(Event::BulkReplied { errors })
    }
}

/// The event that the head of a table makes: its next record, or its end.
pub open spec fn table_event(
    ahead: Seq<Record>,
    admin1: Map<Seq<char>, Seq<char>>,
    admin2: Map<Seq<char>, Seq<char>>,
) -> EventView {
    if ahead.len() == 0 {
        EventView::EndOfStream
    } else if ahead[0] is None {
        EventView::Unreadable
    } else {
        record_event(ahead[0].unwrap(), admin1, admin2)
    }
}

/// Feeding the machine from a table for as long as it asks for the next
/// row: the state it comes to, the action that is not a plain request for
/// more, and the records that are left in the table.
pub open spec fn filled(
    s: PipelineView,
    ahead: Seq<Record>,
    admin1: Map<Seq<char>, Seq<char>>,
    admin2: Map<Seq<char>, Seq<char>>,
) -> (PipelineView, ActionView, Seq<Record>)
    decreases ahead.len(),
{
    let (after, action) = next(s, table_event(ahead, admin1, admin2));
    if ahead.len() == 0 {
        (after, action, ahead)
    } else if action is Continue {
        filled(after, ahead.skip(1), admin1, admin2)
    } else {
        (after, action, ahead.skip(1))
    }
}

impl Pipeline {
    /// Takes rows from `table` until the machine wants something else than
    /// the next row: a bulk request sent, or the run ended. The table is
    /// left where the reading stopped.
    pub fn fill(
        &mut self,
        table: &mut Table,
        admin1: &AdminLookup,
        admin2: &AdminLookup,
    ) -> (action: Action)
        ensures
            (final(self)@, action@, final(table).ahead()) == filled(
                old(self)@,
                old(table).ahead(),
                admin1@,
                admin2@,
            ),
            final(self)@.wf(),
    {
        let ghost start = self@;
        let ghost records = table.ahead();
        proof {
            use_type_invariant(&*self);
        }
        loop
            invariant
                start == old(self)@,
                records == old(table).ahead(),
                self@.wf(),
                filled(start, records, admin1@, admin2@) == filled(
                    self@,
                    table.ahead(),
                    admin1@,
                    admin2@,
                ),
            decreases table.ahead().len(),
        {
            let action = match table.next_row() {
                None => {
                    return self.step(Event::EndOfStream);
                },
                Some(Err(_)) => self.step(Event::Unreadable),
                Some(Ok(row)) => self.feed_row(&row, admin1, admin2),
            };
            match action {
                Action::Continue { .. } => {},
                _ => {
                    return action;
                },
            }
        }
    }
}

} // verus!
