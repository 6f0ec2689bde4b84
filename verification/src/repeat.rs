//! An in-memory data source that presents the same batch of rows N times.
//!
//! [`RepeatedTable`] is what a catalog registers: one batch and a repeat
//! count. A query asks it for a scan over some of its columns and gets a
//! [`RepeatExec`], a leaf of the execution plan with a single partition.
//! Activating that partition yields the [`Producer`] that replays the batch.

use crate::columnar::{
    batch_columns, batch_fields, batch_rows, batch_schema, field_count, project_batch, projected,
    row_count, schema_fields, share_batch, Batch, Column,
};
use crate::producer::{Producer, ProducerView};
use crate::projection::{
    find_outside, in_range, resolve, resolved, select,
};
use crate::text::{append_decimal, decimal};
use datafusion::arrow::datatypes::{Field, Schema};
use datafusion::arrow::error::ArrowError;
use datafusion::logical_expr::Expr;
use std::sync::Arc;
use vstd::prelude::*;
use vstd::string::StringExecFns;

verus! {

/// Why the source refused a request.
#[derive(Debug)]
pub enum ReplayError {
    /// A requested column position is not below the number of columns.
    InvalidProjection,
    /// The children of a leaf were to be replaced.
    UnsupportedOperation,
    /// A partition other than the node's single partition 0 was asked for.
    PartitionOutOfRange,
    /// Arrow could not build a projected batch; the reason is Arrow's.
    Upstream(ArrowError),
}

impl ReplayError {
    /// The text of the error, for a log or a report.
    pub fn message(&self) -> (text: String)
        ensures
            self is InvalidProjection ==> text@ == "Projection index out of range"@,
            self is UnsupportedOperation ==> text@ == "cannot replace children of a leaf node"@,
            self is PartitionOutOfRange ==> text@ == "partition out of range"@,
            self is Upstream ==> text@ == "projected batch could not be built"@,
    {
        match self {
            ReplayError::InvalidProjection => String::from_str("Projection index out of range"),
            ReplayError::UnsupportedOperation => String::from_str(
                "cannot replace children of a leaf node",
            ),
            ReplayError::PartitionOutOfRange => String::from_str("partition out of range"),
            ReplayError::Upstream(_) => String::from_str("projected batch could not be built"),
        }
    }
}

/// What a source knows of its size: nothing. The engine must not plan on
/// estimates from a replaying source.
#[derive(Clone, Copy, Debug, PartialEq, Eq, Structural)]
pub struct Statistics {
    /// The number of rows, where known.
    pub num_rows: Option<usize>,
    /// The size in bytes, where known.
    pub total_byte_size: Option<usize>,
}

/// How the output of a plan node is split.
#[derive(Clone, Copy, Debug, PartialEq, Eq, Structural)]
pub enum Partitioning {
    /// A known number of partitions with no known scheme.
    UnknownPartitioning(usize),
}

impl Partitioning {
    /// The number of partitions.
    pub open spec fn count(self) -> nat {
        match self {
            Partitioning::UnknownPartitioning(n) => n as nat,
        }
    }

    /// The number of partitions.
    pub fn partition_count(&self) -> (n: usize)
        ensures
            n == self.count(),
    {
        match self {
            Partitioning::UnknownPartitioning(n) => *n,
        }
    }
}

/// What a proof knows of a source or of a plan node: the batch it owns and
/// the number of times the batch is sent.
pub struct Replay {
    pub batch: Batch,
    pub repeat: nat,
}

impl Replay {
    /// The number of columns.
    pub open spec fn width(self) -> nat {
        batch_fields(self.batch).len()
    }

    /// The column positions that a request stands for.
    pub open spec fn positions(self, request: Option<Vec<usize>>) -> Seq<usize> {
        resolved(request, self.width())
    }

    /// The request names only columns that exist.
    pub open spec fn admits(self, request: Option<Vec<usize>>) -> bool {
        in_range(self.positions(request), self.width())
    }

    /// The fields that the request picks, in the order of the request.
    pub open spec fn picked_fields(self, request: Option<Vec<usize>>) -> Seq<Field> {
        select(batch_fields(self.batch), self.positions(request))
    }

    /// The columns that the request picks, in the order of the request.
    pub open spec fn picked_columns(self, request: Option<Vec<usize>>) -> Seq<Column> {
        select(batch_columns(self.batch), self.positions(request))
    }

    /// What Arrow's projection of the batch onto the request gives.
    pub open spec fn picked_batch(self, request: Option<Vec<usize>>) -> Result<Batch, ArrowError> {
        projected(self.batch, self.positions(request))
    }
}

/// The plan node for a projected batch, or the error for a refused
/// projection.
pub open spec fn planned(outcome: Result<Batch, ArrowError>, repeat: nat) -> Result<
    Replay,
    ReplayError,
> {
    match outcome {
        Ok(batch) => Ok(Replay { batch, repeat }),
        Err(error) => Err(ReplayError::Upstream(error)),
    }
}

/// The same result, with a plan node seen through its view.
pub open spec fn viewed(result: Result<RepeatExec, ReplayError>) -> Result<Replay, ReplayError> {
    match result {
        Ok(node) => Ok(node@),
        Err(error) => Err(error),
    }
}

/// The number of rows that a consumer sees when it reads a replay to its end:
/// `rows_per_batch` rows in each of `num_batches` batches. `None` when the
/// count does not fit a `usize`.
pub fn total_rows(num_batches: usize, rows_per_batch: usize) -> (total: Option<usize>)
    ensures
        total is Some <==> num_batches * rows_per_batch <= usize::MAX,
        total matches Some(rows) ==> rows == num_batches * rows_per_batch,
{
    num_batches.checked_mul(rows_per_batch)
}

/// In-memory table that sends a batch N times.
#[derive(Debug)]
pub struct RepeatedTable {
    batch: Batch,
    /// Number of times to send the batch.
    num: usize,
}

impl View for RepeatedTable {
    type V = Replay;

    closed spec fn view(&self) -> Replay {
        Replay { batch: self.batch, repeat: self.num as nat }
    }
}

impl RepeatedTable {
    /// A table that sends `batch` `num` times.
    pub fn new(batch: Batch, num: usize) -> (table: RepeatedTable)
        ensures
            table@ == (Replay { batch, repeat: num as nat }),
    {
        RepeatedTable { batch, num }
    }

    /// The full schema of the table: every column of its batch.
    pub fn schema(&self) -> (schema: Arc<Schema>)
        ensures
            schema_fields(*schema) == batch_fields(self@.batch),
    {
        batch_schema(&self.batch)
    }

    /// The batch that the table replays.
    pub fn batch(&self) -> (batch: &Batch)
        ensures
            *batch == self@.batch,
    {
        &self.batch
    }

    /// The number of times the batch is sent.
    pub fn repeat(&self) -> (num: usize)
        ensures
            num == self@.repeat,
    {
        self.num
    }

    /// The number of rows of the table's batch.
    pub fn num_rows(&self) -> (rows: usize)
        ensures
            rows == batch_rows(self@.batch),
    {
        row_count(&self.batch)
    }

    /// Builds the plan node for a scan over the requested columns.
    ///
    /// Without a request the scan covers every column in its place, and the
    /// node replays the table's own batch. A request may repeat and reorder
    /// columns, and may name none. A request that names a column the table
    /// does not have is refused as a whole with `InvalidProjection`; the
    /// scan fails in no other way. The node of an accepted request owns the
    /// batch that Arrow's projection gives: the requested fields and columns
    /// in the requested order, every row of the table's batch, and the
    /// table's repeat count.
    ///
    /// The filters and the limit are accepted for the engine's sake and have
    /// no effect: the source pushes down no predicate and no limit.
    pub fn scan(
        &self,
        projection: &Option<Vec<usize>>,
        _filters: &[Expr],
        _limit: Option<usize>,
    ) -> (result: Result<RepeatExec, ReplayError>)
        ensures
            result is Ok <==> self@.admits(*projection),
            result is Err ==> result == Err::<RepeatExec, ReplayError>(
                ReplayError::InvalidProjection,
            ),
            result is Ok ==> viewed(result) == planned(
                self@.picked_batch(*projection),
                self@.repeat,
            ),
            result matches Ok(node) ==> node@.repeat == self@.repeat,
            result matches Ok(node) ==> batch_fields(node@.batch) == self@.picked_fields(
                *projection,
            ),
            result matches Ok(node) ==> batch_columns(node@.batch) == self@.picked_columns(
                *projection,
            ),
            result matches Ok(node) ==> batch_fields(node@.batch).len() == self@.positions(
                *projection,
            ).len(),
            result matches Ok(node) ==> batch_rows(node@.batch) == batch_rows(self@.batch),
            *projection is None ==> result is Ok,
            result matches Ok(node) ==> (*projection is None ==> node@ == self@),
    {
        let schema = batch_schema(&self.batch);
        let count = field_count(&schema);
        let positions = resolve(projection, count);
        match find_outside(&positions, count) {
            Some(_) => Err(ReplayError::InvalidProjection),
            None => RepeatExec::from_projection(project_batch(&self.batch, &positions), self.num),
        }
    }

    /// The statistics of the table: all unknown.
    pub fn statistics(&self) -> (statistics: Statistics)
        ensures
            statistics.num_rows is None,
            statistics.total_byte_size is None,
    {
        Statistics { num_rows: None, total_byte_size: None }
    }
}

/// Execution plan node that replays one batch: a leaf with one partition.
#[derive(Debug)]
pub struct RepeatExec {
    /// The batch to send.
    batch: Batch,
    /// Number of times to repeat the batch.
    num: usize,
}

impl View for RepeatExec {
    type V = Replay;

    closed spec fn view(&self) -> Replay {
        Replay { batch: self.batch, repeat: self.num as nat }
    }
}

/// The description of a node that repeats its batch `repeat` times.
pub open spec fn description_text(repeat: nat) -> Seq<char> {
    "Replay repeat="@ + decimal(repeat)
}

impl RepeatExec {
    /// The node for what Arrow made of a projection: it owns the batch and
    /// the repeat count, or passes Arrow's refusal on as `Upstream`.
    pub fn from_projection(outcome: Result<Batch, ArrowError>, num: usize) -> (result: Result<
        RepeatExec,
        ReplayError,
    >)
        ensures
            viewed(result) == planned(outcome, num as nat),
    {
        match outcome {
            Ok(batch) => Ok(RepeatExec { batch, num }),
            Err(error) => Err(ReplayError::Upstream(error)),
        }
    }

    /// The schema of the node: the projected columns.
    pub fn schema(&self) -> (schema: Arc<Schema>)
        ensures
            schema_fields(*schema) == batch_fields(self@.batch),
    {
        batch_schema(&self.batch)
    }

    /// The batch that the node replays.
    pub fn batch(&self) -> (batch: &Batch)
        ensures
            *batch == self@.batch,
    {
        &self.batch
    }

    /// The number of times the batch is sent.
    pub fn repeat(&self) -> (num: usize)
        ensures
            num == self@.repeat,
    {
        self.num
    }

    /// The number of rows of the node's batch.
    pub fn num_rows(&self) -> (rows: usize)
        ensures
            rows == batch_rows(self@.batch),
    {
        row_count(&self.batch)
    }

    /// The children of the node: none, it is a leaf.
    pub fn children(&self) -> (children: Vec<RepeatExec>)
        ensures
            children@.len() == 0,
    {
        Vec::new()
    }

    /// The output partitioning: exactly one partition.
    pub fn output_partitioning(&self) -> (partitioning: Partitioning)
        ensures
            partitioning == Partitioning::UnknownPartitioning(1),
            partitioning.count() == 1,
    {
        Partitioning::UnknownPartitioning(1)
    }

    /// Refuses to replace the children: a leaf has none, whatever is offered.
    pub fn with_new_children(&self, _children: Vec<RepeatExec>) -> (result: Result<
        RepeatExec,
        ReplayError,
    >)
        ensures
            result == Err::<RepeatExec, ReplayError>(ReplayError::UnsupportedOperation),
    {
        Err(ReplayError::UnsupportedOperation)
    }

    /// Tells whether a partition can be activated: only partition 0 can.
    ///
    /// Asking for another partition is a planning fault upstream.
    pub fn check_partition(&self, partition: usize) -> (result: Result<(), ReplayError>)
        ensures
            partition == 0 ==> result == Ok::<(), ReplayError>(()),
            partition != 0 ==> result == Err::<(), ReplayError>(ReplayError::PartitionOutOfRange),
    {
        if partition == 0 {
            Ok(())
        } else {
            Err(ReplayError::PartitionOutOfRange)
        }
    }

    /// Activates a partition: hands out the producer that sends the node's
    /// batch `repeat` times, with nothing sent yet.
    ///
    /// The node has one partition, so `partition` is 0. Each activation has a
    /// producer of its own.
    pub fn execute(&self, partition: usize) -> (producer: Producer)
        requires
            partition == 0,
        ensures
            producer@ == ProducerView::start(self@.batch, self@.repeat),
    {
        Producer::new(share_batch(&self.batch), self.num)
    }

    /// Activates a partition, whatever partition is asked for: partition 0
    /// yields the producer of [`RepeatExec::execute`], and every other
    /// partition yields `PartitionOutOfRange` and no producer. No activation
    /// of a partition that the node does not have ever yields a stream, not
    /// even an empty one.
    ///
    /// This is the entry for a caller that Verus does not check; such a
    /// caller gives up on the error.
    pub fn activate(&self, partition: usize) -> (result: Result<Producer, ReplayError>)
        ensures
            result is Ok <==> partition == 0,
            result matches Ok(producer) ==> producer@ == ProducerView::start(
                self@.batch,
                self@.repeat,
            ),
            result is Err ==> result == Err::<Producer, ReplayError>(
                ReplayError::PartitionOutOfRange,
            ),
    {
        match self.check_partition(partition) {
            Ok(()) => Ok(self.execute(partition)),
            Err(error) => Err(error),
        }
    }

    /// A short description for the explain output of a plan.
    pub fn format_description(&self) -> (text: String)
        ensures
            text@ == description_text(self@.repeat),
    {
        let mut text = String::from_str("Replay repeat=");
        append_decimal(&mut text, self.num);
        text
    }
}

} // verus!
