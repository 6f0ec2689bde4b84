//! The columnar data that the replaying source carries.
//!
//! Batches, columns, schemas and fields are Arrow's. Nothing in this crate
//! looks inside a field or a column: Arrow picks them by position and the
//! batch is handed on. This module is the whole boundary to Arrow. Every
//! function in it is a single Arrow call whose contract is taken from
//! Arrow's source and is believed, not proved.

use datafusion::arrow::array::ArrayRef;
use datafusion::arrow::datatypes::{Field, Schema};
use datafusion::arrow::error::ArrowError;
use datafusion::arrow::record_batch::RecordBatch;
use datafusion::logical_expr::Expr;
use crate::projection::{identity, in_range, select};
use std::sync::Arc;
use vstd::prelude::*;

verus! {

/// Arrow's `Field`: the name, type and nullability of one column.
#[verifier::external_type_specification]
#[verifier::external_body]
pub struct ExField(Field);

/// Arrow's `Schema`: an ordered list of fields, with metadata.
#[verifier::external_type_specification]
#[verifier::external_body]
pub struct ExSchema(Schema);

/// Arrow's error type.
#[verifier::external_type_specification]
#[verifier::external_body]
pub struct ExArrowError(ArrowError);

/// The query engine's filter expression. The source accepts filters and
/// never reads them.
#[verifier::external_type_specification]
#[verifier::external_body]
pub struct ExExpr(Expr);

/// One column of a batch: Arrow's `ArrayRef`, a shared pointer to an
/// immutable array. Verus cannot take a pointer to `dyn Array`, so the
/// pointer is held here and is opaque to every proof. Contracts speak of
/// columns through [`batch_columns`]; the library itself never takes one out
/// of a batch.
#[verifier::external_body]
#[derive(Debug)]
pub struct Column(pub ArrayRef);

/// An immutable block of rows: Arrow's `RecordBatch`. Verus cannot take the
/// type itself (one of its impls names `dyn Array`), so the batch is held
/// here and is opaque to every proof. What a proof knows of a batch is
/// [`batch_fields`], [`batch_columns`] and [`batch_rows`]. The field is public
/// for callers that hand a batch in or take one out.
#[verifier::external_body]
#[derive(Debug)]
pub struct Batch(pub RecordBatch);

/// The fields of a schema, in order.
pub uninterp spec fn schema_fields(schema: Schema) -> Seq<Field>;

/// The fields of a batch's schema, in order.
pub uninterp spec fn batch_fields(batch: Batch) -> Seq<Field>;

/// The columns of a batch, in order.
pub uninterp spec fn batch_columns(batch: Batch) -> Seq<Column>;

/// The number of rows of a batch.
pub uninterp spec fn batch_rows(batch: Batch) -> nat;

/// What `RecordBatch::project` returns for a batch and a list of column
/// positions: the projected batch, or Arrow's reason for refusing.
pub uninterp spec fn projected(batch: Batch, positions: Seq<usize>) -> Result<Batch, ArrowError>;

/// `RecordBatch::schema`: the shared schema of the batch.
///
/// Believed: the result has the batch's fields, and a batch has as many
/// fields as columns. Every safe constructor of `RecordBatch` keeps the two
/// counts equal.
#[verifier::external_body]
pub(crate) fn batch_schema(batch: &Batch) -> (schema: Arc<Schema>)
    ensures
        schema_fields(*schema) == batch_fields(*batch),
        schema_fields(*schema).len() == batch_columns(*batch).len(),
{
    batch.0.schema()
}

/// `Schema::fields` and the length of that list.
///
/// Believed: the result is the number of fields of the schema.
#[verifier::external_body]
pub(crate) fn field_count(schema: &Schema) -> (count: usize)
    ensures
        count == schema_fields(*schema).len(),
{
    schema.fields().len()
}

/// `RecordBatch::num_rows`.
///
/// Believed: the result is the number of rows of the batch.
#[verifier::external_body]
pub(crate) fn row_count(batch: &Batch) -> (count: usize)
    ensures
        count == batch_rows(*batch),
{
    batch.0.num_rows()
}

/// `RecordBatch::project`.
///
/// Believed: the result is determined by the batch and the positions. Arrow
/// accepts exactly the lists whose positions are all below the number of
/// columns, the empty list among them. The projected batch has the field and
/// the column of position `positions[k]` in place `k`, and the rows of the
/// source: Arrow shares the columns and builds the batch without validating
/// it anew. The projection that keeps every column in its place gives the
/// source batch back, its schema's metadata included.
#[verifier::external_body]
pub(crate) fn project_batch(batch: &Batch, positions: &Vec<usize>) -> (outcome: Result<Batch, ArrowError>)
    ensures
        outcome == projected(*batch, positions@),
        outcome is Ok <==> in_range(positions@, batch_fields(*batch).len()),
        outcome matches Ok(picked) ==> batch_fields(picked) == select(batch_fields(*batch), positions@),
        outcome matches Ok(picked) ==> batch_columns(picked) == select(batch_columns(*batch), positions@),
        outcome matches Ok(picked) ==> batch_rows(picked) == batch_rows(*batch),
        outcome matches Ok(picked) ==> (positions@ == identity(batch_fields(*batch).len()) ==> picked == *batch),
{
    match batch.0.project(positions) {
        Ok(picked) => Ok(Batch(picked)),
        Err(error) => Err(error),
    }
}

/// `RecordBatch::clone`.
///
/// Believed: the copy is the same batch. Arrow's clone shares the schema and
/// the column buffers and copies no cell.
#[verifier::external_body]
pub(crate) fn share_batch(batch: &Batch) -> (copy: Batch)
    ensures
        copy == *batch,
{
    Batch(batch.0.clone())
}

} // verus!
