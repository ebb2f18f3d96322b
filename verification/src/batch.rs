use vstd::prelude::*;
use std::sync::Arc;
use crate::error::SelectError;
use crate::schema::{unique_names, wf_descs, ColumnDesc};

verus! {

/// A shared, read-only handle to one column's value array. Projection
/// never copies or rewrites the values behind it: it only passes handles
/// from an input batch to an output batch.
#[verifier::external_body]
pub struct ColumnData {
    inner: arrow::array::ArrayRef,
}

/// One batch of rows, held column by column by the table-file engine.
/// Opaque to the logic here but for the two names below: its named
/// columns, and its row count.
#[verifier::external_body]
pub struct Batch {
    pub(crate) inner: arrow::record_batch::RecordBatch,
}

/// The number of values the array behind a column handle holds.
pub uninterp spec fn col_len(c: ColumnData) -> nat;

/// The named columns a batch holds: every name the batch can be addressed
/// by, each mapped to the column at the first position carrying that name.
pub uninterp spec fn batch_cols(b: Batch) -> Map<Seq<char>, ColumnData>;

/// The number of rows a batch holds. Every column of a batch has exactly
/// this many values.
pub uninterp spec fn batch_rows(b: Batch) -> nat;

/// Relies on `RecordBatch::column_by_name`: it returns the column at the
/// first schema position whose field carries the given name, or `None`
/// when no field does; every column of a batch has the batch's row count.
#[verifier::external_body]
fn column_by_name(b: &Batch, name: &str) -> (r: Option<ColumnData>)
    ensures
        (r is Some <==> batch_cols(*b).dom().contains(name@)),
        (r matches Some(c) ==> c == batch_cols(*b)[name@] && col_len(c) == batch_rows(*b)),
{
    match b.inner.column_by_name(name) {
        Some(a) => Some(ColumnData { inner: Arc::clone(a) }),
        None => None,
    }
}

/// Whether the engine accepts building a batch from these descriptors'
/// fields and these columns. The verdict is a function of the arguments
/// alone: it turns on the column count matching the descriptor count, the
/// columns sharing one length, and each column's type and null content
/// fitting its descriptor's field.
pub uninterp spec fn accepts(descs: Seq<ColumnDesc>, cols: Seq<ColumnData>) -> bool;

/// Relies on `RecordBatch::try_new`: whether it accepts depends on the
/// descriptors' fields and the columns alone, and it rejects an empty
/// column list; on success every column has one shared length, which
/// becomes the batch's row count. The new batch is addressable by its
/// fields' names, so when each descriptor carries its own field's name and
/// no two share one, each descriptor's name addresses the column handed in
/// at the descriptor's position.
#[verifier::external_body]
fn try_new_batch(descs: &Vec<ColumnDesc>, cols: Vec<ColumnData>) -> (r: Result<Batch, SelectError>)
    ensures
        (r is Ok <==> accepts(descs@, cols@)),
        (cols@.len() == 0 ==> r is Err),
        (r matches Ok(b) ==> cols@.len() > 0 && descs@.len() == cols@.len() && (forall|i: int|
            0 <= i < cols@.len() ==> col_len(#[trigger] cols@[i]) == batch_rows(b)) && ((
        wf_descs(descs@) && unique_names(descs@)) ==> forall|i: int|
            0 <= i < descs@.len() ==> batch_cols(b).dom().contains(#[trigger] descs@[i].name@)
                && batch_cols(b)[descs@[i].name@] == cols@[i])),
        (r matches Err(e) ==> e is SchemaMismatch),
{
    let fields: Vec<Arc<arrow::datatypes::Field>> =
        descs.iter().map(|d| Arc::clone(&d.field)).collect();
    let schema = Arc::new(arrow::datatypes::Schema::new(fields));
    let arrays: Vec<arrow::array::ArrayRef> = cols.into_iter().map(|c| c.inner).collect();
    match arrow::record_batch::RecordBatch::try_new(schema, arrays) {
        Ok(b) => Ok(Batch { inner: b }),
        Err(e) => Err(SelectError::SchemaMismatch(e.to_string())),
    }
}

/// The columns a projection step hands to the engine: for each projected
/// descriptor, in schema order, the batch's column of that name.
pub open spec fn picked_cols(selected: Seq<ColumnDesc>, bat: Batch) -> Seq<ColumnData> {
    Seq::new(selected.len(), |i: int| batch_cols(bat)[selected[i].name@])
}

/// Re-materializes one batch against the projected schema: for each
/// projected column, in schema order, the input batch's column of that
/// name is passed on by handle, never copied. If a projected name is
/// absent from the batch, the whole step fails with `MissingColumn` naming
/// it and no output batch is built. When every projected name is present,
/// the step succeeds exactly when the engine accepts the construction, and
/// fails as `SchemaMismatch` otherwise. On success the output batch has
/// the input batch's row count, and with well-formed, unique projected
/// descriptors it holds, for each projected name, exactly the input
/// batch's column of that name.
pub fn batch2selected(selected: &Vec<ColumnDesc>, bat: &Batch) -> (r: Result<Batch, SelectError>)
    ensures
        ((exists|i: int|
            0 <= i < selected@.len() && !batch_cols(*bat).dom().contains(
                #[trigger] selected@[i].name@,
            )) <==> (r matches Err(e) && e is MissingColumn)),
        ((forall|i: int|
            0 <= i < selected@.len() ==> batch_cols(*bat).dom().contains(
                #[trigger] selected@[i].name@,
            )) ==> (r is Ok <==> accepts(selected@, picked_cols(selected@, *bat)))),
        (r matches Err(e) ==> e is MissingColumn || e is SchemaMismatch),
        (r matches Err(e) ==> (e matches SelectError::MissingColumn(n) ==> !batch_cols(
            *bat,
        ).dom().contains(n@) && (exists|i: int|
            0 <= i < selected@.len() && #[trigger] selected@[i].name@ == n@))),
        (r matches Ok(out) ==> selected@.len() > 0 && batch_rows(out) == batch_rows(*bat)),
        (r matches Ok(out) ==> (wf_descs(selected@) && unique_names(selected@)) ==> forall|i: int|
            0 <= i < selected@.len() ==> batch_cols(out).dom().contains(
                #[trigger] selected@[i].name@,
            ) && batch_cols(out)[selected@[i].name@] == batch_cols(*bat)[selected@[i].name@]),
{
    let mut cols: Vec<ColumnData> = Vec::new();
    let mut i: usize = 0;
    while i < selected.len()
        invariant
            i <= selected.len(),
            cols@.len() == i,
            forall|j: int|
                0 <= j < i ==> batch_cols(*bat).dom().contains(#[trigger] selected@[j].name@),
            forall|j: int| 0 <= j < i ==> #[trigger] cols@[j] == batch_cols(
                *bat,
            )[selected@[j].name@],
            forall|j: int| 0 <= j < i ==> col_len(#[trigger] cols@[j]) == batch_rows(*bat),
        decreases selected.len() - i,
    {
        match column_by_name(bat, selected[i].name.as_str()) {
            Some(c) => {
                cols.push(c);
            },
            None => {
                return Err(SelectError::MissingColumn(selected[i].name.clone()));
            },
        }
        i = i + 1;
    }
    let ghost gcols = cols@;
    proof {
        assert(gcols =~= picked_cols(selected@, *bat));
    }
    match try_new_batch(selected, cols) {
        Ok(out) => {
            proof {
                assert(col_len(gcols[0]) == batch_rows(out));
                assert(col_len(gcols[0]) == batch_rows(*bat));
                if wf_descs(selected@) && unique_names(selected@) {
                    assert forall|k: int| 0 <= k < selected@.len() implies batch_cols(
                        out,
                    ).dom().contains(#[trigger] selected@[k].name@) && batch_cols(
                        out,
                    )[selected@[k].name@] == batch_cols(*bat)[selected@[k].name@] by {
                        assert(batch_cols(out)[selected@[k].name@] == gcols[k]);
                        assert(gcols[k] == batch_cols(*bat)[selected@[k].name@]);
                    }
                }
            }
            Ok(out)
        },
        Err(e) => Err(e),
    }
}

} // verus!
