use vstd::prelude::*;
use std::sync::Arc;
use crate::batch::{batch2selected, Batch};
use crate::error::SelectError;
use crate::schema::{field_name, sch2selected, wf_descs, ColumnDesc};

verus! {

#[verifier::external_type_specification]
#[verifier::external_body]
pub struct ExWriterProperties(parquet::file::properties::WriterProperties);

/// A pull-based source of batches over one open table file. Each pull
/// decodes at most one batch, so memory stays bounded by a constant number
/// of in-flight batches whatever the file's size.
#[verifier::external_body]
pub struct BatchSource {
    inner: parquet::arrow::arrow_reader::ParquetRecordBatchReader,
}

/// A writer bound to one destination and one target schema. It accepts
/// batches conforming to that schema and, once finished, completes the
/// output file's structure.
#[verifier::external_body]
pub struct BatchSink {
    inner: parquet::arrow::ArrowWriter<Box<dyn std::io::Write + Send>>,
}

/// Relies on `ParquetRecordBatchReaderBuilder::try_new` and its `build`:
/// they parse the input's structural footer and set up decoding; any
/// failure there means the input is not a valid table file.
#[verifier::external_body]
pub fn source_try_new<T: parquet::file::reader::ChunkReader + 'static>(input: T) -> (r: Result<
    BatchSource,
    SelectError,
>)
    ensures
        (r matches Err(e) ==> e is ReaderInit),
{
    match parquet::arrow::arrow_reader::ParquetRecordBatchReaderBuilder::try_new(input) {
        Err(e) => Err(SelectError::ReaderInit(e.to_string())),
        Ok(bldr) => match bldr.build() {
            Ok(inner) => Ok(BatchSource { inner }),
            Err(e) => Err(SelectError::ReaderInit(e.to_string())),
        },
    }
}

/// The schema a source declares: one descriptor per column, in declared
/// order. It is fixed by the file behind the source.
pub uninterp spec fn source_schema(s: BatchSource) -> Seq<ColumnDesc>;

/// Relies on `RecordBatchReader::schema` and `Field::name`: the source
/// file's declared schema as one descriptor per column, in declared order,
/// each carrying the engine's field and that field's own name.
#[verifier::external_body]
pub fn source_descs(src: &BatchSource) -> (r: Vec<ColumnDesc>)
    ensures
        r@ == source_schema(*src),
        wf_descs(r@),
{
    let sch = arrow::record_batch::RecordBatchReader::schema(&src.inner);
    sch.fields().iter().map(
        |f| ColumnDesc { name: f.name().to_string(), field: Arc::clone(f) },
    ).collect()
}

/// How much is left to pull from a source. A table file is finite, so
/// every pull that yields something leaves strictly less behind.
pub uninterp spec fn source_remaining(s: BatchSource) -> nat;

/// Relies on the reader's `Iterator` implementation: `None` means the
/// input is exhausted; a decoding failure is an upstream read error and
/// may repeat on a failing stream; the file being finite, each pull that
/// yields a batch strictly shrinks what remains. What a produced batch
/// holds depends on the file alone, so nothing is promised of it here.
#[verifier::external_body]
pub fn source_next(src: &mut BatchSource) -> (r: Option<Result<Batch, SelectError>>)
    ensures
        (r matches Some(x) ==> (x matches Err(e) ==> e is UpstreamRead)),
        (r matches Some(x) ==> (x is Ok ==> source_remaining(*final(src)) < source_remaining(
            *old(src),
        ))),
{
    match src.inner.next() {
        None => None,
        Some(Ok(b)) => Some(Ok(Batch { inner: b })),
        Some(Err(e)) => Some(Err(SelectError::UpstreamRead(e.to_string()))),
    }
}

/// The column names of the schema a sink was bound to, in order.
pub uninterp spec fn sink_names(s: BatchSink) -> Seq<Seq<char>>;

/// Relies on `ArrowWriter::try_new`: binds a writer to the destination and
/// the schema built from the given descriptors' fields, passing the
/// caller's tuning properties through untouched; the writer's column names
/// are those fields' names, in the descriptors' order.
#[verifier::external_body]
pub fn sink_try_new<W: std::io::Write + Send + 'static>(
    dst: W,
    selected: &Vec<ColumnDesc>,
    props: Option<parquet::file::properties::WriterProperties>,
) -> (r: Result<BatchSink, SelectError>)
    ensures
        (r matches Ok(s) ==> sink_names(s) == selected@.map_values(
            |c: ColumnDesc| field_name(c.field),
        )),
        (r matches Err(e) ==> e is Write),
{
    let fields: Vec<Arc<arrow::datatypes::Field>> =
        selected.iter().map(|d| Arc::clone(&d.field)).collect();
    let schema = Arc::new(arrow::datatypes::Schema::new(fields));
    let boxed: Box<dyn std::io::Write + Send> = Box::new(dst);
    match parquet::arrow::ArrowWriter::try_new(boxed, schema, props) {
        Ok(inner) => Ok(BatchSink { inner }),
        Err(e) => Err(SelectError::Write(e.to_string())),
    }
}

/// Relies on `ArrowWriter::write`: hands one batch to the writer, which
/// rejects it if it does not conform to the writer's schema or if the
/// destination rejects bytes.
#[verifier::external_body]
pub fn sink_write(sink: &mut BatchSink, b: &Batch) -> (r: Result<(), SelectError>)
    ensures
        (r matches Err(e) ==> e is Write),
{
    match sink.inner.write(&b.inner) {
        Ok(()) => Ok(()),
        Err(e) => Err(SelectError::Write(e.to_string())),
    }
}

/// Relies on `ArrowWriter::into_inner` and `Write::flush`: flushes
/// buffered rows, writes the output file's structural footer, and flushes
/// the destination's own buffering; a failure means the file's structure
/// could not be completed.
#[verifier::external_body]
pub fn sink_finish(sink: BatchSink) -> (r: Result<(), SelectError>)
    ensures
        (r matches Err(e) ==> e is Finalize),
{
    match sink.inner.into_inner() {
        Ok(mut w) => w.flush().map_err(|e| SelectError::Finalize(e.to_string())),
        Err(e) => Err(SelectError::Finalize(e.to_string())),
    }
}

/// Drains the source into the sink, one batch at a time: each input batch
/// is re-materialized against the projected schema and written out before
/// the next one is pulled. The first failure of any step ends the run at
/// once: no further batch is pulled and the destination is left
/// incomplete. On success the output file's structure is completed and
/// everything written has been flushed to the destination.
pub fn selected2parquet(
    selected: &Vec<ColumnDesc>,
    src: &mut BatchSource,
    sink: BatchSink,
) -> (r: Result<(), SelectError>)
    ensures
        (r matches Err(e) ==> e is MissingColumn || e is SchemaMismatch || e is UpstreamRead
            || e is Write || e is Finalize),
{
    let mut sink = sink;
    loop
        decreases source_remaining(*src),
    {
        match source_next(src) {
            None => {
                break;
            },
            Some(pulled) => match pulled {
                Err(e) => {
                    return Err(e);
                },
                Ok(bat) => match batch2selected(selected, &bat) {
                    Err(e) => {
                        return Err(e);
                    },
                    Ok(out) => match sink_write(&mut sink, &out) {
                        Err(e) => {
                            return Err(e);
                        },
                        Ok(_) => {},
                    },
                },
            },
        }
    }
    sink_finish(sink)
}

/// The whole projection pipeline over an already-open source and
/// destination: read the source's declared schema, derive the projected
/// schema from the requested column names, bind a writer for it to the
/// destination, stream every batch through the projection, and complete
/// the output file. Fails at the first failing step, with the error kind
/// of that step.
pub fn parquet2selected<W: std::io::Write + Send + 'static>(
    src: &mut BatchSource,
    cols: &Vec<String>,
    props: Option<parquet::file::properties::WriterProperties>,
    dst: W,
) -> (r: Result<(), SelectError>)
    ensures
        (r matches Err(e) ==> e is MissingColumn || e is SchemaMismatch || e is UpstreamRead
            || e is Write || e is Finalize),
{
    let descs = source_descs(src);
    let selected = sch2selected(&descs, cols);
    match sink_try_new(dst, &selected, props) {
        Err(e) => Err(e),
        Ok(sink) => selected2parquet(&selected, src, sink),
    }
}

} // verus!
