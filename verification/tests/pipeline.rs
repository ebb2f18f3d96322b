use std::sync::{Arc, Mutex};

use arrow::array::{Array, ArrayRef, Float64Array, Int64Array, StringArray};
use arrow::datatypes::{DataType, Field, Schema};
use arrow::record_batch::RecordBatch;
use bytes::Bytes;
use parquet::arrow::arrow_reader::ParquetRecordBatchReaderBuilder;
use parquet::arrow::ArrowWriter;
use parquet_select::pipeline::{parquet2selected, source_descs, source_next, source_try_new};
use parquet_select::{batch2selected, sch2selected, ColumnDesc, SelectError};

/// A byte sink that can be inspected after the pipeline consumed it.
#[derive(Clone)]
struct SharedBuf(Arc<Mutex<Vec<u8>>>);

impl std::io::Write for SharedBuf {
    fn write(&mut self, buf: &[u8]) -> std::io::Result<usize> {
        self.0.lock().unwrap().extend_from_slice(buf);
        Ok(buf.len())
    }

    fn flush(&mut self) -> std::io::Result<()> {
        Ok(())
    }
}

fn sample_parquet() -> Vec<u8> {
    let schema = Arc::new(Schema::new(vec![
        Field::new("id", DataType::Int64, false),
        Field::new("name", DataType::Utf8, false),
        Field::new("score", DataType::Float64, false),
    ]));
    let id: ArrayRef = Arc::new(Int64Array::from(vec![1i64, 2, 3]));
    let name: ArrayRef = Arc::new(StringArray::from(vec!["a", "b", "c"]));
    let score: ArrayRef = Arc::new(Float64Array::from(vec![1.5f64, 2.5, 3.5]));
    let batch = RecordBatch::try_new(schema.clone(), vec![id, name, score]).unwrap();
    let mut buf: Vec<u8> = Vec::new();
    let mut w = ArrowWriter::try_new(&mut buf, schema, None).unwrap();
    w.write(&batch).unwrap();
    w.close().unwrap();
    buf
}

fn run_pipeline(input: Vec<u8>, cols: &[&str]) -> Result<Vec<u8>, SelectError> {
    let mut src = source_try_new(Bytes::from(input)).unwrap();
    let names: Vec<String> = cols.iter().map(|s| s.to_string()).collect();
    let out = SharedBuf(Arc::new(Mutex::new(Vec::new())));
    parquet2selected(&mut src, &names, None, out.clone())?;
    let bytes = out.0.lock().unwrap().clone();
    Ok(bytes)
}

fn read_all(bytes: Vec<u8>) -> (Arc<Schema>, Vec<RecordBatch>) {
    let rdr = ParquetRecordBatchReaderBuilder::try_new(Bytes::from(bytes))
        .unwrap()
        .build()
        .unwrap();
    let schema = arrow::record_batch::RecordBatchReader::schema(&rdr);
    let batches: Vec<RecordBatch> = rdr.map(|b| b.unwrap()).collect();
    (schema, batches)
}

#[test]
fn selects_id_and_score_end_to_end() {
    let out = run_pipeline(sample_parquet(), &["id", "score"]).unwrap();
    let (schema, batches) = read_all(out);
    assert_eq!(schema.fields().len(), 2);
    assert_eq!(schema.field(0).name(), "id");
    assert_eq!(schema.field(0).data_type(), &DataType::Int64);
    assert_eq!(schema.field(1).name(), "score");
    assert_eq!(schema.field(1).data_type(), &DataType::Float64);
    assert!(schema.column_with_name("name").is_none());
    let rows: usize = batches.iter().map(|b| b.num_rows()).sum();
    assert_eq!(rows, 3);
    let b = &batches[0];
    let id = b
        .column_by_name("id")
        .unwrap()
        .as_any()
        .downcast_ref::<Int64Array>()
        .unwrap();
    assert_eq!(id.values(), &[1, 2, 3]);
    let score = b
        .column_by_name("score")
        .unwrap()
        .as_any()
        .downcast_ref::<Float64Array>()
        .unwrap();
    assert_eq!(score.values(), &[1.5, 2.5, 3.5]);
}

#[test]
fn unknown_requested_name_is_dropped_not_an_error() {
    let out = run_pipeline(sample_parquet(), &["id", "ghost"]).unwrap();
    let (schema, batches) = read_all(out);
    assert_eq!(schema.fields().len(), 1);
    assert_eq!(schema.field(0).name(), "id");
    assert_eq!(batches[0].num_rows(), 3);
}

#[test]
fn output_reopens_as_complete_table_file() {
    let out = run_pipeline(sample_parquet(), &["id", "name", "score"]).unwrap();
    let (schema, batches) = read_all(out);
    assert_eq!(schema.fields().len(), 3);
    let rows: usize = batches.iter().map(|b| b.num_rows()).sum();
    assert_eq!(rows, 3);
    let name = batches[0]
        .column_by_name("name")
        .unwrap()
        .as_any()
        .downcast_ref::<StringArray>()
        .unwrap();
    assert_eq!(name.value(0), "a");
    assert_eq!(name.value(2), "c");
}

#[test]
fn empty_selection_fails_when_batches_flow() {
    let r = run_pipeline(sample_parquet(), &[]);
    assert!(matches!(r, Err(SelectError::SchemaMismatch(_))));
}

#[test]
fn missing_projected_column_aborts_the_batch() {
    let mut src = source_try_new(Bytes::from(sample_parquet())).unwrap();
    let descs = source_descs(&src);
    let names = vec!["id".to_string()];
    let mut selected = sch2selected(&descs, &names);
    selected.push(ColumnDesc {
        name: "ghost".to_string(),
        field: Arc::new(Field::new("ghost", DataType::Int64, false)),
    });
    let batch = source_next(&mut src).unwrap().unwrap();
    let r = batch2selected(&selected, &batch);
    match r {
        Err(SelectError::MissingColumn(n)) => assert_eq!(n, "ghost"),
        Err(other) => panic!("expected a missing-column failure, got {:?}", other),
        Ok(_) => panic!("expected a missing-column failure, got a batch"),
    }
}

#[test]
fn mismatched_descriptor_type_is_schema_mismatch() {
    let mut src = source_try_new(Bytes::from(sample_parquet())).unwrap();
    let selected = vec![ColumnDesc {
        name: "id".to_string(),
        field: Arc::new(Field::new("id", DataType::Utf8, false)),
    }];
    let batch = source_next(&mut src).unwrap().unwrap();
    let r = batch2selected(&selected, &batch);
    assert!(matches!(r, Err(SelectError::SchemaMismatch(_))));
}

#[test]
fn projected_batch_keeps_rows_and_values() {
    let mut src = source_try_new(Bytes::from(sample_parquet())).unwrap();
    let descs = source_descs(&src);
    let names = vec!["score".to_string()];
    let selected = sch2selected(&descs, &names);
    let batch = source_next(&mut src).unwrap().unwrap();
    let out = batch2selected(&selected, &batch).unwrap();
    let sink_buf = SharedBuf(Arc::new(Mutex::new(Vec::new())));
    let mut sink =
        parquet_select::pipeline::sink_try_new(sink_buf.clone(), &selected, None).unwrap();
    parquet_select::pipeline::sink_write(&mut sink, &out).unwrap();
    parquet_select::pipeline::sink_finish(sink).unwrap();
    let bytes = sink_buf.0.lock().unwrap().clone();
    let (schema, batches) = read_all(bytes);
    assert_eq!(schema.fields().len(), 1);
    assert_eq!(batches[0].num_rows(), 3);
    let score = batches[0]
        .column_by_name("score")
        .unwrap()
        .as_any()
        .downcast_ref::<Float64Array>()
        .unwrap();
    assert_eq!(score.values(), &[1.5, 2.5, 3.5]);
}

#[test]
fn garbage_input_is_a_reader_init_error() {
    let r = source_try_new(Bytes::from(vec![0u8, 1, 2, 3]));
    assert!(matches!(r, Err(SelectError::ReaderInit(_))));
}
