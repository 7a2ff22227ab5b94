use arrow::array::{Array, StringArray, TimestampMillisecondArray, UInt64Array};
use arrow::datatypes::{DataType, TimeUnit};
use s3_manifest::accumulator::{batch_outcome, Accumulator};
use s3_manifest::batching::BATCH_CAPACITY;
use s3_manifest::columns::Batch;
use s3_manifest::error::ManifestError;
use s3_manifest::record::ManifestRecord;
use s3_manifest::schema::{manifest_columns, manifest_schema, required_column, ColumnKind};

fn record(key: &str, size: u64, last_modified: i64) -> ManifestRecord {
    ManifestRecord {
        bucket: String::from("b"),
        key: String::from(key),
        file_name: String::from(key.rsplit('/').next().unwrap_or(key)),
        size,
        last_modified,
    }
}

fn rows(batch: &Batch) -> Vec<(String, String, String, u64, i64)> {
    let inner = &batch.inner;
    let bucket = inner.column(0).as_any().downcast_ref::<StringArray>().unwrap();
    let key = inner.column(1).as_any().downcast_ref::<StringArray>().unwrap();
    let name = inner.column(2).as_any().downcast_ref::<StringArray>().unwrap();
    let size = inner.column(3).as_any().downcast_ref::<UInt64Array>().unwrap();
    let modified = inner.column(4).as_any().downcast_ref::<TimestampMillisecondArray>().unwrap();
    let mut out = Vec::new();
    for i in 0..inner.num_rows() {
        out.push((
            String::from(bucket.value(i)),
            String::from(key.value(i)),
            String::from(name.value(i)),
            size.value(i),
            modified.value(i),
        ));
    }
    out
}

#[test]
fn schema_has_the_five_columns() {
    let schema = manifest_schema();
    let fields = schema.fields();
    assert_eq!(fields.len(), 5);
    let names: Vec<&str> = fields.iter().map(|f| f.name().as_str()).collect();
    assert_eq!(names, vec!["Bucket", "Key", "FileName", "Size", "LastModified"]);
    assert_eq!(fields[0].data_type(), &DataType::Utf8);
    assert_eq!(fields[1].data_type(), &DataType::Utf8);
    assert_eq!(fields[2].data_type(), &DataType::Utf8);
    assert_eq!(fields[3].data_type(), &DataType::UInt64);
    assert_eq!(fields[4].data_type(), &DataType::Timestamp(TimeUnit::Millisecond, None));
    assert!(fields.iter().all(|f| !f.is_nullable()));
}

#[test]
fn manifest_columns_are_named_and_typed() {
    let columns = manifest_columns();
    assert_eq!(columns.len(), 5);
    assert_eq!(columns[0].name, "Bucket");
    assert_eq!(columns[1].name, "Key");
    assert_eq!(columns[2].name, "FileName");
    assert_eq!(columns[3].name, "Size");
    assert_eq!(columns[4].name, "LastModified");
    assert_eq!(columns[0].kind, ColumnKind::Text);
    assert_eq!(columns[1].kind, ColumnKind::Text);
    assert_eq!(columns[2].kind, ColumnKind::Text);
    assert_eq!(columns[3].kind, ColumnKind::Unsigned);
    assert_eq!(columns[4].kind, ColumnKind::Millis);
    assert!(columns.iter().all(|c| !c.nullable));
}

#[test]
fn required_column_admits_no_null() {
    let column = required_column("Size", ColumnKind::Unsigned);
    assert_eq!(column.name, "Size");
    assert_eq!(column.kind, ColumnKind::Unsigned);
    assert!(!column.nullable);
}

#[test]
fn new_accumulator_is_empty() {
    let acc = Accumulator::new();
    assert_eq!(acc.len(), 0);
    assert!(!acc.should_flush());
}

#[test]
fn append_adds_one_record_to_every_column() {
    let mut acc = Accumulator::new();
    assert_eq!(acc.append(&record("logs/a.log", 10, 1704067200000)), Ok(()));
    assert_eq!(acc.len(), 1);
    assert_eq!(acc.append(&record("logs/b.log", 20, 0)), Ok(()));
    assert_eq!(acc.len(), 2);
    let batch = acc.drain_batch(&manifest_schema()).unwrap();
    assert_eq!(batch.inner.num_columns(), 5);
    for column in batch.inner.columns() {
        assert_eq!(column.len(), 2);
        assert_eq!(column.null_count(), 0);
    }
    assert_eq!(
        rows(&batch),
        vec![
            (
                String::from("b"),
                String::from("logs/a.log"),
                String::from("a.log"),
                10,
                1704067200000
            ),
            (String::from("b"), String::from("logs/b.log"), String::from("b.log"), 20, 0),
        ]
    );
}

#[test]
fn drain_resets_the_buffers() {
    let mut acc = Accumulator::new();
    let schema = manifest_schema();
    acc.append(&record("first", 1, 1)).unwrap();
    let first = acc.drain_batch(&schema).unwrap();
    assert_eq!(first.inner.num_rows(), 1);
    assert_eq!(acc.len(), 0);
    acc.append(&record("second", 2, 2)).unwrap();
    let second = acc.drain_batch(&schema).unwrap();
    assert_eq!(
        rows(&second),
        vec![(String::from("b"), String::from("second"), String::from("second"), 2, 2)]
    );
}

#[test]
fn drain_of_nothing_is_an_empty_batch() {
    let mut acc = Accumulator::new();
    let batch = acc.drain_batch(&manifest_schema()).unwrap();
    assert_eq!(batch.inner.num_rows(), 0);
    assert_eq!(batch.inner.num_columns(), 5);
}

#[test]
fn batch_carries_the_schema() {
    let mut acc = Accumulator::new();
    let schema = manifest_schema();
    acc.append(&record("k", 1, 1)).unwrap();
    let batch = acc.drain_batch(&schema).unwrap();
    assert_eq!(batch.inner.schema().as_ref(), &schema);
}

#[test]
fn should_flush_at_capacity() {
    assert_eq!(BATCH_CAPACITY, 1000);
    let mut acc = Accumulator::new();
    for i in 0..999u64 {
        acc.append(&record("k", i, 0)).unwrap();
        assert!(!acc.should_flush());
    }
    acc.append(&record("k", 999, 0)).unwrap();
    assert!(acc.should_flush());
    assert_eq!(acc.len(), 1000);
    acc.append(&record("k", 1000, 0)).unwrap();
    assert!(acc.should_flush());
    let batch = acc.drain_batch(&manifest_schema()).unwrap();
    assert_eq!(batch.inner.num_rows(), 1001);
    assert!(!acc.should_flush());
}

#[test]
fn append_refuses_text_past_the_column_limit() {
    let mut acc = Accumulator::new();
    acc.append(&record("kept", 1, 1)).unwrap();
    let huge = ManifestRecord {
        bucket: String::from("b"),
        key: "k".repeat(0x7fff_fffc),
        file_name: String::new(),
        size: 0,
        last_modified: 0,
    };
    assert_eq!(acc.append(&huge), Err(ManifestError::ColumnFull));
    assert_eq!(acc.len(), 1);
    let batch = acc.drain_batch(&manifest_schema()).unwrap();
    assert_eq!(
        rows(&batch),
        vec![(String::from("b"), String::from("kept"), String::from("kept"), 1, 1)]
    );
}

#[test]
fn batch_outcome_maps_a_refusal() {
    let refused = batch_outcome(Err(arrow::error::ArrowError::InvalidArgumentError(
        String::from("refused"),
    )));
    assert!(matches!(refused, Err(ManifestError::BatchRejected)));
    let mut acc = Accumulator::new();
    acc.append(&record("k", 1, 1)).unwrap();
    let batch = acc.drain_batch(&manifest_schema()).unwrap();
    let kept = batch_outcome(Ok(batch)).unwrap();
    assert_eq!(kept.inner.num_rows(), 1);
}

#[test]
fn drain_under_a_foreign_schema_is_refused() {
    let foreign = arrow::datatypes::Schema::new(vec![arrow::datatypes::Field::new(
        "Only",
        DataType::Utf8,
        false,
    )]);
    let mut acc = Accumulator::new();
    acc.append(&record("k", 1, 1)).unwrap();
    assert!(matches!(acc.drain_batch(&foreign), Err(ManifestError::BatchRejected)));
    assert_eq!(acc.len(), 0);
}
