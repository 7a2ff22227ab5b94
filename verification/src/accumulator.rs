//! The record accumulator: five column buffers that grow together, one record
//! at a time, until they are frozen into a batch.

use crate::columns::{
    batch_new, batch_rows, fits_columns, millis_append, millis_finish, millis_new, millis_values,
    rows_of, schema_columns, text_append, text_finish, text_len, text_new, text_values,
    unsigned_append, unsigned_finish, unsigned_new, unsigned_values, utf8_total, Batch,
    MillisColumn, TextColumn, UnsignedColumn, TEXT_BYTE_LIMIT,
};
use crate::batching::{
    bucket_column, file_name_column, has_room, key_column, BATCH_CAPACITY,
};
use crate::error::ManifestError;
use crate::record::{ManifestRecord, RecordView};
use vstd::prelude::*;

verus! {

/// Five parallel column buffers and the bytes that the text ones hold.
pub struct Accumulator {
    bucket: TextColumn,
    key: TextColumn,
    file_name: TextColumn,
    size: UnsignedColumn,
    last_modified: MillisColumn,
    bucket_bytes: usize,
    key_bytes: usize,
    file_name_bytes: usize,
}

impl View for Accumulator {
    type V = Seq<RecordView>;

    /// The buffered records, oldest first.
    closed spec fn view(&self) -> Seq<RecordView> {
        rows_of(
            text_values(self.bucket),
            text_values(self.key),
            text_values(self.file_name),
            unsigned_values(self.size),
            millis_values(self.last_modified),
        )
    }
}

/// What a batch holds or, where the columnar library refused to make one, the
/// error that says so.
pub fn batch_outcome(made: Result<Batch, arrow::error::ArrowError>) -> (r: Result<
    Batch,
    ManifestError,
>)
    ensures
        match made {
            Ok(batch) => r == Ok::<Batch, ManifestError>(batch),
            Err(_) => r == Err::<Batch, ManifestError>(ManifestError::BatchRejected),
        },
{
    match made {
        Ok(batch) => Ok(batch),
        Err(_) => Err(ManifestError::BatchRejected),
    }
}

impl Accumulator {
    /// The five buffers are equally long, and the byte counts are those of
    /// the text buffers, each within the limit of a column.
    pub closed spec fn well_formed(&self) -> bool {
        &&& text_values(self.bucket).len() == text_values(self.key).len()
        &&& text_values(self.file_name).len() == text_values(self.key).len()
        &&& unsigned_values(self.size).len() == text_values(self.key).len()
        &&& millis_values(self.last_modified).len() == text_values(self.key).len()
        &&& self.bucket_bytes == utf8_total(text_values(self.bucket))
        &&& self.key_bytes == utf8_total(text_values(self.key))
        &&& self.file_name_bytes == utf8_total(text_values(self.file_name))
        &&& self.bucket_bytes <= TEXT_BYTE_LIMIT
        &&& self.key_bytes <= TEXT_BYTE_LIMIT
        &&& self.file_name_bytes <= TEXT_BYTE_LIMIT
    }

    /// The columns of the view are the buffers themselves.
    proof fn lemma_columns(&self)
        requires
            self.well_formed(),
        ensures
            bucket_column(self@) == text_values(self.bucket),
            key_column(self@) == text_values(self.key),
            file_name_column(self@) == text_values(self.file_name),
            self@.len() == text_values(self.key).len(),
    {
        assert(bucket_column(self@) =~= text_values(self.bucket));
        assert(key_column(self@) =~= text_values(self.key));
        assert(file_name_column(self@) =~= text_values(self.file_name));
    }

    /// An accumulator that holds no record.
    pub fn new() -> (acc: Accumulator)
        ensures
            acc.well_formed(),
            acc@ == Seq::<RecordView>::empty(),
    {
        let acc = Accumulator {
            bucket: text_new(),
            key: text_new(),
            file_name: text_new(),
            size: unsigned_new(),
            last_modified: millis_new(),
            bucket_bytes: 0,
            key_bytes: 0,
            file_name_bytes: 0,
        };
        assert(acc@ =~= Seq::<RecordView>::empty());
        acc
    }

    /// The number of buffered records.
    pub fn len(&self) -> (n: usize)
        ensures
            n == self@.len(),
    {
        text_len(&self.key)
    }

    /// Whether the buffers have reached the size of a batch.
    pub fn should_flush(&self) -> (due: bool)
        ensures
            due == (self@.len() >= BATCH_CAPACITY),
    {
        text_len(&self.key) >= BATCH_CAPACITY
    }

    /// Appends `record` to all five buffers, or to none: a record whose text
    /// would take a column past its byte limit is refused.
    pub fn append(&mut self, record: &ManifestRecord) -> (r: Result<(), ManifestError>)
        requires
            old(self).well_formed(),
        ensures
            final(self).well_formed(),
            has_room(old(self)@, record@) ==> r == Ok::<(), ManifestError>(()) && final(self)@
                == old(self)@.push(record@),
            !has_room(old(self)@, record@) ==> r == Err::<(), ManifestError>(
                ManifestError::ColumnFull,
            ) && final(self)@ == old(self)@,
    {
        proof {
            self.lemma_columns();
        }
        let bucket_len: usize = record.bucket.as_str().as_bytes().len();
        let key_len: usize = record.key.as_str().as_bytes().len();
        let file_name_len: usize = record.file_name.as_str().as_bytes().len();
        if bucket_len > TEXT_BYTE_LIMIT - self.bucket_bytes || key_len > TEXT_BYTE_LIMIT
            - self.key_bytes || file_name_len > TEXT_BYTE_LIMIT - self.file_name_bytes {
            return Err(ManifestError::ColumnFull);
        }
        text_append(&mut self.bucket, record.bucket.as_str());
        text_append(&mut self.key, record.key.as_str());
        text_append(&mut self.file_name, record.file_name.as_str());
        unsigned_append(&mut self.size, record.size);
        millis_append(&mut self.last_modified, record.last_modified);
        self.bucket_bytes = self.bucket_bytes + bucket_len;
        self.key_bytes = self.key_bytes + key_len;
        self.file_name_bytes = self.file_name_bytes + file_name_len;
        proof {
            assert(text_values(self.bucket).drop_last() =~= text_values(old(self).bucket));
            assert(text_values(self.key).drop_last() =~= text_values(old(self).key));
            assert(text_values(self.file_name).drop_last() =~= text_values(old(self).file_name));
            assert(self@ =~= old(self)@.push(record@));
        }
        Ok(())
    }

    /// Freezes the buffered records into a batch laid out by `schema`, and
    /// leaves the buffers empty. Under a schema whose columns are of the
    /// manifest's kinds a batch is always made.
    pub fn drain_batch(&mut self, schema: &arrow::datatypes::Schema) -> (r: Result<
        Batch,
        ManifestError,
    >)
        requires
            old(self).well_formed(),
        ensures
            final(self).well_formed(),
            final(self)@ == Seq::<RecordView>::empty(),
            r is Ok ==> batch_rows(r->Ok_0) == old(self)@,
            r is Err ==> r->Err_0 == ManifestError::BatchRejected,
            fits_columns(schema_columns(*schema)) ==> r is Ok,
    {
        let bucket = text_finish(&mut self.bucket);
        let key = text_finish(&mut self.key);
        let file_name = text_finish(&mut self.file_name);
        let size = unsigned_finish(&mut self.size);
        let last_modified = millis_finish(&mut self.last_modified);
        self.bucket_bytes = 0;
        self.key_bytes = 0;
        self.file_name_bytes = 0;
        assert(self@ =~= Seq::<RecordView>::empty());
        batch_outcome(batch_new(schema, bucket, key, file_name, size, last_modified))
    }
}

} // verus!
