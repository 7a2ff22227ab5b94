//! Column buffers, kept in Arrow's array builders.
//!
//! Verus does not look inside a builder. What one holds is given a name, and
//! each call into Arrow is a small function whose contract says, over those
//! names, what the call does. Those contracts are taken on trust; everything
//! built on them is proved.

use crate::record::RecordView;
use crate::schema::{column_views, ColumnKind, ColumnSpec, ColumnView};
use vstd::prelude::*;
use vstd::utf8::encode_utf8;

verus! {

/// The most bytes that the values of one text buffer may take together: Arrow
/// addresses them with 32-bit signed offsets.
pub const TEXT_BYTE_LIMIT: usize = 0x7fff_ffff;

/// The number of bytes that `values` take together in UTF-8.
pub open spec fn utf8_total(values: Seq<Seq<char>>) -> nat
    decreases values.len(),
{
    if values.len() == 0 {
        0
    } else {
        utf8_total(values.drop_last()) + encode_utf8(values.last()).len()
    }
}

/// A buffer of text values: an Arrow `StringBuilder`.
#[verifier::external_body]
pub struct TextColumn {
    inner: arrow::array::StringBuilder,
}

/// A buffer of unsigned 64-bit values: an Arrow `UInt64Builder`.
#[verifier::external_body]
pub struct UnsignedColumn {
    inner: arrow::array::UInt64Builder,
}

/// A buffer of millisecond timestamps: an Arrow `TimestampMillisecondBuilder`.
#[verifier::external_body]
pub struct MillisColumn {
    inner: arrow::array::TimestampMillisecondBuilder,
}

/// A finished text column: an Arrow `StringArray`.
#[verifier::external_body]
pub struct FrozenText {
    inner: arrow::array::StringArray,
}

/// A finished column of unsigned values: an Arrow `UInt64Array`.
#[verifier::external_body]
pub struct FrozenUnsigned {
    inner: arrow::array::UInt64Array,
}

/// A finished column of timestamps: an Arrow `TimestampMillisecondArray`.
#[verifier::external_body]
pub struct FrozenMillis {
    inner: arrow::array::TimestampMillisecondArray,
}

/// Arrow's `Schema`, carried through without a look inside.
#[verifier::external_type_specification]
#[verifier::external_body]
pub struct ExSchema(arrow::datatypes::Schema);

/// A finished batch of rows: an Arrow `RecordBatch`, which `inner` hands to
/// whoever writes it out.
#[verifier::external_body]
pub struct Batch {
    pub inner: arrow::record_batch::RecordBatch,
}

/// Arrow's `ArrowError`, carried through without a look inside.
#[verifier::external_type_specification]
#[verifier::external_body]
pub struct ExArrowError(arrow::error::ArrowError);

/// The values in a text buffer, oldest first.
pub uninterp spec fn text_values(column: TextColumn) -> Seq<Seq<char>>;

/// The values in a buffer of unsigned numbers, oldest first.
pub uninterp spec fn unsigned_values(column: UnsignedColumn) -> Seq<u64>;

/// The values in a buffer of timestamps, oldest first.
pub uninterp spec fn millis_values(column: MillisColumn) -> Seq<i64>;

/// The values of a finished text column, top to bottom.
pub uninterp spec fn frozen_text_values(column: FrozenText) -> Seq<Seq<char>>;

/// The values of a finished column of unsigned numbers, top to bottom.
pub uninterp spec fn frozen_unsigned_values(column: FrozenUnsigned) -> Seq<u64>;

/// The values of a finished column of timestamps, top to bottom.
pub uninterp spec fn frozen_millis_values(column: FrozenMillis) -> Seq<i64>;

/// The columns that a schema declares, left to right, where each of them is
/// of one of the three kinds.
pub uninterp spec fn schema_columns(schema: arrow::datatypes::Schema) -> Seq<ColumnView>;

/// The rows of a record batch, top to bottom.
pub uninterp spec fn batch_rows(batch: Batch) -> Seq<RecordView>;

/// The rows that five columns of equal length make, side by side.
pub open spec fn rows_of(
    bucket: Seq<Seq<char>>,
    key: Seq<Seq<char>>,
    file_name: Seq<Seq<char>>,
    size: Seq<u64>,
    last_modified: Seq<i64>,
) -> Seq<RecordView> {
    Seq::new(
        key.len(),
        |i: int|
            RecordView {
                bucket: bucket[i],
                key: key[i],
                file_name: file_name[i],
                size: size[i],
                last_modified: last_modified[i],
            },
    )
}

/// Calls `StringBuilder::new`: a builder that holds no value.
#[verifier::external_body]
pub(crate) fn text_new() -> (column: TextColumn)
    ensures
        text_values(column) == Seq::<Seq<char>>::empty(),
{
    TextColumn { inner: arrow::array::StringBuilder::new() }
}

/// Calls `StringBuilder::append_value`, which adds `value` behind the values
/// that the builder holds. Arrow panics once the bytes held pass what a 32-bit
/// signed offset can address, so such a call is left out.
#[verifier::external_body]
pub(crate) fn text_append(column: &mut TextColumn, value: &str)
    requires
        utf8_total(text_values(*old(column))) + encode_utf8(value@).len() <= TEXT_BYTE_LIMIT,
    ensures
        text_values(*final(column)) == text_values(*old(column)).push(value@),
{
    column.inner.append_value(value);
}

/// Calls `ArrayBuilder::len` on a `StringBuilder`: the number of values that
/// the builder holds.
#[verifier::external_body]
pub(crate) fn text_len(column: &TextColumn) -> (n: usize)
    ensures
        n == text_values(*column).len(),
{
    arrow::array::ArrayBuilder::len(&column.inner)
}

/// Calls `StringBuilder::finish`, which hands out the values held as an array
/// and leaves the builder empty.
#[verifier::external_body]
pub(crate) fn text_finish(column: &mut TextColumn) -> (frozen: FrozenText)
    ensures
        frozen_text_values(frozen) == text_values(*old(column)),
        text_values(*final(column)) == Seq::<Seq<char>>::empty(),
{
    FrozenText { inner: column.inner.finish() }
}

/// Calls `UInt64Builder::new`: a builder that holds no value.
#[verifier::external_body]
pub(crate) fn unsigned_new() -> (column: UnsignedColumn)
    ensures
        unsigned_values(column) == Seq::<u64>::empty(),
{
    UnsignedColumn { inner: arrow::array::UInt64Builder::new() }
}

/// Calls `UInt64Builder::append_value`, which adds `value` behind the values
/// that the builder holds.
#[verifier::external_body]
pub(crate) fn unsigned_append(column: &mut UnsignedColumn, value: u64)
    ensures
        unsigned_values(*final(column)) == unsigned_values(*old(column)).push(value),
{
    column.inner.append_value(value);
}

/// Calls `UInt64Builder::finish`, which hands out the values held as an array
/// and leaves the builder empty.
#[verifier::external_body]
pub(crate) fn unsigned_finish(column: &mut UnsignedColumn) -> (frozen: FrozenUnsigned)
    ensures
        frozen_unsigned_values(frozen) == unsigned_values(*old(column)),
        unsigned_values(*final(column)) == Seq::<u64>::empty(),
{
    FrozenUnsigned { inner: column.inner.finish() }
}

/// Calls `TimestampMillisecondBuilder::new`: a builder that holds no value.
#[verifier::external_body]
pub(crate) fn millis_new() -> (column: MillisColumn)
    ensures
        millis_values(column) == Seq::<i64>::empty(),
{
    MillisColumn { inner: arrow::array::TimestampMillisecondBuilder::new() }
}

/// Calls `TimestampMillisecondBuilder::append_value`, which adds `value`
/// behind the values that the builder holds.
#[verifier::external_body]
pub(crate) fn millis_append(column: &mut MillisColumn, value: i64)
    ensures
        millis_values(*final(column)) == millis_values(*old(column)).push(value),
{
    column.inner.append_value(value);
}

/// Calls `TimestampMillisecondBuilder::finish`, which hands out the values
/// held as an array and leaves the builder empty.
#[verifier::external_body]
pub(crate) fn millis_finish(column: &mut MillisColumn) -> (frozen: FrozenMillis)
    ensures
        frozen_millis_values(frozen) == millis_values(*old(column)),
        millis_values(*final(column)) == Seq::<i64>::empty(),
{
    FrozenMillis { inner: column.inner.finish() }
}

/// Calls `Schema::new` on one `Field::new` per column, in order: text as
/// `Utf8`, unsigned as `UInt64`, timestamps as milliseconds with no time zone.
#[verifier::external_body]
pub(crate) fn schema_new(columns: &Vec<ColumnSpec>) -> (schema: arrow::datatypes::Schema)
    ensures
        schema_columns(schema) == column_views(columns@),
{
    let mut fields: Vec<arrow::datatypes::Field> = Vec::new();
    for c in columns.iter() {
        let data_type = match c.kind {
            ColumnKind::Text => arrow::datatypes::DataType::Utf8,
            ColumnKind::Unsigned => arrow::datatypes::DataType::UInt64,
            ColumnKind::Millis => arrow::datatypes::DataType::Timestamp(
                arrow::datatypes::TimeUnit::Millisecond,
                None,
            ),
        };
        fields.push(arrow::datatypes::Field::new(c.name.as_str(), data_type, c.nullable));
    }
    arrow::datatypes::Schema::new(fields)
}

/// The kinds of `layout`'s columns are those of three text columns, one of
/// unsigned numbers and one of timestamps, in that order.
pub open spec fn fits_columns(layout: Seq<ColumnView>) -> bool {
    &&& layout.len() == 5
    &&& layout[0].kind == ColumnKind::Text
    &&& layout[1].kind == ColumnKind::Text
    &&& layout[2].kind == ColumnKind::Text
    &&& layout[3].kind == ColumnKind::Unsigned
    &&& layout[4].kind == ColumnKind::Millis
}

/// Calls `RecordBatch::try_new` on `schema` and the five columns, left to
/// right. Arrow checks that there is one column per field of the schema, that
/// a column declared non-nullable holds no null (none of these does: they are
/// filled by `append_value` alone), that the columns are equally long, and
/// that each column's type is its field's; it accepts whatever passes, and the
/// batch then holds the columns as given.
#[verifier::external_body]
pub(crate) fn batch_new(
    schema: &arrow::datatypes::Schema,
    bucket: FrozenText,
    key: FrozenText,
    file_name: FrozenText,
    size: FrozenUnsigned,
    last_modified: FrozenMillis,
) -> (r: Result<Batch, arrow::error::ArrowError>)
    ensures
        r is Ok ==> batch_rows(r->Ok_0) == rows_of(
            frozen_text_values(bucket),
            frozen_text_values(key),
            frozen_text_values(file_name),
            frozen_unsigned_values(size),
            frozen_millis_values(last_modified),
        ),
        fits_columns(schema_columns(*schema)) && frozen_text_values(bucket).len()
            == frozen_text_values(key).len() && frozen_text_values(file_name).len()
            == frozen_text_values(key).len() && frozen_unsigned_values(size).len()
            == frozen_text_values(key).len() && frozen_millis_values(last_modified).len()
            == frozen_text_values(key).len() ==> r is Ok,
{
    let made = arrow::record_batch::RecordBatch::try_new(
        std::sync::Arc::new(schema.clone()),
        vec![
            std::sync::Arc::new(bucket.inner),
            std::sync::Arc::new(key.inner),
            std::sync::Arc::new(file_name.inner),
            std::sync::Arc::new(size.inner),
            std::sync::Arc::new(last_modified.inner),
        ],
    );
    match made {
        Ok(inner) => Ok(Batch { inner }),
        Err(e) => Err(e),
    }
}

} // verus!
