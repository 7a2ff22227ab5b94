//! How a run of records is cut into batches.
//!
//! Records leave the accumulator in batches of [`BATCH_CAPACITY`], in the
//! order in which they came, and what is left when the listing ends makes a
//! last, shorter batch.

use crate::columns::{utf8_total, TEXT_BYTE_LIMIT};
use crate::record::RecordView;
use vstd::prelude::*;
use vstd::utf8::encode_utf8;

verus! {

/// The number of records at which the buffers are due to be written out.
pub const BATCH_CAPACITY: usize = 1000;

/// The bucket names of `rows`, in order.
pub open spec fn bucket_column(rows: Seq<RecordView>) -> Seq<Seq<char>> {
    Seq::new(rows.len(), |i: int| rows[i].bucket)
}

/// The keys of `rows`, in order.
pub open spec fn key_column(rows: Seq<RecordView>) -> Seq<Seq<char>> {
    Seq::new(rows.len(), |i: int| rows[i].key)
}

/// The file names of `rows`, in order.
pub open spec fn file_name_column(rows: Seq<RecordView>) -> Seq<Seq<char>> {
    Seq::new(rows.len(), |i: int| rows[i].file_name)
}

/// Each text column of `rows` can take the matching text of `record` without
/// passing the byte limit of a column.
pub open spec fn has_room(rows: Seq<RecordView>, record: RecordView) -> bool {
    &&& utf8_total(bucket_column(rows)) + encode_utf8(record.bucket).len() <= TEXT_BYTE_LIMIT
    &&& utf8_total(key_column(rows)) + encode_utf8(record.key).len() <= TEXT_BYTE_LIMIT
    &&& utf8_total(file_name_column(rows)) + encode_utf8(record.file_name).len()
        <= TEXT_BYTE_LIMIT
}

/// The number of batches that `n` records make: `n / 1000`, rounded up.
pub open spec fn batch_count(n: nat) -> nat {
    ((n + BATCH_CAPACITY - 1) / (BATCH_CAPACITY as int)) as nat
}

/// The batch of index `i` among those of `rows`.
pub open spec fn batch_at(rows: Seq<RecordView>, i: int) -> Seq<RecordView> {
    let from = i * BATCH_CAPACITY;
    let to = if from + BATCH_CAPACITY <= rows.len() {
        from + BATCH_CAPACITY
    } else {
        rows.len() as int
    };
    rows.subrange(from, to)
}

/// The batches that `rows` make, in the order written.
pub open spec fn batches_of(rows: Seq<RecordView>) -> Seq<Seq<RecordView>> {
    Seq::new(batch_count(rows.len()), |i: int| batch_at(rows, i))
}

/// The batches that `rows` have filled so far.
pub open spec fn full_batches(rows: Seq<RecordView>) -> Seq<Seq<RecordView>> {
    Seq::new((rows.len() / BATCH_CAPACITY as nat) as nat, |i: int| batch_at(rows, i))
}

/// The records of `rows` behind its full batches.
pub open spec fn pending(rows: Seq<RecordView>) -> Seq<RecordView> {
    rows.skip((rows.len() / BATCH_CAPACITY as nat) * BATCH_CAPACITY)
}

/// The text of `rows` stays within the byte limit of a column, column by
/// column.
pub open spec fn within_limit(rows: Seq<RecordView>) -> bool {
    &&& utf8_total(bucket_column(rows)) <= TEXT_BYTE_LIMIT
    &&& utf8_total(key_column(rows)) <= TEXT_BYTE_LIMIT
    &&& utf8_total(file_name_column(rows)) <= TEXT_BYTE_LIMIT
}

/// Every batch of `rows` stays within the byte limit of a column.
pub open spec fn fits(rows: Seq<RecordView>) -> bool {
    forall|i: int| 0 <= i < batch_count(rows.len()) ==> within_limit(#[trigger] batch_at(rows, i))
}

/// The bytes of a prefix are no more than those of the whole.
pub proof fn lemma_utf8_total_prefix(values: Seq<Seq<char>>, n: int)
    requires
        0 <= n <= values.len(),
    ensures
        utf8_total(values.take(n)) <= utf8_total(values),
    decreases values.len() - n,
{
    if n == values.len() {
        assert(values.take(n) =~= values);
    } else {
        assert(values.drop_last().take(n) =~= values.take(n));
        lemma_utf8_total_prefix(values.drop_last(), n);
    }
}

/// A record has room behind `rows` exactly where the rows with the record
/// behind them stay within the limit.
pub proof fn lemma_room_is_limit(rows: Seq<RecordView>, record: RecordView)
    ensures
        has_room(rows, record) == within_limit(rows.push(record)),
{
    let longer = rows.push(record);
    assert(bucket_column(longer).drop_last() =~= bucket_column(rows));
    assert(key_column(longer).drop_last() =~= key_column(rows));
    assert(file_name_column(longer).drop_last() =~= file_name_column(rows));
    assert(bucket_column(longer).last() == record.bucket);
    assert(key_column(longer).last() == record.key);
    assert(file_name_column(longer).last() == record.file_name);
}

/// Rows that stay within the limit do so at every prefix.
pub proof fn lemma_within_limit_prefix(rows: Seq<RecordView>, n: int)
    requires
        0 <= n <= rows.len(),
        within_limit(rows),
    ensures
        within_limit(rows.take(n)),
{
    assert(bucket_column(rows).take(n) =~= bucket_column(rows.take(n)));
    assert(key_column(rows).take(n) =~= key_column(rows.take(n)));
    assert(file_name_column(rows).take(n) =~= file_name_column(rows.take(n)));
    lemma_utf8_total_prefix(bucket_column(rows), n);
    lemma_utf8_total_prefix(key_column(rows), n);
    lemma_utf8_total_prefix(file_name_column(rows), n);
}

/// `n` records make `n / 1000` batches, rounded up. Every batch but the last
/// holds exactly 1000 records, and the last holds between 1 and 1000.
pub proof fn lemma_batch_sizes(rows: Seq<RecordView>)
    ensures
        batches_of(rows).len() == batch_count(rows.len()),
        rows.len() % (BATCH_CAPACITY as nat) == 0 ==> batch_count(rows.len()) * BATCH_CAPACITY
            == rows.len(),
        rows.len() % (BATCH_CAPACITY as nat) != 0 ==> batch_count(rows.len()) == rows.len() / (
        BATCH_CAPACITY as nat) + 1,
        forall|i: int|
            0 <= i < batch_count(rows.len()) - 1 ==> (#[trigger] batches_of(rows)[i]).len()
                == BATCH_CAPACITY,
        rows.len() > 0 ==> 1 <= batches_of(rows).last().len() <= BATCH_CAPACITY,
        rows.len() > 0 ==> batches_of(rows).last().len() == rows.len() - (batch_count(rows.len())
            - 1) * BATCH_CAPACITY,
{
}

/// The batches of `rows`, one behind the other, are `rows`: no record is
/// lost, added or moved.
pub proof fn lemma_batches_keep_rows(rows: Seq<RecordView>)
    ensures
        batches_of(rows).flatten() == rows,
    decreases rows.len(),
{
    let batches = batches_of(rows);
    if rows.len() == 0 {
        assert(batches =~= Seq::<Seq<RecordView>>::empty());
        assert(batches.flatten() =~= rows);
    } else {
        let count = batch_count(rows.len()) as int;
        let cut = (count - 1) * BATCH_CAPACITY;
        let head = rows.take(cut);
        let tail = batch_at(rows, count - 1);
        assert(batch_count(head.len()) == count - 1);
        assert forall|i: int| 0 <= i < count - 1 implies batch_at(head, i) == batch_at(
            rows,
            i,
        ) by {
            assert(batch_at(head, i) =~= batch_at(rows, i));
        }
        assert(batches_of(head) =~= batches.drop_last());
        assert(batches =~= batches_of(head).push(tail));
        lemma_batches_keep_rows(head);
        batches_of(head).lemma_flatten_push(tail);
        assert(head + tail =~= rows);
    }
}

/// What one more record does to the batches. Where it has room, the rows
/// still fit; it fills the pending batch, which then counts among the full
/// ones, or it joins the pending records.
pub proof fn lemma_push_record(rows: Seq<RecordView>, record: RecordView)
    requires
        fits(rows),
        has_room(pending(rows), record),
    ensures
        fits(rows.push(record)),
        pending(rows).len() < BATCH_CAPACITY,
        pending(rows).len() + 1 == BATCH_CAPACITY ==> {
            &&& full_batches(rows.push(record)) == full_batches(rows).push(
                pending(rows).push(record),
            )
            &&& pending(rows.push(record)) == Seq::<RecordView>::empty()
        },
        pending(rows).len() + 1 != BATCH_CAPACITY ==> {
            &&& full_batches(rows.push(record)) == full_batches(rows)
            &&& pending(rows.push(record)) == pending(rows).push(record)
        },
{
    let longer = rows.push(record);
    let filled = (rows.len() / BATCH_CAPACITY as nat) as int;
    lemma_room_is_limit(pending(rows), record);
    assert(batch_at(longer, filled) =~= pending(rows).push(record));
    assert forall|i: int| 0 <= i < batch_count(longer.len()) implies within_limit(
        #[trigger] batch_at(longer, i),
    ) by {
        if i < filled {
            assert(batch_at(longer, i) =~= batch_at(rows, i));
        } else {
            assert(i == filled);
        }
    }
    if pending(rows).len() + 1 == BATCH_CAPACITY {
        assert(full_batches(longer) =~= full_batches(rows).push(pending(rows).push(record))) by {
            assert forall|i: int| 0 <= i < filled implies batch_at(longer, i) == batch_at(
                rows,
                i,
            ) by {
                assert(batch_at(longer, i) =~= batch_at(rows, i));
            }
        }
        assert(pending(longer) =~= Seq::<RecordView>::empty());
    } else {
        assert(full_batches(longer) =~= full_batches(rows)) by {
            assert forall|i: int| 0 <= i < filled implies batch_at(longer, i) == batch_at(
                rows,
                i,
            ) by {
                assert(batch_at(longer, i) =~= batch_at(rows, i));
            }
        }
        assert(pending(longer) =~= pending(rows).push(record));
    }
}

/// Where a record has no room behind the pending ones, no run that goes on
/// with it fits.
pub proof fn lemma_no_room_no_fit(rows: Seq<RecordView>, record: RecordView, all: Seq<RecordView>)
    requires
        rows.len() < all.len(),
        all.take(rows.len() as int + 1) == rows.push(record),
        !has_room(pending(rows), record),
    ensures
        !fits(all),
{
    let filled = (rows.len() / BATCH_CAPACITY as nat) as int;
    let batch = batch_at(all, filled);
    let reach = rows.len() - filled * BATCH_CAPACITY + 1;
    lemma_room_is_limit(pending(rows), record);
    assert(batch.take(reach) =~= pending(rows).push(record)) by {
        assert forall|j: int| 0 <= j < reach implies batch.take(reach)[j] == pending(rows).push(
            record,
        )[j] by {
            assert(all.take(rows.len() as int + 1)[filled * BATCH_CAPACITY + j] == all[filled
                * BATCH_CAPACITY + j]);
        }
    }
    if within_limit(batch) {
        lemma_within_limit_prefix(batch, reach);
    }
    assert(0 <= filled < batch_count(all.len()));
}

/// When the listing ends, the pending records, if there are any, make the
/// last batch.
pub proof fn lemma_last_batch(rows: Seq<RecordView>)
    ensures
        pending(rows).len() < BATCH_CAPACITY,
        pending(rows).len() > 0 ==> batches_of(rows) == full_batches(rows).push(pending(rows)),
        pending(rows).len() == 0 ==> batches_of(rows) == full_batches(rows),
{
    let filled = (rows.len() / BATCH_CAPACITY as nat) as int;
    if pending(rows).len() > 0 {
        assert(batch_at(rows, filled) =~= pending(rows));
        assert(batches_of(rows) =~= full_batches(rows).push(pending(rows)));
    } else {
        assert(batches_of(rows) =~= full_batches(rows));
    }
}

} // verus!
