//! The object lister: what each page request carries, which of the objects
//! that a page returns are accepted, and when the listing goes on.

use crate::record::{key_of, opt_chars, record_of, DescriptorView, ObjectDescriptor, RecordView};
use crate::text::starts_with;
use vstd::prelude::*;

verus! {

/// The most objects asked for in one page.
pub const PAGE_SIZE: i64 = 1000;

/// One request for a page of the listing.
#[derive(Clone, Debug)]
pub struct ListRequest {
    pub bucket: String,
    pub prefix: Option<String>,
    pub continuation_token: Option<String>,
    pub max_keys: i64,
}

/// The mathematical content of a [`ListRequest`].
pub ghost struct ListRequestView {
    pub bucket: Seq<char>,
    pub prefix: Option<Seq<char>>,
    pub continuation_token: Option<Seq<char>>,
    pub max_keys: i64,
}

impl View for ListRequest {
    type V = ListRequestView;

    open spec fn view(&self) -> ListRequestView {
        ListRequestView {
            bucket: self.bucket@,
            prefix: opt_chars(self.prefix),
            continuation_token: opt_chars(self.continuation_token),
            max_keys: self.max_keys,
        }
    }
}

/// One page of a listing, as the object store answers it.
#[derive(Clone, Debug)]
pub struct ListPage {
    pub contents: Option<Vec<ObjectDescriptor>>,
    pub next_continuation_token: Option<String>,
    pub is_truncated: Option<bool>,
}

/// The descriptors of `objects`, in order.
pub open spec fn descriptor_views(objects: Seq<ObjectDescriptor>) -> Seq<DescriptorView> {
    Seq::new(objects.len(), |i: int| objects[i]@)
}

impl ListPage {
    /// The objects on the page, in the order given; none where the page has
    /// no contents.
    pub open spec fn objects(&self) -> Seq<DescriptorView> {
        match self.contents {
            Some(list) => descriptor_views(list@),
            None => Seq::empty(),
        }
    }

    /// The page says that the listing goes on behind it.
    pub open spec fn truncated(&self) -> bool {
        self.is_truncated == Some(true)
    }

    /// Whether another page is to be asked for.
    pub fn has_more(&self) -> (more: bool)
        ensures
            more == self.truncated(),
    {
        match self.is_truncated {
            Some(flag) => flag,
            None => false,
        }
    }
}

/// An object is accepted under `prefix` where there is no prefix, or where
/// its key, taken as empty if absent, begins with the prefix.
pub open spec fn is_accepted(prefix: Option<Seq<char>>, object: DescriptorView) -> bool {
    match prefix {
        Some(p) => p.is_prefix_of(key_of(object.key)),
        None => true,
    }
}

/// The records of the objects among `objects` that are accepted under
/// `prefix`, in the order of the listing.
pub open spec fn page_records(
    bucket: Seq<char>,
    prefix: Option<Seq<char>>,
    delimiter: Seq<char>,
    objects: Seq<DescriptorView>,
) -> Seq<RecordView> {
    objects.filter(|o: DescriptorView| is_accepted(prefix, o)).map_values(
        |o: DescriptorView| record_of(bucket, o, delimiter),
    )
}

/// Adding one object behind `objects` adds its record if it is accepted, and
/// nothing otherwise.
pub proof fn lemma_page_records_push(
    bucket: Seq<char>,
    prefix: Option<Seq<char>>,
    delimiter: Seq<char>,
    objects: Seq<DescriptorView>,
    object: DescriptorView,
)
    ensures
        page_records(bucket, prefix, delimiter, objects.push(object)) == if is_accepted(
            prefix,
            object,
        ) {
            page_records(bucket, prefix, delimiter, objects).push(
                record_of(bucket, object, delimiter),
            )
        } else {
            page_records(bucket, prefix, delimiter, objects)
        },
{
    let pred = |o: DescriptorView| is_accepted(prefix, o);
    let longer = objects.push(object);
    assert(longer.drop_last() =~= objects);
    assert(longer.last() == object);
    reveal_with_fuel(Seq::filter, 2);
    assert(longer.filter(pred) == if pred(object) {
        objects.filter(pred).push(object)
    } else {
        objects.filter(pred)
    });
    if is_accepted(prefix, object) {
        assert(page_records(bucket, prefix, delimiter, longer) =~= page_records(
            bucket,
            prefix,
            delimiter,
            objects,
        ).push(record_of(bucket, object, delimiter)));
    }
}

/// The request for the page behind `token`, or for the first page where
/// there is no token.
pub fn page_request(bucket: &str, prefix: &Option<String>, token: &Option<String>) -> (request:
    ListRequest)
    ensures
        request@ == (ListRequestView {
            bucket: bucket@,
            prefix: opt_chars(*prefix),
            continuation_token: opt_chars(*token),
            max_keys: PAGE_SIZE,
        }),
{
    ListRequest {
        bucket: bucket.to_owned(),
        prefix: clone_opt(prefix),
        continuation_token: clone_opt(token),
        max_keys: PAGE_SIZE,
    }
}

/// A copy of an optional string.
pub fn clone_opt(text: &Option<String>) -> (copy: Option<String>)
    ensures
        opt_chars(copy) == opt_chars(*text),
{
    match text {
        Some(t) => Some(t.clone()),
        None => None,
    }
}

/// Whether `object` is accepted under `prefix`.
pub fn accepts(prefix: &Option<String>, object: &ObjectDescriptor) -> (r: bool)
    ensures
        r == is_accepted(opt_chars(*prefix), object@),
{
    match prefix {
        Some(p) => match &object.key {
            Some(k) => starts_with(k.as_str(), p.as_str()),
            None => {
                let empty = String::new();
                starts_with(empty.as_str(), p.as_str())
            },
        },
        None => true,
    }
}

/// The records of two runs of objects, one behind the other, are the records
/// of the first followed by those of the second.
pub proof fn lemma_page_records_concat(
    bucket: Seq<char>,
    prefix: Option<Seq<char>>,
    delimiter: Seq<char>,
    first: Seq<DescriptorView>,
    second: Seq<DescriptorView>,
)
    ensures
        page_records(bucket, prefix, delimiter, first + second) == page_records(
            bucket,
            prefix,
            delimiter,
            first,
        ) + page_records(bucket, prefix, delimiter, second),
{
    let pred = |o: DescriptorView| is_accepted(prefix, o);
    Seq::filter_distributes_over_add(first, second, pred);
    assert(page_records(bucket, prefix, delimiter, first + second) =~= page_records(
        bucket,
        prefix,
        delimiter,
        first,
    ) + page_records(bucket, prefix, delimiter, second));
}

/// Under a prefix, the key of every record begins with the prefix: an object
/// whose key does not is never among the records.
pub proof fn lemma_records_carry_prefix(
    bucket: Seq<char>,
    prefix: Seq<char>,
    delimiter: Seq<char>,
    objects: Seq<DescriptorView>,
)
    ensures
        forall|i: int|
            0 <= i < page_records(bucket, Some(prefix), delimiter, objects).len()
                ==> prefix.is_prefix_of(
                (#[trigger] page_records(bucket, Some(prefix), delimiter, objects)[i]).key,
            ),
{
    let pred = |o: DescriptorView| is_accepted(Some(prefix), o);
    let kept = objects.filter(pred);
    assert forall|i: int| 0 <= i < kept.len() implies prefix.is_prefix_of(
        key_of(kept[i].key),
    ) by {
        objects.lemma_filter_pred(pred, i);
    }
}

} // verus!
