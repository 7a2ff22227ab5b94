//! Object descriptors as a listing returns them, and the manifest records
//! derived from them.

use crate::text::{chars_of, find_last, is_last_occurrence, occurs, occurs_at};
use vstd::prelude::*;

verus! {

/// What a listing page says of one object. Every field may be absent.
#[derive(Clone, Debug)]
pub struct ObjectDescriptor {
    pub key: Option<String>,
    pub size: Option<i64>,
    pub last_modified: Option<String>,
}

/// The mathematical content of an [`ObjectDescriptor`].
pub ghost struct DescriptorView {
    pub key: Option<Seq<char>>,
    pub size: Option<i64>,
    pub last_modified: Option<Seq<char>>,
}

/// The characters of an optional string.
pub open spec fn opt_chars(s: Option<String>) -> Option<Seq<char>> {
    match s {
        Some(t) => Some(t@),
        None => None,
    }
}

impl View for ObjectDescriptor {
    type V = DescriptorView;

    open spec fn view(&self) -> DescriptorView {
        DescriptorView {
            key: opt_chars(self.key),
            size: self.size,
            last_modified: opt_chars(self.last_modified),
        }
    }
}

/// One row of the manifest.
#[derive(Clone, Debug)]
pub struct ManifestRecord {
    pub bucket: String,
    pub key: String,
    pub file_name: String,
    pub size: u64,
    pub last_modified: i64,
}

/// The mathematical content of a [`ManifestRecord`].
pub ghost struct RecordView {
    pub bucket: Seq<char>,
    pub key: Seq<char>,
    pub file_name: Seq<char>,
    pub size: u64,
    pub last_modified: i64,
}

impl View for ManifestRecord {
    type V = RecordView;

    open spec fn view(&self) -> RecordView {
        RecordView {
            bucket: self.bucket@,
            key: self.key@,
            file_name: self.file_name@,
            size: self.size,
            last_modified: self.last_modified,
        }
    }
}

/// The file name of `key`: what follows the last occurrence of `delimiter`,
/// or the whole key where the delimiter does not occur.
pub open spec fn file_name_of(key: Seq<char>, delimiter: Seq<char>) -> Seq<char> {
    if occurs(key, delimiter) {
        let at = choose|i: int| is_last_occurrence(key, delimiter, i);
        key.subrange(at + delimiter.len(), key.len() as int)
    } else {
        key
    }
}

/// The file name is what follows the last occurrence of the delimiter, and
/// the whole key where there is none.
pub proof fn lemma_file_name(key: Seq<char>, delimiter: Seq<char>)
    ensures
        !occurs(key, delimiter) ==> file_name_of(key, delimiter) == key,
        forall|at: int| #[trigger]
            is_last_occurrence(key, delimiter, at) ==> file_name_of(key, delimiter)
                == key.subrange(at + delimiter.len(), key.len() as int),
{
    assert forall|at: int| #[trigger] is_last_occurrence(key, delimiter, at) implies file_name_of(
        key,
        delimiter,
    ) == key.subrange(at + delimiter.len(), key.len() as int) by {
        let chosen = choose|i: int| is_last_occurrence(key, delimiter, i);
        assert(occurs_at(key, delimiter, at));
        crate::text::lemma_last_occurrence_unique(key, delimiter, at, chosen);
    }
}

/// The key recorded for an object: the empty string where it has none.
pub open spec fn key_of(key: Option<Seq<char>>) -> Seq<char> {
    match key {
        Some(k) => k,
        None => Seq::empty(),
    }
}

/// The size recorded for an object: `0` where it has none, and a negative
/// size reinterpreted as an unsigned 64-bit number.
pub open spec fn size_of(size: Option<i64>) -> u64 {
    match size {
        Some(n) => if n >= 0 {
            n as u64
        } else {
            (n + 0x1_0000_0000_0000_0000) as u64
        },
        None => 0,
    }
}

/// Milliseconds since the epoch, in UTC, of the instant that `text` denotes
/// in RFC 3339 form; `None` where `text` is not of that form.
pub uninterp spec fn rfc3339_millis(text: Seq<char>) -> Option<i64>;

/// The timestamp recorded for an object: `0` where it has none or where it
/// cannot be read.
pub open spec fn millis_of(last_modified: Option<Seq<char>>) -> i64 {
    match last_modified {
        Some(text) => match rfc3339_millis(text) {
            Some(ms) => ms,
            None => 0,
        },
        None => 0,
    }
}

/// The record derived from a descriptor.
pub open spec fn record_of(bucket: Seq<char>, object: DescriptorView, delimiter: Seq<char>)
    -> RecordView {
    RecordView {
        bucket,
        key: key_of(object.key),
        file_name: file_name_of(key_of(object.key), delimiter),
        size: size_of(object.size),
        last_modified: millis_of(object.last_modified),
    }
}

/// Calls `chrono::DateTime::parse_from_rfc3339` and, where it accepts the
/// text, `DateTime::timestamp_millis` on what it returns. The outcome depends
/// on the text alone, and [`rfc3339_millis`] is the name for it.
#[verifier::external_body]
fn parse_rfc3339(text: &str) -> (r: Option<i64>)
    ensures
        r == rfc3339_millis(text@),
{
    match chrono::DateTime::parse_from_rfc3339(text) {
        Ok(instant) => Some(instant.timestamp_millis()),
        Err(_) => None,
    }
}

/// Extracts the file name of `key` under `delimiter`.
pub fn file_name(key: &str, delimiter: &str) -> (r: String)
    ensures
        r@ == file_name_of(key@, delimiter@),
{
    let hay = chars_of(key);
    let needle = chars_of(delimiter);
    match find_last(&hay, &needle) {
        Some(at) => {
            let end: usize = hay.len();
            let width: usize = needle.len();
            proof {
                let chosen = choose|i: int| is_last_occurrence(key@, delimiter@, i);
                assert(occurs_at(key@, delimiter@, at as int));
                crate::text::lemma_last_occurrence_unique(key@, delimiter@, at as int, chosen);
            }
            let start: usize = at + width;
            key.substring_char(start, end).to_owned()
        },
        None => key.to_owned(),
    }
}

/// The size to record for an object.
pub fn record_size(size: Option<i64>) -> (r: u64)
    ensures
        r == size_of(size),
{
    match size {
        Some(n) => {
            if n >= 0 {
                n as u64
            } else {
                u64::MAX - ((-(n + 1)) as u64)
            }
        },
        None => 0,
    }
}

/// What to record for a timestamp that was read, or could not be.
pub fn millis_or_epoch(parsed: Option<i64>) -> (r: i64)
    ensures
        r == match parsed {
            Some(ms) => ms,
            None => 0,
        },
{
    match parsed {
        Some(ms) => ms,
        None => 0,
    }
}

/// The timestamp to record for an object, in milliseconds since the epoch.
pub fn last_modified_millis(last_modified: &Option<String>) -> (r: i64)
    ensures
        r == millis_of(opt_chars(*last_modified)),
        last_modified is None ==> r == 0,
        last_modified is Some && rfc3339_millis(last_modified->0@) is None ==> r == 0,
        last_modified is Some && rfc3339_millis(last_modified->0@) is Some ==> r
            == rfc3339_millis(last_modified->0@)->0,
{
    match last_modified {
        Some(text) => millis_or_epoch(parse_rfc3339(text.as_str())),
        None => 0,
    }
}

/// Derives the manifest record of `object`, found in `bucket`.
pub fn normalize(bucket: &str, object: &ObjectDescriptor, delimiter: &str) -> (r: ManifestRecord)
    ensures
        r@ == record_of(bucket@, object@, delimiter@),
{
    let key: String = match &object.key {
        Some(k) => k.clone(),
        None => String::new(),
    };
    let name = file_name(key.as_str(), delimiter);
    ManifestRecord {
        bucket: bucket.to_owned(),
        key,
        file_name: name,
        size: record_size(object.size),
        last_modified: last_modified_millis(&object.last_modified),
    }
}

} // verus!
