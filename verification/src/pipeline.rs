//! The run as a whole: listing page by page, accumulating, handing out
//! batches, closing and, where the manifest goes to an object store,
//! uploading.
//!
//! The run itself performs no input or output. It is told what happened and
//! answers what to do next; whoever drives it lists, writes and uploads.
//!
//! A run is idle, then lists. While it takes in a page it accumulates and
//! flushes by turns, and on the last page it flushes what is left; those
//! moments pass within one call, which hands out the batches to write. Then
//! the output is closed and, where it goes to an object store, uploaded. A
//! failure of a listing, a write or an upload ends the run for good.

use crate::accumulator::Accumulator;
use crate::batching::{
    batch_count, batches_of, fits, full_batches, lemma_batch_sizes, lemma_batches_keep_rows,
    lemma_last_batch, lemma_no_room_no_fit, lemma_push_record, pending, BATCH_CAPACITY,
};
use crate::columns::{batch_rows, fits_columns, schema_columns, Batch};
use crate::error::ManifestError;
use crate::lister::{
    accepts, clone_opt, descriptor_views, lemma_page_records_concat, lemma_page_records_push,
    lemma_records_carry_prefix, page_records, page_request, ListPage, ListRequest,
    ListRequestView, PAGE_SIZE,
};
use crate::record::{normalize, opt_chars, DescriptorView, ObjectDescriptor, RecordView};
use crate::schema::manifest_schema;
use vstd::prelude::*;

verus! {

/// Where a finished manifest is uploaded to.
#[derive(Clone, Debug)]
pub struct UploadTarget {
    pub bucket: String,
    pub key: String,
}

/// The mathematical content of an [`UploadTarget`].
pub ghost struct UploadTargetView {
    pub bucket: Seq<char>,
    pub key: Seq<char>,
}

impl View for UploadTarget {
    type V = UploadTargetView;

    open spec fn view(&self) -> UploadTargetView {
        UploadTargetView { bucket: self.bucket@, key: self.key@ }
    }
}

impl UploadTarget {
    /// The target that a parsed output location names: the bucket and key
    /// where it has a bucket, and none where it is a local path.
    pub fn from_output(bucket: Option<String>, key: String) -> (target: Option<UploadTarget>)
        ensures
            match bucket {
                Some(b) => target is Some && target->0@ == (UploadTargetView {
                    bucket: b@,
                    key: key@,
                }),
                None => target is None,
            },
    {
        match bucket {
            Some(b) => Some(UploadTarget { bucket: b, key }),
            None => None,
        }
    }
}

/// What a run is set up with. Without a destination the manifest stays where
/// it was written.
#[derive(Clone, Debug)]
pub struct RunConfig {
    pub bucket: String,
    pub prefix: Option<String>,
    pub delimiter: String,
    pub destination: Option<UploadTarget>,
}

/// The mathematical content of a [`RunConfig`].
pub ghost struct RunConfigView {
    pub bucket: Seq<char>,
    pub prefix: Option<Seq<char>>,
    pub delimiter: Seq<char>,
    pub destination: Option<UploadTargetView>,
}

impl View for RunConfig {
    type V = RunConfigView;

    open spec fn view(&self) -> RunConfigView {
        RunConfigView {
            bucket: self.bucket@,
            prefix: opt_chars(self.prefix),
            delimiter: self.delimiter@,
            destination: match self.destination {
                Some(target) => Some(target@),
                None => None,
            },
        }
    }
}

/// Where a run stands.
#[derive(Clone, Copy, Debug, PartialEq, Eq, Structural)]
pub enum Stage {
    /// Nothing has been asked for yet.
    Idle,
    /// A page has been asked for.
    Listing,
    /// The last batch has been handed out; the output is to be closed.
    Closing,
    /// The output is closed and is to be uploaded.
    Uploading,
    /// The manifest is where it belongs.
    Done,
    /// The run has failed for good.
    Failed,
}

/// What to do once the batches of a page are written.
#[derive(Clone, Debug)]
pub enum Step {
    /// Ask for the next page.
    List(ListRequest),
    /// The listing is exhausted: close the output.
    Close,
}

/// The mathematical content of a [`Step`].
pub ghost enum StepView {
    List(ListRequestView),
    Close,
}

impl View for Step {
    type V = StepView;

    open spec fn view(&self) -> StepView {
        match self {
            Step::List(request) => StepView::List(request@),
            Step::Close => StepView::Close,
        }
    }
}

/// The answer to a page: the batches to write, in order, and what to do then.
pub struct PageOutcome {
    pub batches: Vec<Batch>,
    pub next: Step,
}

/// What to do once the output is closed.
#[derive(Clone, Debug)]
pub enum Completion {
    /// Upload the output to the target.
    Upload(UploadTarget),
    /// Nothing is left to do.
    Done,
}

/// The rows of each batch of `batches`, in order.
pub open spec fn batch_views(batches: Seq<Batch>) -> Seq<Seq<RecordView>> {
    Seq::new(batches.len(), |i: int| batch_rows(batches[i]))
}

/// The count shown for `n` objects: `n` itself, as far as 64 bits reach.
pub open spec fn saturated(n: nat) -> u64 {
    if n <= u64::MAX {
        n as u64
    } else {
        u64::MAX
    }
}

/// One run of the manifest pipeline.
pub struct Pipeline {
    config: RunConfig,
    schema: arrow::datatypes::Schema,
    accumulator: Accumulator,
    token: Option<String>,
    total_objects: u64,
    stage: Stage,
    seen: Ghost<Seq<DescriptorView>>,
}

impl Pipeline {
    /// What the run was set up with.
    pub closed spec fn config(&self) -> RunConfigView {
        self.config@
    }

    /// Where the run stands.
    pub closed spec fn stage(&self) -> Stage {
        self.stage
    }

    /// Every object of every page that the run has taken in, in order.
    pub closed spec fn seen(&self) -> Seq<DescriptorView> {
        self.seen@
    }

    /// The continuation token that the run holds.
    pub closed spec fn token(&self) -> Option<Seq<char>> {
        opt_chars(self.token)
    }

    /// The count of accepted objects that the run shows.
    pub closed spec fn total(&self) -> u64 {
        self.total_objects
    }

    /// The records that wait in the accumulator.
    pub closed spec fn buffered(&self) -> Seq<RecordView> {
        self.accumulator@
    }

    /// The buffers are sound and the schema is of the manifest's kinds.
    pub closed spec fn buffers_sound(&self) -> bool {
        &&& self.accumulator.well_formed()
        &&& fits_columns(schema_columns(self.schema))
    }

    /// The records of all accepted objects taken in so far, in listing order.
    pub open spec fn rows(&self) -> Seq<RecordView> {
        page_records(
            self.config().bucket,
            self.config().prefix,
            self.config().delimiter,
            self.seen(),
        )
    }

    /// The batches handed out so far, in order: the full ones while the
    /// listing goes on, and all of them once it has ended.
    pub open spec fn handed_out(&self) -> Seq<Seq<RecordView>> {
        match self.stage() {
            Stage::Closing | Stage::Uploading | Stage::Done => batches_of(self.rows()),
            _ => full_batches(self.rows()),
        }
    }

    /// What holds of a run at every moment.
    pub open spec fn well_formed(&self) -> bool {
        &&& self.buffers_sound()
        &&& match self.stage() {
            Stage::Idle => {
                &&& self.seen() == Seq::<DescriptorView>::empty()
                &&& self.buffered() == Seq::<RecordView>::empty()
                &&& self.token() is None
                &&& self.total() == 0
            },
            Stage::Listing => {
                &&& fits(self.rows())
                &&& self.buffered() == pending(self.rows())
                &&& self.total() == saturated(self.rows().len())
            },
            Stage::Closing | Stage::Uploading | Stage::Done => {
                &&& fits(self.rows())
                &&& self.buffered() == Seq::<RecordView>::empty()
                &&& self.token() is None
                &&& self.total() == saturated(self.rows().len())
            },
            Stage::Failed => true,
        }
    }

    /// Two runs set up alike that have taken in the same objects hold the
    /// same records, in the same order, and have handed out the same batches
    /// once both have come equally far.
    pub proof fn lemma_same_listing_same_manifest(&self, other: &Pipeline)
        requires
            self.well_formed(),
            other.well_formed(),
            self.config() == other.config(),
            self.seen() == other.seen(),
            self.stage() == other.stage(),
        ensures
            self.rows() == other.rows(),
            self.handed_out() == other.handed_out(),
            self.stage() != Stage::Failed ==> self.buffered() == other.buffered(),
            self.stage() != Stage::Failed ==> self.total() == other.total(),
    {
    }

    /// Once the listing has ended, the batches handed out are those that the
    /// records make: as many as the number of records divided by 1000,
    /// rounded up; 1000 records in each but the last; and all records, in
    /// listing order, when laid end to end.
    pub proof fn lemma_finished_batches(&self)
        requires
            self.well_formed(),
            self.stage() == Stage::Closing || self.stage() == Stage::Uploading || self.stage()
                == Stage::Done,
        ensures
            self.handed_out().len() == batch_count(self.rows().len()),
            forall|i: int|
                0 <= i < self.handed_out().len() - 1 ==> (#[trigger] self.handed_out()[i]).len()
                    == BATCH_CAPACITY,
            self.rows().len() > 0 ==> 1 <= self.handed_out().last().len() <= BATCH_CAPACITY,
            self.handed_out().flatten() == self.rows(),
    {
        lemma_batch_sizes(self.rows());
        lemma_batches_keep_rows(self.rows());
    }

    /// Under a prefix, no record of the run has a key that does not begin
    /// with it, whatever the pages held.
    pub proof fn lemma_rows_carry_prefix(&self)
        requires
            self.config().prefix is Some,
        ensures
            forall|i: int|
                0 <= i < self.rows().len() ==> self.config().prefix->0.is_prefix_of(
                    (#[trigger] self.rows()[i]).key,
                ),
    {
        lemma_records_carry_prefix(
            self.config().bucket,
            self.config().prefix->0,
            self.config().delimiter,
            self.seen(),
        );
    }

    /// A run that has not begun.
    pub fn new(config: RunConfig) -> (run: Pipeline)
        ensures
            run.well_formed(),
            run.stage() == Stage::Idle,
            run.config() == config@,
    {
        Pipeline {
            config,
            schema: manifest_schema(),
            accumulator: Accumulator::new(),
            token: None,
            total_objects: 0,
            stage: Stage::Idle,
            seen: Ghost(Seq::empty()),
        }
    }

    /// Where the run stands.
    pub fn current_stage(&self) -> (stage: Stage)
        ensures
            stage == self.stage(),
    {
        self.stage
    }

    /// The count of accepted objects so far, for whoever reports progress.
    pub fn total_objects(&self) -> (n: u64)
        ensures
            n == self.total(),
    {
        self.total_objects
    }

    /// The schema under which the batches are made.
    pub fn schema(&self) -> (schema: &arrow::datatypes::Schema)
        requires
            self.well_formed(),
        ensures
            fits_columns(schema_columns(*schema)),
    {
        &self.schema
    }

    /// Begins the run: the request for the first page, which carries no
    /// continuation token.
    pub fn start(&mut self) -> (r: Result<ListRequest, ManifestError>)
        requires
            old(self).well_formed(),
        ensures
            final(self).well_formed(),
            final(self).config() == old(self).config(),
            old(self).stage() == Stage::Idle ==> {
                &&& r is Ok
                &&& final(self).stage() == Stage::Listing
                &&& final(self).seen() == Seq::<DescriptorView>::empty()
                &&& r->Ok_0@ == (ListRequestView {
                    bucket: old(self).config().bucket,
                    prefix: old(self).config().prefix,
                    continuation_token: None,
                    max_keys: PAGE_SIZE,
                })
            },
            old(self).stage() != Stage::Idle ==> {
                &&& r == Err::<ListRequest, ManifestError>(ManifestError::OutOfTurn)
                &&& final(self).stage() == Stage::Failed
            },
    {
        match self.stage {
            Stage::Idle => {
                self.stage = Stage::Listing;
                proof {
                    assert(self.rows() =~= Seq::<RecordView>::empty());
                    assert(pending(self.rows()) =~= Seq::<RecordView>::empty());
                }
                Ok(page_request(self.config.bucket.as_str(), &self.config.prefix, &self.token))
            },
            _ => {
                self.stage = Stage::Failed;
                Err(ManifestError::OutOfTurn)
            },
        }
    }

    /// Takes in one page of the listing. The objects that the prefix accepts
    /// are recorded in order; each time the accumulator reaches the size of a
    /// batch, a batch is made; and when the page is the last, what is left
    /// makes a final batch. The answer holds the batches made, to be written
    /// in order, and what to do after that.
    ///
    /// The run fails where a batch would hold more text than a column can
    /// address, and only there.
    #[verifier::loop_isolation(false)]
    pub fn on_page(&mut self, page: &ListPage) -> (r: Result<PageOutcome, ManifestError>)
        requires
            old(self).well_formed(),
        ensures
            final(self).well_formed(),
            final(self).config() == old(self).config(),
            old(self).stage() != Stage::Listing ==> {
                &&& r is Err
                &&& r->Err_0 == ManifestError::OutOfTurn
                &&& final(self).stage() == Stage::Failed
            },
            old(self).stage() == Stage::Listing ==> {
                &&& r is Ok <==> fits(
                    page_records(
                        old(self).config().bucket,
                        old(self).config().prefix,
                        old(self).config().delimiter,
                        old(self).seen() + page.objects(),
                    ),
                )
                &&& r is Err ==> {
                    &&& r->Err_0 == ManifestError::ColumnFull
                    &&& final(self).stage() == Stage::Failed
                }
                &&& r is Ok ==> {
                    &&& final(self).seen() == old(self).seen() + page.objects()
                    &&& final(self).stage() == if page.truncated() {
                        Stage::Listing
                    } else {
                        Stage::Closing
                    }
                    &&& final(self).token() == if page.truncated() {
                        opt_chars(page.next_continuation_token)
                    } else {
                        None
                    }
                    &&& batch_views(r->Ok_0.batches@) == final(self).handed_out().skip(
                        old(self).handed_out().len() as int,
                    )
                    &&& r->Ok_0.next@ == if page.truncated() {
                        StepView::List(
                            ListRequestView {
                                bucket: old(self).config().bucket,
                                prefix: old(self).config().prefix,
                                continuation_token: opt_chars(page.next_continuation_token),
                                max_keys: PAGE_SIZE,
                            },
                        )
                    } else {
                        StepView::Close
                    }
                }
            },
    {
        if self.stage != Stage::Listing {
            self.stage = Stage::Failed;
            return Err(ManifestError::OutOfTurn);
        }
        let empty: Vec<ObjectDescriptor> = Vec::new();
        let objects: &Vec<ObjectDescriptor> = match &page.contents {
            Some(list) => list,
            None => &empty,
        };
        let ghost cfg = self.config();
        let ghost views = page.objects();
        let ghost base = self.rows();
        let ghost all = page_records(cfg.bucket, cfg.prefix, cfg.delimiter, self.seen() + views);
        let ghost mut cur = base;
        proof {
            assert(views == descriptor_views(objects@));
            lemma_page_records_concat(cfg.bucket, cfg.prefix, cfg.delimiter, self.seen(), views);
            assert(views.take(0) =~= Seq::<DescriptorView>::empty());
            assert(cur =~= base + page_records(
                cfg.bucket,
                cfg.prefix,
                cfg.delimiter,
                views.take(0),
            ));
            assert(batch_views(Seq::<Batch>::empty()) =~= full_batches(cur).skip(
                full_batches(base).len() as int,
            ));
        }
        let mut batches: Vec<Batch> = Vec::new();
        let mut i: usize = 0;
        while i < objects.len()
            invariant
                0 <= i <= objects.len(),
                views == descriptor_views(objects@),
                all == base + page_records(cfg.bucket, cfg.prefix, cfg.delimiter, views),
                self.buffers_sound(),
                self.config() == cfg,
                self.stage() == Stage::Listing,
                self.seen() == old(self).seen(),
                cur == base + page_records(
                    cfg.bucket,
                    cfg.prefix,
                    cfg.delimiter,
                    views.take(i as int),
                ),
                fits(cur),
                self.buffered() == pending(cur),
                full_batches(base).len() <= full_batches(cur).len(),
                batch_views(batches@) == full_batches(cur).skip(full_batches(base).len() as int),
                self.total() == saturated(cur.len()),
            decreases objects.len() - i,
        {
            let object = &objects[i];
            proof {
                assert(views.take(i as int).push(views[i as int]) =~= views.take(i + 1));
                lemma_page_records_push(
                    cfg.bucket,
                    cfg.prefix,
                    cfg.delimiter,
                    views.take(i as int),
                    views[i as int],
                );
            }
            if accepts(&self.config.prefix, object) {
                let record = normalize(
                    self.config.bucket.as_str(),
                    object,
                    self.config.delimiter.as_str(),
                );
                let ghost longer = cur.push(record@);
                proof {
                    assert(longer =~= base + page_records(
                        cfg.bucket,
                        cfg.prefix,
                        cfg.delimiter,
                        views.take(i + 1),
                    ));
                }
                match self.accumulator.append(&record) {
                    Ok(()) => {},
                    Err(e) => {
                        proof {
                            assert(views =~= views.take(i + 1) + views.skip(i + 1));
                            lemma_page_records_concat(
                                cfg.bucket,
                                cfg.prefix,
                                cfg.delimiter,
                                views.take(i + 1),
                                views.skip(i + 1),
                            );
                            assert(all.take(cur.len() as int + 1) =~= longer);
                            lemma_no_room_no_fit(cur, record@, all);
                        }
                        self.stage = Stage::Failed;
                        return Err(e);
                    },
                }
                proof {
                    lemma_push_record(cur, record@);
                }
                if self.total_objects < u64::MAX {
                    self.total_objects = self.total_objects + 1;
                }
                if self.accumulator.should_flush() {
                    match self.accumulator.drain_batch(&self.schema) {
                        Ok(batch) => {
                            proof {
                                let skipped = full_batches(base).len() as int;
                                let filled = pending(cur).push(record@);
                                assert(batch_rows(batch) == filled);
                                assert(full_batches(longer) == full_batches(cur).push(filled));
                                assert(full_batches(longer).skip(skipped) =~= full_batches(
                                    cur,
                                ).skip(skipped).push(filled));
                                assert(batch_views(batches@.push(batch)) =~= batch_views(
                                    batches@,
                                ).push(filled));
                            }
                            batches.push(batch);
                        },
                        Err(e) => {
                            self.stage = Stage::Failed;
                            return Err(e);
                        },
                    }
                }
                proof {
                    cur = longer;
                }
            }
            i += 1;
        }
        proof {
            assert(views.take(i as int) =~= views);
            assert(cur == all);
            lemma_last_batch(all);
        }
        let more = page.has_more();
        let next = if more {
            self.token = clone_opt(&page.next_continuation_token);
            Step::List(page_request(self.config.bucket.as_str(), &self.config.prefix, &self.token))
        } else {
            self.token = None;
            if self.accumulator.len() > 0 {
                match self.accumulator.drain_batch(&self.schema) {
                    Ok(batch) => {
                        proof {
                            let skipped = full_batches(base).len() as int;
                            assert(batch_rows(batch) == pending(all));
                            assert(batches_of(all) == full_batches(all).push(pending(all)));
                            assert(batches_of(all).skip(skipped) =~= full_batches(all).skip(
                                skipped,
                            ).push(pending(all)));
                            assert(batch_views(batches@.push(batch)) =~= batch_views(
                                batches@,
                            ).push(pending(all)));
                        }
                        batches.push(batch);
                    },
                    Err(e) => {
                        self.stage = Stage::Failed;
                        return Err(e);
                    },
                }
            }
            assert(self.accumulator@ =~= Seq::<RecordView>::empty());
            self.stage = Stage::Closing;
            Step::Close
        };
        proof {
            self.seen@ = self.seen@ + views;
        }
        Ok(PageOutcome { batches, next })
    }

    /// The listing call failed on its last attempt: the run has failed.
    pub fn on_list_failed(&mut self) -> (error: ManifestError)
        requires
            old(self).well_formed(),
        ensures
            final(self).well_formed(),
            final(self).config() == old(self).config(),
            final(self).stage() == Stage::Failed,
            error == if old(self).stage() == Stage::Listing {
                ManifestError::ListingFailed
            } else {
                ManifestError::OutOfTurn
            },
    {
        let error = match self.stage {
            Stage::Listing => ManifestError::ListingFailed,
            _ => ManifestError::OutOfTurn,
        };
        self.stage = Stage::Failed;
        error
    }

    /// A batch could not be written, or the output could not be closed: the
    /// run has failed. Such failures are never retried.
    pub fn on_write_failed(&mut self) -> (error: ManifestError)
        requires
            old(self).well_formed(),
        ensures
            final(self).well_formed(),
            final(self).config() == old(self).config(),
            final(self).stage() == Stage::Failed,
            error == if old(self).stage() == Stage::Listing || old(self).stage()
                == Stage::Closing {
                ManifestError::WriteFailed
            } else {
                ManifestError::OutOfTurn
            },
    {
        let error = match self.stage {
            Stage::Listing | Stage::Closing => ManifestError::WriteFailed,
            _ => ManifestError::OutOfTurn,
        };
        self.stage = Stage::Failed;
        error
    }

    /// The output is closed. Where the manifest goes to an object store it is
    /// now to be uploaded; otherwise the run is done.
    pub fn on_closed(&mut self) -> (r: Result<Completion, ManifestError>)
        requires
            old(self).well_formed(),
        ensures
            final(self).well_formed(),
            final(self).config() == old(self).config(),
            final(self).seen() == old(self).seen(),
            old(self).stage() == Stage::Closing ==> match old(self).config().destination {
                Some(target) => {
                    &&& r is Ok
                    &&& r->Ok_0 is Upload
                    &&& r->Ok_0->Upload_0@ == target
                    &&& final(self).stage() == Stage::Uploading
                },
                None => {
                    &&& r is Ok
                    &&& r->Ok_0 is Done
                    &&& final(self).stage() == Stage::Done
                },
            },
            old(self).stage() != Stage::Closing ==> {
                &&& r is Err
                &&& r->Err_0 == ManifestError::OutOfTurn
                &&& final(self).stage() == Stage::Failed
            },
    {
        if self.stage != Stage::Closing {
            self.stage = Stage::Failed;
            return Err(ManifestError::OutOfTurn);
        }
        match &self.config.destination {
            Some(target) => {
                let copy = UploadTarget { bucket: target.bucket.clone(), key: target.key.clone() };
                self.stage = Stage::Uploading;
                Ok(Completion::Upload(copy))
            },
            None => {
                self.stage = Stage::Done;
                Ok(Completion::Done)
            },
        }
    }

    /// The upload succeeded: the run is done.
    pub fn on_uploaded(&mut self) -> (r: Result<(), ManifestError>)
        requires
            old(self).well_formed(),
        ensures
            final(self).well_formed(),
            final(self).config() == old(self).config(),
            final(self).seen() == old(self).seen() || final(self).stage() == Stage::Failed,
            old(self).stage() == Stage::Uploading ==> r is Ok && final(self).stage()
                == Stage::Done,
            old(self).stage() != Stage::Uploading ==> {
                &&& r is Err
                &&& r->Err_0 == ManifestError::OutOfTurn
                &&& final(self).stage() == Stage::Failed
            },
    {
        if self.stage != Stage::Uploading {
            self.stage = Stage::Failed;
            return Err(ManifestError::OutOfTurn);
        }
        self.stage = Stage::Done;
        Ok(())
    }

    /// The upload failed on its last attempt: the run has failed, and nothing
    /// of the manifest is at the destination.
    pub fn on_upload_failed(&mut self) -> (error: ManifestError)
        requires
            old(self).well_formed(),
        ensures
            final(self).well_formed(),
            final(self).config() == old(self).config(),
            final(self).stage() == Stage::Failed,
            error == if old(self).stage() == Stage::Uploading {
                ManifestError::UploadFailed
            } else {
                ManifestError::OutOfTurn
            },
    {
        let error = match self.stage {
            Stage::Uploading => ManifestError::UploadFailed,
            _ => ManifestError::OutOfTurn,
        };
        self.stage = Stage::Failed;
        error
    }
}

} // verus!
