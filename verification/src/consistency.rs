//! What the coordinator achieves: a model of the two stores, the run of an
//! operation against it, and the guarantees that hold of every run.
//!
//! The model is ghost. It states what the blob store and the catalog are
//! taken to do with each request; the guarantees below are proved of the
//! coordinator's steps against that model, for every state of the stores
//! and every schedule of failures.

use crate::commands::{
    delete_image_spec, insert_image_spec, resume_spec, update_image_spec, PendingView, ReplyView,
    RequestView, StepView,
};
use crate::files::{
    is_plain_name, kept_extension, plain_extension, renamed_filename, stored_filename,
    stored_filename_has_its_extension,
};
use crate::media::extension_for;
use crate::media::MediaTypeView;
use crate::models::{ErrorKind, FailureView, ImageView};
use vstd::prelude::*;

verus! {

/// The state of the two stores.
pub struct Stores {
    /// The catalog: the records by slug.
    pub rows: Map<Seq<char>, ImageView>,
    /// The blob store: the bytes of the files by name.
    pub blobs: Map<Seq<char>, Seq<u8>>,
    /// The extension that the platform's path rules find in a file name:
    /// in a plain name, what follows its last dot.
    pub extension: spec_fn(Seq<char>) -> Option<Seq<char>>,
}

/// The failure of the catalog when no record has the slug.
pub open spec fn not_found() -> FailureView {
    FailureView { kind: ErrorKind::NotFound, detail: "no record has this slug"@ }
}

/// The failure of the catalog when a record has the slug already.
pub open spec fn duplicate_slug() -> FailureView {
    FailureView { kind: ErrorKind::DuplicateSlug, detail: "a record has this slug already"@ }
}

/// The failure of the blob store when the file to rename does not exist.
pub open spec fn missing_file() -> FailureView {
    FailureView { kind: ErrorKind::IOFailure, detail: "the file does not exist"@ }
}

/// The failure that the schedule holds for the next request, if any.
pub open spec fn next_fault(faults: Seq<Option<FailureView>>) -> Option<FailureView> {
    if faults.len() > 0 {
        faults[0]
    } else {
        None
    }
}

/// The schedule for the requests after the next one.
pub open spec fn later_faults(faults: Seq<Option<FailureView>>) -> Seq<Option<FailureView>> {
    if faults.len() > 0 {
        faults.drop_first()
    } else {
        faults
    }
}

/// A schedule under which no request fails for an outside cause.
pub open spec fn no_faults() -> Seq<Option<FailureView>> {
    Seq::empty()
}

/// An upper bound on the number of requests that are still to come.
pub open spec fn requests_left(step: StepView) -> nat {
    match step {
        StepView::Finish { .. } => 0,
        StepView::Call { pending, .. } => match pending {
            PendingView::CreateSaving { .. } => 3,
            PendingView::CreateInserting { .. } => 2,
            PendingView::CreateCompensating { .. } => 1,
            PendingView::UpdateReading { .. } => 4,
            PendingView::UpdateDeletingOld { .. } => 3,
            PendingView::UpdateStoring { .. } => 2,
            PendingView::UpdateWriting => 1,
            PendingView::DeleteReading { .. } => 3,
            PendingView::DeleteRemovingBlob { .. } => 2,
            PendingView::DeleteRemovingRow => 1,
        },
    }
}

impl Stores {
    /// Every record is filed under its own slug, and the extension of a
    /// plain name is what follows its last dot.
    pub open spec fn well_formed(self) -> bool {
        &&& forall|slug: Seq<char>| #[trigger]
            self.rows.dom().contains(slug) ==> self.rows[slug].slug == slug
        &&& forall|name: Seq<char>|
            is_plain_name(name) ==> #[trigger] (self.extension)(name) == plain_extension(name)
    }

    /// Whether the catalog holds a record with this slug.
    pub open spec fn has_row(self, slug: Seq<char>) -> bool {
        self.rows.dom().contains(slug)
    }

    /// Whether the blob store holds a file of this name.
    pub open spec fn has_blob(self, filename: Seq<char>) -> bool {
        self.blobs.dom().contains(filename)
    }

    /// The stores with other blobs.
    pub open spec fn with_blobs(self, blobs: Map<Seq<char>, Seq<u8>>) -> Stores {
        Stores { blobs, ..self }
    }

    /// The stores with other records.
    pub open spec fn with_rows(self, rows: Map<Seq<char>, ImageView>) -> Stores {
        Stores { rows, ..self }
    }

    /// What a request does to the stores when nothing fails for an outside
    /// cause, and the reply it gets.
    ///
    /// Saving overwrites a file of the same name. Deleting a file that does
    /// not exist succeeds. Renaming keeps the bytes and the extension. The
    /// catalog refuses a second record under one slug, and refuses to read,
    /// replace or remove a record that it does not hold.
    pub open spec fn answer(self, request: RequestView) -> (Stores, ReplyView) {
        match request {
            RequestView::SaveBlob { data, slug, media } => {
                let name = stored_filename(slug, media);
                (self.with_blobs(self.blobs.insert(name, data)), ReplyView::Filename(name))
            },
            RequestView::DeleteBlob { filename } => (
                self.with_blobs(self.blobs.remove(filename)),
                ReplyView::Done,
            ),
            RequestView::RenameBlob { filename, new_base } => if self.has_blob(filename) {
                let name = renamed_filename(new_base, (self.extension)(filename));
                (
                    self.with_blobs(self.blobs.remove(filename).insert(name, self.blobs[filename])),
                    ReplyView::Filename(name),
                )
            } else {
                (self, ReplyView::Failed(missing_file()))
            },
            RequestView::ReadRow { slug } => if self.has_row(slug) {
                (self, ReplyView::Row(self.rows[slug]))
            } else {
                (self, ReplyView::Failed(not_found()))
            },
            RequestView::InsertRow { image } => if self.has_row(image.slug) {
                (self, ReplyView::Failed(duplicate_slug()))
            } else {
                (self.with_rows(self.rows.insert(image.slug, image)), ReplyView::Done)
            },
            RequestView::UpdateRow { slug, image } => if !self.has_row(slug) {
                (self, ReplyView::Failed(not_found()))
            } else if image.slug != slug && self.has_row(image.slug) {
                (self, ReplyView::Failed(duplicate_slug()))
            } else {
                (self.with_rows(self.rows.remove(slug).insert(image.slug, image)), ReplyView::Done)
            },
            RequestView::DeleteRow { slug } => if self.has_row(slug) {
                (self.with_rows(self.rows.remove(slug)), ReplyView::Done)
            } else {
                (self, ReplyView::Failed(not_found()))
            },
        }
    }

    /// What a request does to the stores under a schedule of failures: a
    /// request that the schedule fails leaves the stores as they were.
    pub open spec fn answer_under(self, request: RequestView, fault: Option<FailureView>) -> (
        Stores,
        ReplyView,
    ) {
        match fault {
            Some(failure) => (self, ReplyView::Failed(failure)),
            None => self.answer(request),
        }
    }

    /// The run of an operation from `step` to its end: the stores as it
    /// leaves them, and its outcome. `faults` says, request by request,
    /// which ones fail for an outside cause.
    pub open spec fn run(self, step: StepView, faults: Seq<Option<FailureView>>) -> (
        Stores,
        Result<(), FailureView>,
    )
        decreases requests_left(step),
    {
        match step {
            StepView::Finish { outcome } => (self, outcome),
            StepView::Call { request, pending } => {
                let (next, reply) = self.answer_under(request, next_fault(faults));
                next.run(resume_spec(pending, reply), later_faults(faults))
            },
        }
    }

    /// What reading the record with this slug answers.
    pub open spec fn get_by_slug(self, slug: Seq<char>) -> ReplyView {
        self.answer(RequestView::ReadRow { slug }).1
    }
}

/// Whether `text` ends with `suffix`.
pub open spec fn ends_with(text: Seq<char>, suffix: Seq<char>) -> bool {
    &&& suffix.len() <= text.len()
    &&& text.subrange(text.len() - suffix.len(), text.len() as int) == suffix
}

/// A schedule that lets one request pass and then holds `rest`.
pub open spec fn pass_then(rest: Seq<Option<FailureView>>) -> Seq<Option<FailureView>> {
    seq![None::<FailureView>] + rest
}

/// A schedule that fails the next request with `failure` and then holds `rest`.
pub open spec fn fail_then(failure: FailureView, rest: Seq<Option<FailureView>>) -> Seq<
    Option<FailureView>,
> {
    seq![Some(failure)] + rest
}

/// The schedule after a request that passes is the rest of it.
pub proof fn lemma_pass_then(rest: Seq<Option<FailureView>>)
    ensures
        next_fault(pass_then(rest)) is None,
        later_faults(pass_then(rest)) == rest,
{
    assert(pass_then(rest).drop_first() =~= rest);
}

/// The schedule after a request that fails is the rest of it.
pub proof fn lemma_fail_then(failure: FailureView, rest: Seq<Option<FailureView>>)
    ensures
        next_fault(fail_then(failure, rest)) == Some(failure),
        later_faults(fail_then(failure, rest)) == rest,
{
    assert(fail_then(failure, rest).drop_first() =~= rest);
}

/// Create, then read: where no record has the slug yet and nothing fails,
/// the create succeeds, reading the slug gives the submitted metadata under
/// the file name that the blob store assigned, that name is not empty, and
/// the file of that name holds exactly the submitted bytes.
pub proof fn create_then_read(
    stores: Stores,
    data: Seq<u8>,
    media: MediaTypeView,
    image: ImageView,
)
    requires
        stores.well_formed(),
        !stores.has_row(image.slug),
    ensures
        ({
            let (after, outcome) = stores.run(insert_image_spec(data, media, image), no_faults());
            let name = stored_filename(image.slug, media);
            &&& outcome is Ok
            &&& after.well_formed()
            &&& after.get_by_slug(image.slug) == ReplyView::Row(image.with_filename(name))
            &&& name.len() > 0
            &&& after.has_blob(name)
            &&& after.blobs[name] == data
        }),
{
    reveal_with_fuel(Stores::run, 4);
}

/// Delete, then delete again: where nothing fails, the second delete ends
/// with `NotFound` and changes nothing. It never reaches the blob store, so
/// the file that is gone already cannot fail it.
pub proof fn delete_twice(stores: Stores, slug: Seq<char>)
    requires
        stores.well_formed(),
    ensures
        ({
            let (once, first) = stores.run(delete_image_spec(slug), no_faults());
            let (twice, second) = once.run(delete_image_spec(slug), no_faults());
            &&& first is Ok <==> stores.has_row(slug)
            &&& !once.has_row(slug)
            &&& second == Err::<(), FailureView>(not_found())
            &&& twice == once
        }),
{
    reveal_with_fuel(Stores::run, 4);
}

/// A delete removes the record and its file, also where the file is gone
/// already: a record that points at a missing file is healed by deleting it.
pub proof fn delete_removes_both(stores: Stores, slug: Seq<char>)
    requires
        stores.well_formed(),
        stores.has_row(slug),
    ensures
        ({
            let (after, outcome) = stores.run(delete_image_spec(slug), no_faults());
            &&& outcome is Ok
            &&& after.rows == stores.rows.remove(slug)
            &&& after.blobs == stores.blobs.remove(stores.rows[slug].filename)
            &&& after.get_by_slug(slug) == ReplyView::Failed(not_found())
        }),
{
    reveal_with_fuel(Stores::run, 4);
}

/// A delete whose last request fails leaves the record in place, pointing
/// at a file that is gone, and deleting again completes it.
pub proof fn delete_can_be_retried(stores: Stores, slug: Seq<char>, failure: FailureView)
    requires
        stores.well_formed(),
        stores.has_row(slug),
    ensures
        ({
            let faults = pass_then(pass_then(fail_then(failure, no_faults())));
            let (broken, first) = stores.run(delete_image_spec(slug), faults);
            let (after, second) = broken.run(delete_image_spec(slug), no_faults());
            &&& first == Err::<(), FailureView>(failure)
            &&& broken.rows == stores.rows
            &&& !broken.has_blob(stores.rows[slug].filename)
            &&& second is Ok
            &&& !after.has_row(slug)
            &&& after.blobs == broken.blobs
        }),
{
    let rest2 = fail_then(failure, no_faults());
    let rest1 = pass_then(rest2);
    lemma_pass_then(rest1);
    lemma_pass_then(rest2);
    lemma_fail_then(failure, no_faults());
    reveal_with_fuel(Stores::run, 4);
    let (broken, first) = stores.run(delete_image_spec(slug), pass_then(rest1));
    assert(broken.blobs.remove(stores.rows[slug].filename) =~= broken.blobs);
}

/// A second create under a slug that is taken: where nothing fails for an
/// outside cause, it ends with `DuplicateSlug`, the catalog is as it was,
/// and the file that the attempt wrote is deleted again. Every file of
/// another name is untouched: the file of the record that holds the slug
/// is as it was unless the attempt wrote under the very same name.
pub proof fn duplicate_create(
    stores: Stores,
    data: Seq<u8>,
    media: MediaTypeView,
    image: ImageView,
)
    requires
        stores.well_formed(),
        stores.has_row(image.slug),
    ensures
        ({
            let (after, outcome) = stores.run(insert_image_spec(data, media, image), no_faults());
            let orphan = stored_filename(image.slug, media);
            let first = stores.rows[image.slug].filename;
            &&& outcome == Err::<(), FailureView>(duplicate_slug())
            &&& after.rows == stores.rows
            &&& !after.has_blob(orphan)
            &&& after.blobs == stores.blobs.remove(orphan)
            &&& first != orphan ==> (after.has_blob(first) <==> stores.has_blob(first))
            &&& first != orphan ==> after.blobs[first] == stores.blobs[first]
        }),
{
    reveal_with_fuel(Stores::run, 4);
    let orphan = stored_filename(image.slug, media);
    assert(stores.blobs.insert(orphan, data).remove(orphan) =~= stores.blobs.remove(orphan));
}

/// A create whose record the catalog refuses, for whatever cause, ends with
/// that cause and leaves the catalog as it was, whether or not the file that
/// was written could be deleted again. Where it could, no file of that name
/// is left.
pub proof fn create_reports_catalog_failure(
    stores: Stores,
    data: Seq<u8>,
    media: MediaTypeView,
    image: ImageView,
    cause: FailureView,
    cleanup: Option<FailureView>,
)
    ensures
        ({
            let faults = pass_then(fail_then(cause, seq![cleanup]));
            let (after, outcome) = stores.run(insert_image_spec(data, media, image), faults);
            let orphan = stored_filename(image.slug, media);
            &&& outcome == Err::<(), FailureView>(cause)
            &&& after.rows == stores.rows
            &&& cleanup is None ==> !after.has_blob(orphan)
        }),
{
    let rest = fail_then(cause, seq![cleanup]);
    lemma_pass_then(rest);
    lemma_fail_then(cause, seq![cleanup]);
    assert(next_fault(seq![cleanup]) == cleanup);
    reveal_with_fuel(Stores::run, 4);
}

/// A create whose blob cannot be written ends with that failure and changes
/// neither store.
pub proof fn create_without_blob_changes_nothing(
    stores: Stores,
    data: Seq<u8>,
    media: MediaTypeView,
    image: ImageView,
    failure: FailureView,
)
    ensures
        stores.run(insert_image_spec(data, media, image), fail_then(failure, no_faults())) == (
            stores,
            Err::<(), FailureView>(failure),
        ),
{
    lemma_fail_then(failure, no_faults());
    reveal_with_fuel(Stores::run, 4);
}

/// An update that changes the slug and brings no new bytes renames the file:
/// where nothing fails, the record is found under the new slug only, its
/// file name is the new slug, a dot and the extension of the old file name,
/// and the file of that name holds the bytes of the old file. Where the
/// old file name is a plain name, that extension is what follows its last
/// dot, or `jpg` where nothing does.
pub proof fn update_slug_renames_blob(stores: Stores, old_slug: Seq<char>, image: ImageView)
    requires
        stores.well_formed(),
        stores.has_row(old_slug),
        stores.has_blob(stores.rows[old_slug].filename),
        image.slug != old_slug,
        !stores.has_row(image.slug),
    ensures
        ({
            let old_name = stores.rows[old_slug].filename;
            let kept = kept_extension((stores.extension)(old_name));
            let name = image.slug + seq!['.'] + kept;
            let (after, outcome) = stores.run(
                update_image_spec(old_slug, None, image),
                no_faults(),
            );
            &&& outcome is Ok
            &&& after.well_formed()
            &&& after.get_by_slug(image.slug) == ReplyView::Row(image.with_filename(name))
            &&& ends_with(name, kept)
            &&& is_plain_name(old_name) ==> kept == kept_extension(plain_extension(old_name))
            &&& !after.has_row(old_slug)
            &&& after.has_blob(name)
            &&& after.blobs[name] == stores.blobs[old_name]
            &&& name != old_name ==> !after.has_blob(old_name)
        }),
{
    reveal_with_fuel(Stores::run, 4);
    let old_name = stores.rows[old_slug].filename;
    let kept = kept_extension((stores.extension)(old_name));
    let name = image.slug + seq!['.'] + kept;
    assert(name.subrange(name.len() - kept.len(), name.len() as int) =~= kept);
}

/// An update that keeps the slug and brings no new bytes touches no file:
/// where nothing fails, the record takes the new metadata and keeps its file
/// name, and the blob store is as it was.
pub proof fn update_metadata_keeps_blob(stores: Stores, slug: Seq<char>, image: ImageView)
    requires
        stores.well_formed(),
        stores.has_row(slug),
        image.slug == slug,
    ensures
        ({
            let (after, outcome) = stores.run(update_image_spec(slug, None, image), no_faults());
            &&& outcome is Ok
            &&& after.well_formed()
            &&& after.get_by_slug(slug) == ReplyView::Row(
                image.with_filename(stores.rows[slug].filename),
            )
            &&& after.blobs == stores.blobs
        }),
{
    reveal_with_fuel(Stores::run, 4);
}

/// An update with new bytes replaces the file: where nothing fails and the
/// new slug is free or unchanged, the record is found under the new slug
/// with the file name that the blob store assigned to the new bytes, and
/// the file of that name holds them. The old file is gone unless the new
/// one took its name.
pub proof fn update_replaces_blob(
    stores: Stores,
    old_slug: Seq<char>,
    data: Seq<u8>,
    media: MediaTypeView,
    image: ImageView,
)
    requires
        stores.well_formed(),
        stores.has_row(old_slug),
        image.slug == old_slug || !stores.has_row(image.slug),
    ensures
        ({
            let old_name = stores.rows[old_slug].filename;
            let name = stored_filename(image.slug, media);
            let (after, outcome) = stores.run(
                update_image_spec(old_slug, Some((data, media)), image),
                no_faults(),
            );
            &&& outcome is Ok
            &&& after.well_formed()
            &&& after.get_by_slug(image.slug) == ReplyView::Row(image.with_filename(name))
            &&& after.has_blob(name)
            &&& after.blobs[name] == data
            &&& name != old_name ==> !after.has_blob(old_name)
        }),
{
    reveal_with_fuel(Stores::run, 5);
}

/// An update whose old file cannot be deleted ends with that failure and
/// changes neither store.
pub proof fn update_aborts_when_old_blob_stays(
    stores: Stores,
    old_slug: Seq<char>,
    data: Seq<u8>,
    media: MediaTypeView,
    image: ImageView,
    failure: FailureView,
)
    requires
        stores.has_row(old_slug),
    ensures
        stores.run(
            update_image_spec(old_slug, Some((data, media)), image),
            pass_then(fail_then(failure, no_faults())),
        ) == (stores, Err::<(), FailureView>(failure)),
{
    lemma_pass_then(fail_then(failure, no_faults()));
    lemma_fail_then(failure, no_faults());
    reveal_with_fuel(Stores::run, 5);
}

/// An operation on a slug that the catalog does not hold: update and delete
/// end with `NotFound` and change neither store.
pub proof fn missing_slug_is_not_found(
    stores: Stores,
    slug: Seq<char>,
    replacement: Option<(Seq<u8>, MediaTypeView)>,
    image: ImageView,
)
    requires
        !stores.has_row(slug),
    ensures
        stores.run(update_image_spec(slug, replacement, image), no_faults()) == (
            stores,
            Err::<(), FailureView>(not_found()),
        ),
        stores.run(delete_image_spec(slug), no_faults()) == (
            stores,
            Err::<(), FailureView>(not_found()),
        ),
{
    reveal_with_fuel(Stores::run, 4);
}

/// An operation leaves every record filed under its own slug, whatever
/// it is and whatever fails.
pub proof fn run_keeps_well_formed(stores: Stores, step: StepView, faults: Seq<Option<FailureView>>)
    requires
        stores.well_formed(),
    ensures
        stores.run(step, faults).0.well_formed(),
    decreases requests_left(step),
{
    match step {
        StepView::Finish { .. } => {},
        StepView::Call { request, pending } => {
            let (next, reply) = stores.answer_under(request, next_fault(faults));
            assert(next.well_formed());
            run_keeps_well_formed(next, resume_spec(pending, reply), later_faults(faults));
        },
    }
}

/// An operation makes at most four requests: one more than three cannot be
/// failed, because the operation is over before.
pub proof fn run_ends_within_four_requests(step: StepView)
    ensures
        requests_left(step) <= 4,
        step matches StepView::Call { pending, .. } ==> forall|reply: ReplyView|
            requests_left(#[trigger] resume_spec(pending, reply)) < requests_left(step),
{
}

/// An update whose record cannot be replaced ends with that failure and
/// leaves the file as the update made it: the rename is not undone, and
/// the catalog is as it was.
pub proof fn update_keeps_the_blob_when_the_catalog_fails(
    stores: Stores,
    old_slug: Seq<char>,
    image: ImageView,
    failure: FailureView,
)
    requires
        stores.has_row(old_slug),
        stores.has_blob(stores.rows[old_slug].filename),
        image.slug != old_slug,
    ensures
        ({
            let old_name = stores.rows[old_slug].filename;
            let name = renamed_filename(image.slug, (stores.extension)(old_name));
            let faults = pass_then(pass_then(fail_then(failure, no_faults())));
            let (after, outcome) = stores.run(update_image_spec(old_slug, None, image), faults);
            &&& outcome == Err::<(), FailureView>(failure)
            &&& after.rows == stores.rows
            &&& after.has_blob(name)
            &&& after.blobs[name] == stores.blobs[old_name]
        }),
{
    let rest2 = fail_then(failure, no_faults());
    let rest1 = pass_then(rest2);
    lemma_pass_then(rest1);
    lemma_pass_then(rest2);
    lemma_fail_then(failure, no_faults());
    reveal_with_fuel(Stores::run, 5);
}

/// An update with new bytes whose new file cannot be written ends with
/// that failure after the old file is gone: the record stays, without a
/// file, until the update is made again.
pub proof fn update_can_leave_a_record_without_its_blob(
    stores: Stores,
    old_slug: Seq<char>,
    data: Seq<u8>,
    media: MediaTypeView,
    image: ImageView,
    failure: FailureView,
)
    requires
        stores.has_row(old_slug),
    ensures
        ({
            let old_name = stores.rows[old_slug].filename;
            let faults = pass_then(pass_then(fail_then(failure, no_faults())));
            let (after, outcome) = stores.run(
                update_image_spec(old_slug, Some((data, media)), image),
                faults,
            );
            &&& outcome == Err::<(), FailureView>(failure)
            &&& after.rows == stores.rows
            &&& after.blobs == stores.blobs.remove(old_name)
        }),
{
    let rest2 = fail_then(failure, no_faults());
    let rest1 = pass_then(rest2);
    lemma_pass_then(rest1);
    lemma_pass_then(rest2);
    lemma_fail_then(failure, no_faults());
    reveal_with_fuel(Stores::run, 5);
}

/// A file that the blob store wrote keeps the extension of its media type
/// when its image takes another slug: where the old slug is a plain name
/// and nothing fails, the record is found under the new slug with the new
/// slug, a dot and that extension as its file name, and the file of that
/// name holds the bytes of the old file.
pub proof fn renamed_blob_keeps_the_media_extension(
    stores: Stores,
    old_slug: Seq<char>,
    media: MediaTypeView,
    image: ImageView,
)
    requires
        stores.well_formed(),
        stores.has_row(old_slug),
        old_slug.len() > 0,
        is_plain_name(old_slug),
        stores.rows[old_slug].filename == stored_filename(old_slug, media),
        stores.has_blob(stored_filename(old_slug, media)),
        image.slug != old_slug,
        !stores.has_row(image.slug),
    ensures
        ({
            let old_name = stored_filename(old_slug, media);
            let name = image.slug + seq!['.'] + extension_for(media);
            let (after, outcome) = stores.run(
                update_image_spec(old_slug, None, image),
                no_faults(),
            );
            &&& outcome is Ok
            &&& after.get_by_slug(image.slug) == ReplyView::Row(image.with_filename(name))
            &&& ends_with(name, extension_for(media))
            &&& after.has_blob(name)
            &&& after.blobs[name] == stores.blobs[old_name]
        }),
{
    stored_filename_has_its_extension(old_slug, media);
    update_slug_renames_blob(stores, old_slug, image);
    let old_name = stored_filename(old_slug, media);
    assert((stores.extension)(old_name) == plain_extension(old_name));
}

/// An update to a slug that another record holds ends with
/// `DuplicateSlug` and leaves the catalog as it was. The file is as the
/// update made it by then: renamed where it brought no new bytes, replaced
/// where it did. Where the file to rename is missing, the update ends with
/// the failure of the blob store before it reaches the catalog.
pub proof fn update_to_a_taken_slug(
    stores: Stores,
    old_slug: Seq<char>,
    replacement: Option<(Seq<u8>, MediaTypeView)>,
    image: ImageView,
)
    requires
        stores.has_row(old_slug),
        stores.has_row(image.slug),
        image.slug != old_slug,
    ensures
        ({
            let old_name = stores.rows[old_slug].filename;
            let (after, outcome) = stores.run(
                update_image_spec(old_slug, replacement, image),
                no_faults(),
            );
            &&& after.rows == stores.rows
            &&& (replacement is Some || stores.has_blob(old_name)) ==> outcome == Err::<
                (),
                FailureView,
            >(duplicate_slug())
            &&& (replacement is None && !stores.has_blob(old_name)) ==> outcome == Err::<
                (),
                FailureView,
            >(missing_file()) && after == stores
        }),
{
    reveal_with_fuel(Stores::run, 5);
}

} // verus!
