//! The asset coordinator: create, update and delete of an image as a
//! sequence of requests to the blob store and the catalog, with the
//! compensation that a partial failure calls for.
//!
//! The coordinator performs no request itself. Each operation is a small
//! state machine: it names the next request, the caller performs it against
//! the stores and hands back the reply, and the machine names the request
//! after that or the outcome of the operation.

use crate::files::{is_plain_name, plain_extension, ImageFileManager};
use crate::media::{extension_media, MediaType, MediaTypeView};
use crate::models::{ErrorKind, Failure, FailureView, Image, ImageView};
use vstd::prelude::*;
use vstd::string::*;

verus! {

/// A request to the blob store or to the catalog.
#[derive(Debug, Clone, PartialEq, Eq)]
pub enum StoreRequest {
    /// Write the bytes as the blob of the image with this slug and media
    /// type. The blob store answers with the name of the file.
    SaveBlob { data: Vec<u8>, slug: String, media: MediaType },
    /// Delete the file of this name. A file that does not exist counts as deleted.
    DeleteBlob { filename: String },
    /// Rename the file, keeping its extension. The blob store answers with
    /// the new name of the file.
    RenameBlob { filename: String, new_base: String },
    /// Read the record with this slug.
    ReadRow { slug: String },
    /// Add the record to the catalog.
    InsertRow { image: Image },
    /// Replace the record that has this slug.
    UpdateRow { slug: String, image: Image },
    /// Remove the record that has this slug.
    DeleteRow { slug: String },
}

/// What a `StoreRequest` holds, as mathematical values.
pub enum RequestView {
    SaveBlob { data: Seq<u8>, slug: Seq<char>, media: MediaTypeView },
    DeleteBlob { filename: Seq<char> },
    RenameBlob { filename: Seq<char>, new_base: Seq<char> },
    ReadRow { slug: Seq<char> },
    InsertRow { image: ImageView },
    UpdateRow { slug: Seq<char>, image: ImageView },
    DeleteRow { slug: Seq<char> },
}

impl View for StoreRequest {
    type V = RequestView;

    open spec fn view(&self) -> RequestView {
        match *self {
            StoreRequest::SaveBlob { data, slug, media } => RequestView::SaveBlob {
                data: data@,
                slug: slug@,
                media: media@,
            },
            StoreRequest::DeleteBlob { filename } => RequestView::DeleteBlob { filename: filename@ },
            StoreRequest::RenameBlob { filename, new_base } => RequestView::RenameBlob {
                filename: filename@,
                new_base: new_base@,
            },
            StoreRequest::ReadRow { slug } => RequestView::ReadRow { slug: slug@ },
            StoreRequest::InsertRow { image } => RequestView::InsertRow { image: image@ },
            StoreRequest::UpdateRow { slug, image } => RequestView::UpdateRow {
                slug: slug@,
                image: image@,
            },
            StoreRequest::DeleteRow { slug } => RequestView::DeleteRow { slug: slug@ },
        }
    }
}

/// The reply of a store to a request.
#[derive(Debug, Clone, PartialEq, Eq)]
pub enum StoreReply {
    /// The request succeeded and has nothing to report.
    Done,
    /// The blob store wrote or renamed a file: its name.
    Filename(String),
    /// The catalog found the record.
    Row(Image),
    /// The request failed.
    Failed(Failure),
}

/// What a `StoreReply` holds, as mathematical values.
pub enum ReplyView {
    Done,
    Filename(Seq<char>),
    Row(ImageView),
    Failed(FailureView),
}

impl View for StoreReply {
    type V = ReplyView;

    open spec fn view(&self) -> ReplyView {
        match *self {
            StoreReply::Done => ReplyView::Done,
            StoreReply::Filename(name) => ReplyView::Filename(name@),
            StoreReply::Row(image) => ReplyView::Row(image@),
            StoreReply::Failed(failure) => ReplyView::Failed(failure@),
        }
    }
}

/// An operation that waits for the reply to the request it made last.
#[derive(Debug, Clone, PartialEq, Eq)]
pub enum Pending {
    /// Create: the blob is being written.
    CreateSaving { image: Image },
    /// Create: the record is being added; the blob has this name.
    CreateInserting { filename: String },
    /// Create: the record was refused for this cause and the blob that was
    /// written for it is being deleted.
    CreateCompensating { cause: Failure },
    /// Update: the record as it stands is being read.
    UpdateReading { old_slug: String, image: Image, replacement: Option<(Vec<u8>, MediaType)> },
    /// Update: the old blob is being deleted to make room for new bytes.
    UpdateDeletingOld { old_slug: String, image: Image, data: Vec<u8>, media: MediaType },
    /// Update: the blob is being written or renamed.
    UpdateStoring { old_slug: String, image: Image },
    /// Update: the record is being replaced.
    UpdateWriting,
    /// Delete: the record is being read.
    DeleteReading { slug: String },
    /// Delete: the blob is being deleted.
    DeleteRemovingBlob { slug: String },
    /// Delete: the record is being removed.
    DeleteRemovingRow,
}

/// What a `Pending` holds, as mathematical values.
pub enum PendingView {
    CreateSaving { image: ImageView },
    CreateInserting { filename: Seq<char> },
    CreateCompensating { cause: FailureView },
    UpdateReading {
        old_slug: Seq<char>,
        image: ImageView,
        replacement: Option<(Seq<u8>, MediaTypeView)>,
    },
    UpdateDeletingOld { old_slug: Seq<char>, image: ImageView, data: Seq<u8>, media: MediaTypeView },
    UpdateStoring { old_slug: Seq<char>, image: ImageView },
    UpdateWriting,
    DeleteReading { slug: Seq<char> },
    DeleteRemovingBlob { slug: Seq<char> },
    DeleteRemovingRow,
}

/// New bytes for an image and their media type, as mathematical values.
pub open spec fn replacement_view(replacement: Option<(Vec<u8>, MediaType)>) -> Option<
    (Seq<u8>, MediaTypeView),
> {
    match replacement {
        Some((data, media)) => Some((data@, media@)),
        None => None,
    }
}

impl View for Pending {
    type V = PendingView;

    open spec fn view(&self) -> PendingView {
        match *self {
            Pending::CreateSaving { image } => PendingView::CreateSaving { image: image@ },
            Pending::CreateInserting { filename } => PendingView::CreateInserting {
                filename: filename@,
            },
            Pending::CreateCompensating { cause } => PendingView::CreateCompensating {
                cause: cause@,
            },
            Pending::UpdateReading { old_slug, image, replacement } => PendingView::UpdateReading {
                old_slug: old_slug@,
                image: image@,
                replacement: replacement_view(replacement),
            },
            Pending::UpdateDeletingOld { old_slug, image, data, media } => {
                PendingView::UpdateDeletingOld {
                    old_slug: old_slug@,
                    image: image@,
                    data: data@,
                    media: media@,
                }
            },
            Pending::UpdateStoring { old_slug, image } => PendingView::UpdateStoring {
                old_slug: old_slug@,
                image: image@,
            },
            Pending::UpdateWriting => PendingView::UpdateWriting,
            Pending::DeleteReading { slug } => PendingView::DeleteReading { slug: slug@ },
            Pending::DeleteRemovingBlob { slug } => PendingView::DeleteRemovingBlob { slug: slug@ },
            Pending::DeleteRemovingRow => PendingView::DeleteRemovingRow,
        }
    }
}

/// What an operation asks of its caller next.
#[derive(Debug, PartialEq, Eq)]
pub enum Step {
    /// Perform the request and resume `pending` with the reply.
    Call { request: StoreRequest, pending: Pending },
    /// The operation is over.
    Finish { outcome: Result<(), Failure> },
}

/// What a `Step` holds, as mathematical values.
pub enum StepView {
    Call { request: RequestView, pending: PendingView },
    Finish { outcome: Result<(), FailureView> },
}

impl View for Step {
    type V = StepView;

    open spec fn view(&self) -> StepView {
        match *self {
            Step::Call { request, pending } => StepView::Call {
                request: request@,
                pending: pending@,
            },
            Step::Finish { outcome } => StepView::Finish {
                outcome: match outcome {
                    Ok(_) => Ok(()),
                    Err(failure) => Err(failure@),
                },
            },
        }
    }
}

/// The failure that ends an operation when a store answers with a reply
/// that does not fit the request.
pub open spec fn unexpected_reply() -> FailureView {
    FailureView { kind: ErrorKind::InternalFailure, detail: "unexpected reply from the store"@ }
}

/// The end of an operation that failed.
pub open spec fn failed(failure: FailureView) -> StepView {
    StepView::Finish { outcome: Err(failure) }
}

/// The end of an operation that succeeded.
pub open spec fn succeeded() -> StepView {
    StepView::Finish { outcome: Ok(()) }
}

/// The first step of a create: write the blob under the slug of the image.
pub open spec fn insert_image_spec(data: Seq<u8>, media: MediaTypeView, image: ImageView) -> StepView {
    StepView::Call {
        request: RequestView::SaveBlob { data, slug: image.slug, media },
        pending: PendingView::CreateSaving { image },
    }
}

/// The first step of an update: read the record as it stands.
pub open spec fn update_image_spec(
    old_slug: Seq<char>,
    replacement: Option<(Seq<u8>, MediaTypeView)>,
    image: ImageView,
) -> StepView {
    StepView::Call {
        request: RequestView::ReadRow { slug: old_slug },
        pending: PendingView::UpdateReading { old_slug, image, replacement },
    }
}

/// The first step of a delete: read the record.
pub open spec fn delete_image_spec(slug: Seq<char>) -> StepView {
    StepView::Call {
        request: RequestView::ReadRow { slug },
        pending: PendingView::DeleteReading { slug },
    }
}

/// How an update goes on once the record as it stands is known. With new
/// bytes the old blob is deleted first. Without them the blob is renamed
/// where the slug changes, and otherwise keeps its name.
pub open spec fn after_update_read(
    old_slug: Seq<char>,
    image: ImageView,
    replacement: Option<(Seq<u8>, MediaTypeView)>,
    existing: ImageView,
) -> StepView {
    match replacement {
        Some((data, media)) => StepView::Call {
            request: RequestView::DeleteBlob { filename: existing.filename },
            pending: PendingView::UpdateDeletingOld { old_slug, image, data, media },
        },
        None => if old_slug != image.slug {
            StepView::Call {
                request: RequestView::RenameBlob {
                    filename: existing.filename,
                    new_base: image.slug,
                },
                pending: PendingView::UpdateStoring { old_slug, image },
            }
        } else {
            StepView::Call {
                request: RequestView::UpdateRow {
                    slug: old_slug,
                    image: image.with_filename(existing.filename),
                },
                pending: PendingView::UpdateWriting,
            }
        },
    }
}

/// The step that follows when a pending operation receives a reply.
///
/// A failed request ends the operation with that failure, with one
/// exception: when the catalog refuses the record of a create, the blob that
/// was written for it is deleted first, and the operation then ends with the
/// catalog's failure whatever became of the deletion.
pub open spec fn resume_spec(pending: PendingView, reply: ReplyView) -> StepView {
    match pending {
        PendingView::CreateSaving { image } => match reply {
            ReplyView::Filename(filename) => StepView::Call {
                request: RequestView::InsertRow { image: image.with_filename(filename) },
                pending: PendingView::CreateInserting { filename },
            },
            ReplyView::Failed(failure) => failed(failure),
            _ => failed(unexpected_reply()),
        },
        PendingView::CreateInserting { filename } => match reply {
            ReplyView::Done => succeeded(),
            ReplyView::Failed(failure) => StepView::Call {
                request: RequestView::DeleteBlob { filename },
                pending: PendingView::CreateCompensating { cause: failure },
            },
            _ => failed(unexpected_reply()),
        },
        PendingView::CreateCompensating { cause } => failed(cause),
        PendingView::UpdateReading { old_slug, image, replacement } => match reply {
            ReplyView::Row(existing) => after_update_read(old_slug, image, replacement, existing),
            ReplyView::Failed(failure) => failed(failure),
            _ => failed(unexpected_reply()),
        },
        PendingView::UpdateDeletingOld { old_slug, image, data, media } => match reply {
            ReplyView::Done => StepView::Call {
                request: RequestView::SaveBlob { data, slug: image.slug, media },
                pending: PendingView::UpdateStoring { old_slug, image },
            },
            ReplyView::Failed(failure) => failed(failure),
            _ => failed(unexpected_reply()),
        },
        PendingView::UpdateStoring { old_slug, image } => match reply {
            ReplyView::Filename(filename) => StepView::Call {
                request: RequestView::UpdateRow {
                    slug: old_slug,
                    image: image.with_filename(filename),
                },
                pending: PendingView::UpdateWriting,
            },
            ReplyView::Failed(failure) => failed(failure),
            _ => failed(unexpected_reply()),
        },
        PendingView::UpdateWriting => match reply {
            ReplyView::Done => succeeded(),
            ReplyView::Failed(failure) => failed(failure),
            _ => failed(unexpected_reply()),
        },
        PendingView::DeleteReading { slug } => match reply {
            ReplyView::Row(existing) => StepView::Call {
                request: RequestView::DeleteBlob { filename: existing.filename },
                pending: PendingView::DeleteRemovingBlob { slug },
            },
            ReplyView::Failed(failure) => failed(failure),
            _ => failed(unexpected_reply()),
        },
        PendingView::DeleteRemovingBlob { slug } => match reply {
            ReplyView::Done => StepView::Call {
                request: RequestView::DeleteRow { slug },
                pending: PendingView::DeleteRemovingRow,
            },
            ReplyView::Failed(failure) => failed(failure),
            _ => failed(unexpected_reply()),
        },
        PendingView::DeleteRemovingRow => match reply {
            ReplyView::Done => succeeded(),
            ReplyView::Failed(failure) => failed(failure),
            _ => failed(unexpected_reply()),
        },
    }
}

/// Ends an operation on a reply that does not fit its request.
fn give_up() -> (r: Step)
    ensures
        r@ == failed(unexpected_reply()),
{
    let detail = String::from_str("unexpected reply from the store");
    Step::Finish { outcome: Err(Failure::new(ErrorKind::InternalFailure, detail)) }
}

/// Ends an operation with the failure that a store reported.
fn fail(failure: Failure) -> (r: Step)
    ensures
        r@ == failed(failure@),
{
    Step::Finish { outcome: Err(failure) }
}

/// Starts the creation of an image from its bytes, their media type and its
/// metadata. The file name in `image` is ignored: the blob store assigns it.
pub fn insert_image(image_data: Vec<u8>, mime_type: MediaType, image: Image) -> (r: Step)
    ensures
        r@ == insert_image_spec(image_data@, mime_type@, image@),
{
    let slug = image.slug.clone();
    Step::Call {
        request: StoreRequest::SaveBlob { data: image_data, slug, media: mime_type },
        pending: Pending::CreateSaving { image },
    }
}

/// Starts the creation of an image whose bytes were read from a file, given
/// the extension of the file's path: the media type is the one that the
/// extension stands for.
pub fn insert_image_with_extension(
    extension: Option<&str>,
    image_data: Vec<u8>,
    image: Image,
) -> (r: Step)
    ensures
        r@ == insert_image_spec(
            image_data@,
            extension_media(
                match extension {
                    Some(e) => Some(e@),
                    None => None,
                },
            ),
            image@,
        ),
{
    insert_image(image_data, MediaType::from_extension(extension), image)
}

/// Starts the creation of an image whose bytes were read from the file at
/// `source_path`: the media type is the one that the extension of the path
/// stands for, as the platform's path rules read it. Where the path is a
/// plain name, that extension is what follows its last dot.
pub fn insert_image_from_path(source_path: &str, image_data: Vec<u8>, image: Image) -> (r: Step)
    ensures
        exists|e: Option<Seq<char>>| #[trigger]
            insert_image_spec(image_data@, extension_media(e), image@) == r@,
        is_plain_name(source_path@) ==> r@ == insert_image_spec(
            image_data@,
            extension_media(plain_extension(source_path@)),
            image@,
        ),
{
    match ImageFileManager::extension_of(source_path) {
        Some(e) => {
            let r = insert_image_with_extension(Some(e.as_str()), image_data, image);
            assert(insert_image_spec(image_data@, extension_media(Some(e@)), image@) == r@);
            r
        },
        None => {
            let r = insert_image_with_extension(None, image_data, image);
            assert(insert_image_spec(image_data@, extension_media(None), image@) == r@);
            r
        },
    }
}

/// The failure of a file operation with the words of the file system.
pub open spec fn io_failure(words: Seq<char>) -> FailureView {
    FailureView { kind: ErrorKind::IOFailure, detail: words }
}

/// The reply of the blob store to a save or a rename, given the name of
/// the file that was written or renamed, or the words of the error that
/// the file system reported: such an error is an `IOFailure`.
pub fn file_named(outcome: Result<String, String>) -> (r: StoreReply)
    ensures
        r@ == match outcome {
            Ok(name) => ReplyView::Filename(name@),
            Err(words) => ReplyView::Failed(io_failure(words@)),
        },
{
    match outcome {
        Ok(name) => StoreReply::Filename(name),
        Err(words) => StoreReply::Failed(Failure::io(words)),
    }
}

/// The reply of the blob store to a delete, given the words of the error
/// that the file system reported, if any: such an error is an `IOFailure`.
pub fn file_removed(outcome: Result<(), String>) -> (r: StoreReply)
    ensures
        r@ == match outcome {
            Ok(_) => ReplyView::Done,
            Err(words) => ReplyView::Failed(io_failure(words@)),
        },
{
    match outcome {
        Ok(_) => StoreReply::Done,
        Err(words) => StoreReply::Failed(Failure::io(words)),
    }
}

/// Starts the update of the image that has the slug `old_slug` to the
/// metadata in `image`, with new bytes where `image_data` holds any.
pub fn update_image(
    old_slug: String,
    image_data: Option<(Vec<u8>, MediaType)>,
    image: Image,
) -> (r: Step)
    ensures
        r@ == update_image_spec(old_slug@, replacement_view(image_data), image@),
{
    let slug = old_slug.clone();
    Step::Call {
        request: StoreRequest::ReadRow { slug },
        pending: Pending::UpdateReading { old_slug, image, replacement: image_data },
    }
}

/// Starts the deletion of the image that has this slug.
pub fn delete_image(slug: String) -> (r: Step)
    ensures
        r@ == delete_image_spec(slug@),
{
    let key = slug.clone();
    Step::Call {
        request: StoreRequest::ReadRow { slug: key },
        pending: Pending::DeleteReading { slug },
    }
}

/// Goes on with an update once the record as it stands has been read.
fn continue_update(
    old_slug: String,
    image: Image,
    replacement: Option<(Vec<u8>, MediaType)>,
    existing: Image,
) -> (r: Step)
    ensures
        r@ == after_update_read(old_slug@, image@, replacement_view(replacement), existing@),
{
    match replacement {
        Some((data, media)) => Step::Call {
            request: StoreRequest::DeleteBlob { filename: existing.filename },
            pending: Pending::UpdateDeletingOld { old_slug, image, data, media },
        },
        None => {
            if old_slug != image.slug {
                let new_base = image.slug.clone();
                Step::Call {
                    request: StoreRequest::RenameBlob { filename: existing.filename, new_base },
                    pending: Pending::UpdateStoring { old_slug, image },
                }
            } else {
                Step::Call {
                    request: StoreRequest::UpdateRow {
                        slug: old_slug,
                        image: image.with_filename(existing.filename),
                    },
                    pending: Pending::UpdateWriting,
                }
            }
        },
    }
}

impl Pending {
    /// Takes the reply to the request that was made last and names the next
    /// step of the operation.
    pub fn resume(self, reply: StoreReply) -> (r: Step)
        ensures
            r@ == resume_spec(self@, reply@),
    {
        match self {
            Pending::CreateSaving { image } => match reply {
                StoreReply::Filename(filename) => {
                    let stored = filename.clone();
                    Step::Call {
                        request: StoreRequest::InsertRow { image: image.with_filename(filename) },
                        pending: Pending::CreateInserting { filename: stored },
                    }
                },
                StoreReply::Failed(failure) => fail(failure),
                _ => give_up(),
            },
            Pending::CreateInserting { filename } => match reply {
                StoreReply::Done => Step::Finish { outcome: Ok(()) },
                StoreReply::Failed(failure) => Step::Call {
                    request: StoreRequest::DeleteBlob { filename },
                    pending: Pending::CreateCompensating { cause: failure },
                },
                _ => give_up(),
            },
            Pending::CreateCompensating { cause } => fail(cause),
            Pending::UpdateReading { old_slug, image, replacement } => match reply {
                StoreReply::Row(existing) => continue_update(old_slug, image, replacement, existing),
                StoreReply::Failed(failure) => fail(failure),
                _ => give_up(),
            },
            Pending::UpdateDeletingOld { old_slug, image, data, media } => match reply {
                StoreReply::Done => {
                    let slug = image.slug.clone();
                    Step::Call {
                        request: StoreRequest::SaveBlob { data, slug, media },
                        pending: Pending::UpdateStoring { old_slug, image },
                    }
                },
                StoreReply::Failed(failure) => fail(failure),
                _ => give_up(),
            },
            Pending::UpdateStoring { old_slug, image } => match reply {
                StoreReply::Filename(filename) => Step::Call {
                    request: StoreRequest::UpdateRow {
                        slug: old_slug,
                        image: image.with_filename(filename),
                    },
                    pending: Pending::UpdateWriting,
                },
                StoreReply::Failed(failure) => fail(failure),
                _ => give_up(),
            },
            Pending::UpdateWriting => match reply {
                StoreReply::Done => Step::Finish { outcome: Ok(()) },
                StoreReply::Failed(failure) => fail(failure),
                _ => give_up(),
            },
            Pending::DeleteReading { slug } => match reply {
                StoreReply::Row(existing) => Step::Call {
                    request: StoreRequest::DeleteBlob { filename: existing.filename },
                    pending: Pending::DeleteRemovingBlob { slug },
                },
                StoreReply::Failed(failure) => fail(failure),
                _ => give_up(),
            },
            Pending::DeleteRemovingBlob { slug } => match reply {
                StoreReply::Done => Step::Call {
                    request: StoreRequest::DeleteRow { slug },
                    pending: Pending::DeleteRemovingRow,
                },
                StoreReply::Failed(failure) => fail(failure),
                _ => give_up(),
            },
            Pending::DeleteRemovingRow => match reply {
                StoreReply::Done => Step::Finish { outcome: Ok(()) },
                StoreReply::Failed(failure) => fail(failure),
                _ => give_up(),
            },
        }
    }
}

} // verus!
