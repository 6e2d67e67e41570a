//! The catalog as the database holds it: how a record becomes a row and a
//! row a record, and what the answers of the database mean to the
//! coordinator.

use crate::commands::{ReplyView, StoreReply};
use crate::models::{ErrorKind, Failure, FailureView, Image, ImageView, User};
use vstd::prelude::*;
use vstd::string::*;

verus! {

/// `rusqlite::Error`, the error of every call into the database. The
/// library looks into it only through the two functions below.
#[verifier::external_type_specification]
#[verifier::external_body]
pub struct ExDatabaseError(rusqlite::Error);

/// The list of keywords that `serde_json` reads from a text, or `None` where
/// the text is not the JSON form of a list of strings.
pub uninterp spec fn keywords_from_json(text: Seq<char>) -> Option<Seq<Seq<char>>>;

/// The JSON text that `serde_json` writes for a list of keywords, or `None`
/// where it reports an error.
pub uninterp spec fn keywords_to_json(keywords: Seq<Seq<char>>) -> Option<Seq<char>>;

/// Calls `serde_json::from_str::<Vec<String>>`. The contract claims only
/// that the outcome is the one that `keywords_from_json` names for the text.
#[verifier::external_body]
fn json_read_keywords(text: &str) -> (r: Option<Vec<String>>)
    ensures
        match r {
            Some(k) => keywords_from_json(text@) == Some(k.deep_view()),
            None => keywords_from_json(text@) is None,
        },
{
    match serde_json::from_str::<Vec<String>>(text) {
        Ok(keywords) => Some(keywords),
        Err(_) => None,
    }
}

/// Calls `serde_json::to_string` on a list of strings. The contract claims
/// only that the outcome is the one that `keywords_to_json` names for the list.
#[verifier::external_body]
fn json_write_keywords(keywords: &Vec<String>) -> (r: Option<String>)
    ensures
        match r {
            Some(text) => keywords_to_json(keywords.deep_view()) == Some(text@),
            None => keywords_to_json(keywords.deep_view()) is None,
        },
{
    match serde_json::to_string(keywords) {
        Ok(text) => Some(text),
        Err(_) => None,
    }
}

/// What the database reported, as far as the catalog tells its errors apart.
#[derive(Debug, Clone, Copy, PartialEq, Eq, Structural)]
pub enum DbErrorClass {
    /// A query that should have found a row found none.
    NoRows,
    /// A constraint of the schema was violated: for the catalog, the
    /// uniqueness of the slug.
    Constraint,
    /// Any other error.
    Other,
}

/// The class of an error of the database: `NoRows` for the variant
/// `QueryReturnedNoRows` of `rusqlite::Error`, `Constraint` for a failure
/// of SQLite whose code is `ConstraintViolation`, and `Other` for the rest.
pub uninterp spec fn database_class(error: rusqlite::Error) -> DbErrorClass;

/// The words in which an error of the database displays itself.
pub uninterp spec fn database_text(error: rusqlite::Error) -> Seq<char>;

/// Tells the variants of `rusqlite::Error` apart: `QueryReturnedNoRows`, a
/// failure of SQLite whose code is `ConstraintViolation`, and the rest.
/// The contract claims only that the result is the class that
/// `database_class` names for the error.
#[verifier::external_body]
fn database_error_class(error: &rusqlite::Error) -> (r: DbErrorClass)
    ensures
        r == database_class(*error),
{
    match error {
        rusqlite::Error::QueryReturnedNoRows => DbErrorClass::NoRows,
        rusqlite::Error::SqliteFailure(failure, _) => match failure.code {
            rusqlite::ErrorCode::ConstraintViolation => DbErrorClass::Constraint,
            _ => DbErrorClass::Other,
        },
        _ => DbErrorClass::Other,
    }
}

/// The words in which a `rusqlite::Error` displays itself. The contract
/// claims only that they are the ones that `database_text` names for the error.
#[verifier::external_body]
fn database_error_text(error: &rusqlite::Error) -> (r: String)
    ensures
        r@ == database_text(*error),
{
    error.to_string()
}

/// The kind of failure that a class of database errors stands for in the
/// catalog, where the one constraint is that no two images share a slug.
pub open spec fn kind_of_class(class: DbErrorClass) -> ErrorKind {
    match class {
        DbErrorClass::NoRows => ErrorKind::NotFound,
        DbErrorClass::Constraint => ErrorKind::DuplicateSlug,
        DbErrorClass::Other => ErrorKind::InternalFailure,
    }
}

/// The failure that a database error of the given class and wording stands for.
pub fn classify(class: DbErrorClass, detail: String) -> (r: Failure)
    ensures
        r@ == (FailureView { kind: kind_of_class(class), detail: detail@ }),
{
    let kind = match class {
        DbErrorClass::NoRows => ErrorKind::NotFound,
        DbErrorClass::Constraint => ErrorKind::DuplicateSlug,
        DbErrorClass::Other => ErrorKind::InternalFailure,
    };
    Failure::new(kind, detail)
}

/// The failure that an error of the database stands for in the catalog:
/// `NotFound` where a query found no row, `DuplicateSlug` where a
/// constraint was violated, and `InternalFailure` otherwise, each with the
/// words of the error.
pub fn failure_from_database(error: &rusqlite::Error) -> (r: Failure)
    ensures
        r@ == (FailureView {
            kind: kind_of_class(database_class(*error)),
            detail: database_text(*error),
        }),
{
    classify(database_error_class(error), database_error_text(error))
}

/// The kind of failure that a class of database errors stands for outside
/// the catalog, in the tables of accounts and sessions: a row that is
/// missing is `NotFound`, and every other error is an `InternalFailure`.
pub open spec fn kind_outside_catalog(class: DbErrorClass) -> ErrorKind {
    match class {
        DbErrorClass::NoRows => ErrorKind::NotFound,
        DbErrorClass::Constraint => ErrorKind::InternalFailure,
        DbErrorClass::Other => ErrorKind::InternalFailure,
    }
}

/// The failure that a database error of the given class and wording stands
/// for outside the catalog.
pub fn classify_outside_catalog(class: DbErrorClass, detail: String) -> (r: Failure)
    ensures
        r@ == (FailureView { kind: kind_outside_catalog(class), detail: detail@ }),
{
    let kind = match class {
        DbErrorClass::NoRows => ErrorKind::NotFound,
        DbErrorClass::Constraint => ErrorKind::InternalFailure,
        DbErrorClass::Other => ErrorKind::InternalFailure,
    };
    Failure::new(kind, detail)
}

/// The failure that an error of the database stands for outside the
/// catalog: an email that is taken is no duplicate slug.
pub fn failure_outside_catalog(error: &rusqlite::Error) -> (r: Failure)
    ensures
        r@ == (FailureView {
            kind: kind_outside_catalog(database_class(*error)),
            detail: database_text(*error),
        }),
{
    classify_outside_catalog(database_error_class(error), database_error_text(error))
}

/// What a statement that removes rows comes to where it does not matter
/// whether a row was there: removing the account of an email or revoking
/// the session of a token succeeds also where there is none.
pub fn removed(outcome: Result<usize, Failure>) -> (r: Result<(), Failure>)
    ensures
        match r {
            Ok(_) => outcome is Ok,
            Err(failure) => outcome == Err::<usize, Failure>(failure),
        },
{
    match outcome {
        Ok(_) => Ok(()),
        Err(failure) => Err(failure),
    }
}

/// What the deletion of an account comes to, given the number of rows that
/// the statement removed or the failure it met.
pub fn delete_user(outcome: Result<usize, Failure>) -> (r: Result<(), Failure>)
    ensures
        match r {
            Ok(_) => outcome is Ok,
            Err(failure) => outcome == Err::<usize, Failure>(failure),
        },
{
    removed(outcome)
}

/// What revoking a session comes to, given the number of rows that the
/// statement removed or the failure it met: revoking a token that has no
/// session is no error.
pub fn delete_session(outcome: Result<usize, Failure>) -> (r: Result<(), Failure>)
    ensures
        match r {
            Ok(_) => outcome is Ok,
            Err(failure) => outcome == Err::<usize, Failure>(failure),
        },
{
    removed(outcome)
}

/// One row of the table of images: the columns as the database holds them,
/// the keywords as a JSON text.
#[derive(Debug, Clone, PartialEq, Eq)]
pub struct ImageRow {
    pub alt: String,
    pub description: String,
    pub slug: String,
    pub keywords: String,
    pub filename: String,
}

/// The failure to write the keywords of a record as a text.
pub open spec fn keywords_not_encoded() -> FailureView {
    FailureView { kind: ErrorKind::InternalFailure, detail: "the keywords could not be encoded"@ }
}

/// The keywords of a row: the list that its text holds, or no keywords
/// where the text is not a list of strings.
pub open spec fn keywords_or_none(parsed: Option<Seq<Seq<char>>>) -> Seq<Seq<char>> {
    match parsed {
        Some(k) => k,
        None => Seq::empty(),
    }
}

/// The record that a row stands for.
pub open spec fn image_of_row(row: ImageRow) -> ImageView {
    ImageView {
        alt: row.alt@,
        description: row.description@,
        slug: row.slug@,
        keywords: keywords_or_none(keywords_from_json(row.keywords@)),
        filename: row.filename@,
    }
}

/// The keywords of a row, given what its text was read as.
pub fn keywords_or_default(parsed: Option<Vec<String>>) -> (r: Vec<String>)
    ensures
        r.deep_view() == keywords_or_none(
            match parsed {
                Some(k) => Some(k.deep_view()),
                None => None,
            },
        ),
{
    match parsed {
        Some(k) => k,
        None => {
            let r: Vec<String> = Vec::new();
            assert(r.deep_view() =~= Seq::<Seq<char>>::empty());
            r
        },
    }
}

/// The record that a row stands for.
pub fn image_from_row(row: &ImageRow) -> (r: Image)
    ensures
        r@ == image_of_row(*row),
{
    let keywords = keywords_or_default(json_read_keywords(row.keywords.as_str()));
    Image {
        alt: row.alt.clone(),
        description: row.description.clone(),
        slug: row.slug.clone(),
        keywords,
        filename: row.filename.clone(),
    }
}

/// The row that holds a record, given the text that its keywords were
/// written as. Keywords that could not be written are an `InternalFailure`.
pub fn row_with_keywords(image: &Image, keywords: Option<String>) -> (r: Result<ImageRow, Failure>)
    ensures
        match r {
            Ok(row) => {
                &&& keywords matches Some(text)
                &&& row.keywords@ == text@
                &&& row.alt@ == image.alt@
                &&& row.description@ == image.description@
                &&& row.slug@ == image.slug@
                &&& row.filename@ == image.filename@
            },
            Err(failure) => keywords is None && failure@ == keywords_not_encoded(),
        },
{
    match keywords {
        Some(text) => Ok(
            ImageRow {
                alt: image.alt.clone(),
                description: image.description.clone(),
                slug: image.slug.clone(),
                keywords: text,
                filename: image.filename.clone(),
            },
        ),
        None => Err(Failure::internal(String::from_str("the keywords could not be encoded"))),
    }
}

/// The row that holds a record.
pub fn row_from_image(image: &Image) -> (r: Result<ImageRow, Failure>)
    ensures
        match r {
            Ok(row) => {
                &&& keywords_to_json(image.keywords.deep_view()) == Some(row.keywords@)
                &&& row.alt@ == image.alt@
                &&& row.description@ == image.description@
                &&& row.slug@ == image.slug@
                &&& row.filename@ == image.filename@
            },
            Err(failure) => {
                &&& keywords_to_json(image.keywords.deep_view()) is None
                &&& failure@ == keywords_not_encoded()
            },
        },
{
    row_with_keywords(image, json_write_keywords(&image.keywords))
}

/// The records that the rows of a listing stand for, in the order of the rows.
pub fn get_images(rows: &Vec<ImageRow>) -> (r: Vec<Image>)
    ensures
        r.len() == rows.len(),
        forall|i: int| 0 <= i < rows.len() ==> (#[trigger] r[i])@ == image_of_row(rows[i]),
{
    let mut out: Vec<Image> = Vec::new();
    let mut n: usize = 0;
    while n < rows.len()
        invariant
            n <= rows.len(),
            out.len() == n,
            forall|i: int| 0 <= i < n ==> (#[trigger] out[i])@ == image_of_row(rows[i]),
        decreases rows.len() - n,
    {
        out.push(image_from_row(&rows[n]));
        n = n + 1;
    }
    out
}

/// The reply of the catalog to a read, given what the query found.
pub fn get_image_by_slug(found: Result<ImageRow, Failure>) -> (r: StoreReply)
    ensures
        r@ == match found {
            Ok(row) => ReplyView::Row(image_of_row(row)),
            Err(failure) => ReplyView::Failed(failure@),
        },
{
    match found {
        Ok(row) => StoreReply::Row(image_from_row(&row)),
        Err(failure) => StoreReply::Failed(failure),
    }
}

/// The record with a slug, given what the query found.
pub fn read_image(found: Result<ImageRow, Failure>) -> (r: Result<Image, Failure>)
    ensures
        match r {
            Ok(image) => found matches Ok(row) && image@ == image_of_row(row),
            Err(failure) => found == Err::<ImageRow, Failure>(failure),
        },
{
    match found {
        Ok(row) => Ok(image_from_row(&row)),
        Err(failure) => Err(failure),
    }
}

/// The reply of the catalog to an insert, given the number of rows that the
/// statement added or the failure it met.
pub fn insert_image(outcome: Result<usize, Failure>) -> (r: StoreReply)
    ensures
        r@ == match outcome {
            Ok(_) => ReplyView::Done,
            Err(failure) => ReplyView::Failed(failure@),
        },
{
    match outcome {
        Ok(_) => StoreReply::Done,
        Err(failure) => StoreReply::Failed(failure),
    }
}

/// The failure of a statement that found no row with the slug.
pub open spec fn no_such_slug() -> FailureView {
    FailureView { kind: ErrorKind::NotFound, detail: "no image has this slug"@ }
}

/// The reply of the catalog to a statement that should change the one row
/// with a slug, given the number of rows that it changed.
pub open spec fn reply_to_change(outcome: Result<usize, FailureView>) -> ReplyView {
    match outcome {
        Ok(changed) => if changed == 0 {
            ReplyView::Failed(no_such_slug())
        } else {
            ReplyView::Done
        },
        Err(failure) => ReplyView::Failed(failure),
    }
}

fn change_reply(outcome: Result<usize, Failure>) -> (r: StoreReply)
    ensures
        r@ == reply_to_change(
            match outcome {
                Ok(n) => Ok(n),
                Err(failure) => Err(failure@),
            },
        ),
{
    match outcome {
        Ok(changed) => {
            if changed == 0 {
                let detail = String::from_str("no image has this slug");
                StoreReply::Failed(Failure::new(ErrorKind::NotFound, detail))
            } else {
                StoreReply::Done
            }
        },
        Err(failure) => StoreReply::Failed(failure),
    }
}

/// The reply of the catalog to an update, given the number of rows that the
/// statement changed or the failure it met: an update that changed no row
/// is `NotFound`.
pub fn update_image(outcome: Result<usize, Failure>) -> (r: StoreReply)
    ensures
        r@ == reply_to_change(
            match outcome {
                Ok(n) => Ok(n),
                Err(failure) => Err(failure@),
            },
        ),
{
    change_reply(outcome)
}

/// The reply of the catalog to a delete, given the number of rows that the
/// statement removed or the failure it met: a delete that removed no row is
/// `NotFound`.
pub fn delete_image(outcome: Result<usize, Failure>) -> (r: StoreReply)
    ensures
        r@ == reply_to_change(
            match outcome {
                Ok(n) => Ok(n),
                Err(failure) => Err(failure@),
            },
        ),
{
    change_reply(outcome)
}

/// The account that a row of the listing of users stands for: its id and
/// email, without its password hash.
pub fn listed_user(id: i64, email: String) -> (r: User)
    ensures
        r.id == id,
        r.email@ == email@,
        r.password_hash@ == Seq::<char>::empty(),
        r.access_token is None,
{
    User { id, email, password_hash: String::new(), access_token: None }
}

/// The accounts that the rows of a listing stand for, in the order of the rows.
pub fn list_users(rows: &Vec<(i64, String)>) -> (r: Vec<User>)
    ensures
        r.len() == rows.len(),
        forall|i: int|
            0 <= i < rows.len() ==> {
                &&& (#[trigger] r[i]).id == rows[i].0
                &&& r[i].email@ == rows[i].1@
                &&& r[i].password_hash@ == Seq::<char>::empty()
                &&& r[i].access_token is None
            },
{
    let mut out: Vec<User> = Vec::new();
    let mut n: usize = 0;
    while n < rows.len()
        invariant
            n <= rows.len(),
            out.len() == n,
            forall|i: int|
                0 <= i < n ==> {
                    &&& (#[trigger] out[i]).id == rows[i].0
                    &&& out[i].email@ == rows[i].1@
                    &&& out[i].password_hash@ == Seq::<char>::empty()
                    &&& out[i].access_token is None
                },
        decreases rows.len() - n,
    {
        out.push(listed_user(rows[n].0, rows[n].1.clone()));
        n = n + 1;
    }
    out
}

} // verus!
