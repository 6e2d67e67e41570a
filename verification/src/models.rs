//! The records of the service and the failures that its operations report.

use vstd::prelude::*;

verus! {

/// An account that may sign in to the admin panel.
#[derive(Debug, Clone, PartialEq, Eq)]
pub struct User {
    pub id: i64,
    pub email: String,
    pub password_hash: String,
    pub access_token: Option<String>,
}

/// The catalog record of one image: its metadata and the name of the file
/// that holds its bytes.
#[derive(Debug, Clone, PartialEq, Eq)]
pub struct Image {
    pub alt: String,
    pub description: String,
    pub slug: String,
    pub keywords: Vec<String>,
    pub filename: String,
}

/// What an `Image` holds, as mathematical values.
pub struct ImageView {
    pub alt: Seq<char>,
    pub description: Seq<char>,
    pub slug: Seq<char>,
    pub keywords: Seq<Seq<char>>,
    pub filename: Seq<char>,
}

impl View for Image {
    type V = ImageView;

    open spec fn view(&self) -> ImageView {
        ImageView {
            alt: self.alt@,
            description: self.description@,
            slug: self.slug@,
            keywords: self.keywords.deep_view(),
            filename: self.filename@,
        }
    }
}

impl ImageView {
    /// The same record under another file name.
    pub open spec fn with_filename(self, filename: Seq<char>) -> ImageView {
        ImageView { filename, ..self }
    }
}

impl Image {
    /// The same record under another file name.
    pub fn with_filename(self, filename: String) -> (r: Image)
        ensures
            r@ == self@.with_filename(filename@),
    {
        Image {
            alt: self.alt,
            description: self.description,
            slug: self.slug,
            keywords: self.keywords,
            filename,
        }
    }
}

/// The fields of the image form as they were submitted.
#[derive(Debug, Clone, PartialEq, Eq)]
pub struct ImageForm {
    pub alt: String,
    pub description: String,
    pub slug: String,
    pub keywords: String,
    pub image_data: Vec<u8>,
}

/// The description of an image to import from a file.
#[derive(Debug, Clone, PartialEq, Eq)]
pub struct ImageInput {
    pub url: String,
    pub alt: String,
    pub description: String,
    pub slug: String,
    pub keywords: Vec<String>,
    pub image_type: String,
}

impl ImageInput {
    /// The record to create for this input, without a file name yet, and the
    /// path of the file to read its bytes from.
    pub fn into_image(self) -> (r: (Image, String))
        ensures
            r.0@ == (ImageView {
                alt: self.alt@,
                description: self.description@,
                slug: self.slug@,
                keywords: self.keywords.deep_view(),
                filename: Seq::empty(),
            }),
            r.1@ == self.url@,
    {
        let image = Image {
            alt: self.alt,
            description: self.description,
            slug: self.slug,
            keywords: self.keywords,
            filename: String::new(),
        };
        (image, self.url)
    }
}

/// An error reported to the caller with a human-readable message.
#[derive(Debug, Clone, PartialEq, Eq)]
pub struct CustomError {
    pub message: String,
}

impl CustomError {
    pub fn new(message: String) -> (e: CustomError)
        ensures
            e.message == message,
    {
        CustomError { message }
    }

    /// The message of the error.
    pub fn to_string(&self) -> (r: String)
        ensures
            r@ == self.message@,
    {
        self.message.clone()
    }
}

/// The email and password that a login request carries.
#[derive(Debug, Clone, PartialEq, Eq)]
pub struct LoginCredentials {
    pub email: String,
    pub password: String,
}

/// The token handed out after a successful login.
#[derive(Debug, Clone, PartialEq, Eq)]
pub struct LoginResponse {
    pub access_token: String,
}

/// The refusal of a request that carries no valid session.
#[derive(Debug, Clone, Copy, PartialEq, Eq)]
pub struct RedirectToLogin;

/// The kinds of failure that the stores and the session manager report.
#[derive(Debug, Clone, Copy, PartialEq, Eq, Structural)]
pub enum ErrorKind {
    /// The slug, token or email that was referred to does not exist.
    NotFound,
    /// A record with the same slug exists already.
    DuplicateSlug,
    /// A file could not be read, written, removed or renamed.
    IOFailure,
    /// The email is unknown or the password does not match.
    InvalidCredentials,
    /// Anything else: a lock that could not be taken, a value that could not
    /// be encoded.
    InternalFailure,
}

/// A failure of one operation: its kind, and the words of whatever reported it.
#[derive(Debug, Clone, PartialEq, Eq)]
pub struct Failure {
    pub kind: ErrorKind,
    pub detail: String,
}

/// What a `Failure` holds, as mathematical values.
pub struct FailureView {
    pub kind: ErrorKind,
    pub detail: Seq<char>,
}

impl View for Failure {
    type V = FailureView;

    open spec fn view(&self) -> FailureView {
        FailureView { kind: self.kind, detail: self.detail@ }
    }
}

impl Failure {
    /// A failure of the given kind.
    pub fn new(kind: ErrorKind, detail: String) -> (r: Failure)
        ensures
            r@ == (FailureView { kind, detail: detail@ }),
    {
        Failure { kind, detail }
    }

    /// The failure of a file operation.
    pub fn io(detail: String) -> (r: Failure)
        ensures
            r@ == (FailureView { kind: ErrorKind::IOFailure, detail: detail@ }),
    {
        Failure { kind: ErrorKind::IOFailure, detail }
    }

    /// A failure that is none of the other kinds.
    pub fn internal(detail: String) -> (r: Failure)
        ensures
            r@ == (FailureView { kind: ErrorKind::InternalFailure, detail: detail@ }),
    {
        Failure { kind: ErrorKind::InternalFailure, detail }
    }

    /// The words of the failure.
    pub fn to_string(&self) -> (r: String)
        ensures
            r@ == self.detail@,
    {
        self.detail.clone()
    }
}

} // verus!
