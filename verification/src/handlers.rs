//! What the endpoints decide: how the parts of a submitted form become an
//! image, which operation a request starts, and what is answered when the
//! operation is over.

use crate::commands::{
    delete_image, delete_image_spec, insert_image, insert_image_spec, update_image,
    update_image_spec, Step,
};
use crate::media::{content_type_media, MediaType, MediaTypeView};
use crate::models::{
    CustomError, ErrorKind, Failure, FailureView, Image, ImageForm, ImageView, LoginCredentials,
    User,
};
use crate::session::{authenticate, authentication, Session};
use crate::text::{same_text, split_keyword_list, split_keywords};
use vstd::prelude::*;
use vstd::string::*;
use vstd::utf8::*;

verus! {

/// The largest image that a form may carry, in bytes.
pub const MAX_IMAGE_BYTES: usize = 10_000_000;

/// The words in which `String::from_utf8` reports that the bytes are not UTF-8.
pub uninterp spec fn utf8_error_text(bytes: Seq<u8>) -> Seq<char>;

/// Calls `String::from_utf8`, and writes out the error where it reports
/// one. The contract claims what the function documents: the text is the
/// one that the bytes encode, and an error comes exactly when the bytes are
/// not UTF-8; the words of the error are the ones that `utf8_error_text` names.
#[verifier::external_body]
fn string_from_utf8(bytes: Vec<u8>) -> (r: Result<String, String>)
    ensures
        match r {
            Ok(text) => valid_utf8(bytes@) && text@ == decode_utf8(bytes@),
            Err(words) => !valid_utf8(bytes@) && words@ == utf8_error_text(bytes@),
        },
{
    match String::from_utf8(bytes) {
        Ok(text) => Ok(text),
        Err(e) => Err(e.to_string()),
    }
}

/// The text that the bytes of a form field hold, or the words of the error
/// where they are not UTF-8.
pub open spec fn field_text(bytes: Seq<u8>) -> Result<Seq<char>, Seq<char>> {
    if valid_utf8(bytes) {
        Ok(decode_utf8(bytes))
    } else {
        Err(utf8_error_text(bytes))
    }
}

/// One part of a submitted form.
#[derive(Debug, Clone, PartialEq, Eq)]
pub struct FormPart {
    pub name: String,
    pub content_type: Option<String>,
    pub data: Vec<u8>,
}

/// What a `FormPart` holds, as mathematical values.
pub struct FormPartView {
    pub name: Seq<char>,
    pub content_type: Option<Seq<char>>,
    pub data: Seq<u8>,
}

/// The text of an optional string.
pub open spec fn optional_text(text: Option<String>) -> Option<Seq<char>> {
    match text {
        Some(t) => Some(t@),
        None => None,
    }
}

impl View for FormPart {
    type V = FormPartView;

    open spec fn view(&self) -> FormPartView {
        FormPartView {
            name: self.name@,
            content_type: optional_text(self.content_type),
            data: self.data@,
        }
    }
}

/// The fields of the image form that have been read so far, and the media
/// type of the image among them, if one was submitted.
#[derive(Debug, Clone, PartialEq, Eq)]
pub struct FormFields {
    pub form: ImageForm,
    pub media: Option<MediaType>,
}

/// What a `FormFields` holds, as mathematical values.
pub struct FormFieldsView {
    pub alt: Seq<char>,
    pub description: Seq<char>,
    pub slug: Seq<char>,
    pub keywords: Seq<char>,
    pub image: Option<(Seq<u8>, MediaTypeView)>,
}

impl View for FormFields {
    type V = FormFieldsView;

    open spec fn view(&self) -> FormFieldsView {
        FormFieldsView {
            alt: self.form.alt@,
            description: self.form.description@,
            slug: self.form.slug@,
            keywords: self.form.keywords@,
            image: match self.media {
                Some(media) => Some((self.form.image_data@, media@)),
                None => None,
            },
        }
    }
}

/// The form before any part is read: every field empty, no image.
pub open spec fn empty_fields() -> FormFieldsView {
    FormFieldsView {
        alt: Seq::empty(),
        description: Seq::empty(),
        slug: Seq::empty(),
        keywords: Seq::empty(),
        image: None,
    }
}

/// Whether a part of this name is one of the text fields of the form.
pub open spec fn is_text_field(name: Seq<char>) -> bool {
    name == "alt"@ || name == "description"@ || name == "slug"@ || name == "keywords"@
}

/// The fields after the text field `name` is set to `text`.
pub open spec fn with_text(fields: FormFieldsView, name: Seq<char>, text: Seq<char>) -> FormFieldsView {
    if name == "alt"@ {
        FormFieldsView { alt: text, ..fields }
    } else if name == "description"@ {
        FormFieldsView { description: text, ..fields }
    } else if name == "slug"@ {
        FormFieldsView { slug: text, ..fields }
    } else if name == "keywords"@ {
        FormFieldsView { keywords: text, ..fields }
    } else {
        fields
    }
}

/// The fields after one more part is read, or the message with which the
/// form is refused. A text field takes the text of the part, which must be
/// UTF-8. The part named `image` gives the bytes of the image, no more than
/// `MAX_IMAGE_BYTES`, and its content type their media type. A part of
/// another name is passed over. A later part of the same name replaces an
/// earlier one.
pub open spec fn accept_part_spec(fields: FormFieldsView, part: FormPartView) -> Result<
    FormFieldsView,
    Seq<char>,
> {
    if is_text_field(part.name) {
        match field_text(part.data) {
            Ok(text) => Ok(with_text(fields, part.name, text)),
            Err(words) => Err(words),
        }
    } else if part.name == "image"@ {
        if part.data.len() > MAX_IMAGE_BYTES {
            Err("File too large"@)
        } else {
            Ok(
                FormFieldsView {
                    image: Some((part.data, content_type_media(part.content_type))),
                    ..fields
                },
            )
        }
    } else {
        Ok(fields)
    }
}

/// The fields after the parts are read in order, or the message of the
/// first part that is refused.
pub open spec fn accept_parts_spec(fields: FormFieldsView, parts: Seq<FormPartView>) -> Result<
    FormFieldsView,
    Seq<char>,
>
    decreases parts.len(),
{
    if parts.len() == 0 {
        Ok(fields)
    } else {
        match accept_part_spec(fields, parts[0]) {
            Ok(next) => accept_parts_spec(next, parts.drop_first()),
            Err(words) => Err(words),
        }
    }
}

/// The image that a form describes and the new bytes it brings, or the
/// message with which the form is refused: the alternative text and the
/// slug are required, the keywords are the entries of a comma-separated
/// list, and the file name is left empty for the blob store to assign.
pub open spec fn finish_spec(fields: FormFieldsView) -> Result<
    (ImageView, Option<(Seq<u8>, MediaTypeView)>),
    Seq<char>,
> {
    if fields.alt.len() == 0 || fields.slug.len() == 0 {
        Err("Missing required fields"@)
    } else {
        Ok(
            (
                ImageView {
                    alt: fields.alt,
                    description: fields.description,
                    slug: fields.slug,
                    keywords: split_keywords(fields.keywords),
                    filename: Seq::empty(),
                },
                fields.image,
            ),
        )
    }
}

/// What a submitted form comes to: the parts are read in order, then the
/// fields are checked.
pub open spec fn process_image_form_spec(parts: Seq<FormPartView>) -> Result<
    (ImageView, Option<(Seq<u8>, MediaTypeView)>),
    Seq<char>,
> {
    match accept_parts_spec(empty_fields(), parts) {
        Ok(fields) => finish_spec(fields),
        Err(words) => Err(words),
    }
}

/// The views of the parts of a form.
pub open spec fn part_views(parts: Seq<FormPart>) -> Seq<FormPartView> {
    parts.map_values(|p: FormPart| p@)
}

/// What a result of reading fields holds, as mathematical values.
pub open spec fn fields_result(r: Result<FormFields, CustomError>) -> Result<
    FormFieldsView,
    Seq<char>,
> {
    match r {
        Ok(fields) => Ok(fields@),
        Err(e) => Err(e.message@),
    }
}

/// What the result of a processed form holds, as mathematical values.
pub open spec fn form_result(
    r: Result<(Image, Option<(Vec<u8>, MediaType)>), CustomError>,
) -> Result<(ImageView, Option<(Seq<u8>, MediaTypeView)>), Seq<char>> {
    match r {
        Ok((image, replacement)) => Ok((image@, crate::commands::replacement_view(replacement))),
        Err(e) => Err(e.message@),
    }
}

impl FormFields {
    /// The form before any part is read.
    pub fn new() -> (r: FormFields)
        ensures
            r@ == empty_fields(),
    {
        FormFields {
            form: ImageForm {
                alt: String::new(),
                description: String::new(),
                slug: String::new(),
                keywords: String::new(),
                image_data: Vec::new(),
            },
            media: None,
        }
    }

    /// Sets the text field `name`, given what the bytes of its part were
    /// read as. A part of another name changes nothing.
    pub fn with_text(self, name: &str, text: Result<String, String>) -> (r: Result<
        FormFields,
        CustomError,
    >)
        ensures
            fields_result(r) == match text {
                Ok(t) => Ok::<FormFieldsView, Seq<char>>(with_text(self@, name@, t@)),
                Err(words) => Err::<FormFieldsView, Seq<char>>(words@),
            },
    {
        match text {
            Err(words) => Err(CustomError::new(words)),
            Ok(t) => {
                let FormFields { form, media } = self;
                let ImageForm { alt, description, slug, keywords, image_data } = form;
                let form = if same_text(name, "alt") {
                    ImageForm { alt: t, description, slug, keywords, image_data }
                } else if same_text(name, "description") {
                    ImageForm { alt, description: t, slug, keywords, image_data }
                } else if same_text(name, "slug") {
                    ImageForm { alt, description, slug: t, keywords, image_data }
                } else if same_text(name, "keywords") {
                    ImageForm { alt, description, slug, keywords: t, image_data }
                } else {
                    ImageForm { alt, description, slug, keywords, image_data }
                };
                Ok(FormFields { form, media })
            },
        }
    }

    /// Sets the image of the form to the bytes of a part and the media type
    /// that its content type names. More than `MAX_IMAGE_BYTES` are refused.
    pub fn with_image(self, content_type: Option<&str>, data: Vec<u8>) -> (r: Result<
        FormFields,
        CustomError,
    >)
        ensures
            fields_result(r) == if data@.len() > MAX_IMAGE_BYTES {
                Err::<FormFieldsView, Seq<char>>("File too large"@)
            } else {
                Ok::<FormFieldsView, Seq<char>>(
                    FormFieldsView {
                        image: Some(
                            (
                                data@,
                                content_type_media(
                                    match content_type {
                                        Some(t) => Some(t@),
                                        None => None,
                                    },
                                ),
                            ),
                        ),
                        ..self@
                    },
                )
            },
    {
        if data.len() > MAX_IMAGE_BYTES {
            Err(CustomError::new(String::from_str("File too large")))
        } else {
            let media = MediaType::from_content_type(content_type);
            let FormFields { form, media: _ } = self;
            let ImageForm { alt, description, slug, keywords, image_data: _ } = form;
            Ok(
                FormFields {
                    form: ImageForm { alt, description, slug, keywords, image_data: data },
                    media: Some(media),
                },
            )
        }
    }

    /// Reads one more part of the form.
    pub fn accept_part(self, part: FormPart) -> (r: Result<FormFields, CustomError>)
        ensures
            fields_result(r) == accept_part_spec(self@, part@),
    {
        let FormPart { name, content_type, data } = part;
        let is_text = same_text(name.as_str(), "alt") || same_text(name.as_str(), "description")
            || same_text(name.as_str(), "slug") || same_text(name.as_str(), "keywords");
        if is_text {
            self.with_text(name.as_str(), string_from_utf8(data))
        } else if same_text(name.as_str(), "image") {
            match &content_type {
                Some(t) => self.with_image(Some(t.as_str()), data),
                None => self.with_image(None, data),
            }
        } else {
            Ok(self)
        }
    }

    /// Checks the fields and gives the image that the form describes, with
    /// the new bytes it brings, if any.
    pub fn finish(self) -> (r: Result<(Image, Option<(Vec<u8>, MediaType)>), CustomError>)
        ensures
            form_result(r) == finish_spec(self@),
    {
        let FormFields { form, media } = self;
        let ImageForm { alt, description, slug, keywords, image_data } = form;
        if alt.as_str().is_empty() || slug.as_str().is_empty() {
            Err(CustomError::new(String::from_str("Missing required fields")))
        } else {
            let keywords = split_keyword_list(keywords.as_str());
            let image = Image { alt, description, slug, keywords, filename: String::new() };
            let replacement = match media {
                Some(media) => Some((image_data, media)),
                None => None,
            };
            Ok((image, replacement))
        }
    }
}

/// Reads the parts of a submitted image form in order and gives the image
/// that the form describes, with the new bytes it brings, if any.
pub fn process_image_form(parts: Vec<FormPart>) -> (r: Result<
    (Image, Option<(Vec<u8>, MediaType)>),
    CustomError,
>)
    ensures
        form_result(r) == process_image_form_spec(part_views(parts@)),
{
    let mut rest = parts;
    let ghost all = part_views(rest@);
    let mut fields = FormFields::new();
    while rest.len() > 0
        invariant
            all == part_views(parts@),
            accept_parts_spec(empty_fields(), all) == accept_parts_spec(fields@, part_views(rest@)),
        decreases rest.len(),
    {
        let ghost before = part_views(rest@);
        let ghost read = fields@;
        let part = rest.remove(0);
        assert(before[0] == part@);
        assert(before.drop_first() =~= part_views(rest@));
        match fields.accept_part(part) {
            Ok(next) => {
                fields = next;
            },
            Err(e) => {
                return Err(e);
            },
        }
    }
    fields.finish()
}

/// The answer to a request: a status, a body, and the headers that the
/// service sets.
#[derive(Debug, Clone, PartialEq, Eq)]
pub struct Response {
    pub status: u16,
    pub body: String,
    pub location: Option<String>,
    pub set_cookie: Option<String>,
}

/// What a `Response` holds, as mathematical values.
pub struct ResponseView {
    pub status: int,
    pub body: Seq<char>,
    pub location: Option<Seq<char>>,
    pub set_cookie: Option<Seq<char>>,
}

impl View for Response {
    type V = ResponseView;

    open spec fn view(&self) -> ResponseView {
        ResponseView {
            status: self.status as int,
            body: self.body@,
            location: optional_text(self.location),
            set_cookie: optional_text(self.set_cookie),
        }
    }
}

/// A response with a status and a body, and no headers.
pub open spec fn plain_response(status: int, body: Seq<char>) -> ResponseView {
    ResponseView { status, body, location: None, set_cookie: None }
}

/// The status with which a failure of a kind is answered: a client error
/// for a slug that is missing or taken and for refused credentials, a
/// server error for a failure of the files or of the service itself.
pub open spec fn status_of(kind: ErrorKind) -> int {
    match kind {
        ErrorKind::NotFound => 404,
        ErrorKind::DuplicateSlug => 409,
        ErrorKind::InvalidCredentials => 401,
        ErrorKind::IOFailure => 500,
        ErrorKind::InternalFailure => 500,
    }
}

/// The response to a mutating request, given the outcome of its operation:
/// the words of success, or the status of the failure's kind with `prefix`
/// and the words of the failure.
pub open spec fn outcome_response(
    outcome: Result<(), FailureView>,
    success: Seq<char>,
    prefix: Seq<char>,
) -> ResponseView {
    match outcome {
        Ok(_) => plain_response(200, success),
        Err(failure) => plain_response(status_of(failure.kind), prefix + failure.detail),
    }
}

/// An outcome, as mathematical values.
pub open spec fn outcome_view(outcome: Result<(), Failure>) -> Result<(), FailureView> {
    match outcome {
        Ok(_) => Ok(()),
        Err(failure) => Err(failure@),
    }
}

/// The status with which a failure of a kind is answered.
pub fn status_for(kind: ErrorKind) -> (r: u16)
    ensures
        r == status_of(kind),
{
    match kind {
        ErrorKind::NotFound => 404,
        ErrorKind::DuplicateSlug => 409,
        ErrorKind::InvalidCredentials => 401,
        ErrorKind::IOFailure => 500,
        ErrorKind::InternalFailure => 500,
    }
}

/// Every failure is answered with an error status: a client error for
/// `NotFound`, `DuplicateSlug` and `InvalidCredentials`, a server error for
/// `IOFailure` and `InternalFailure`.
pub proof fn status_classes(kind: ErrorKind)
    ensures
        (kind == ErrorKind::NotFound || kind == ErrorKind::DuplicateSlug || kind
            == ErrorKind::InvalidCredentials) ==> 400 <= status_of(kind) < 500,
        (kind == ErrorKind::IOFailure || kind == ErrorKind::InternalFailure) ==> 500 <= status_of(
            kind,
        ) < 600,
{
}

fn respond(outcome: Result<(), Failure>, success: &str, prefix: &str) -> (r: Response)
    ensures
        r@ == outcome_response(outcome_view(outcome), success@, prefix@),
{
    match outcome {
        Ok(_) => Response {
            status: 200,
            body: String::from_str(success),
            location: None,
            set_cookie: None,
        },
        Err(failure) => {
            let mut body = String::from_str(prefix);
            body.append(failure.detail.as_str());
            Response { status: status_for(failure.kind), body, location: None, set_cookie: None }
        },
    }
}

/// The operation that a request to create an image starts, given what its
/// form came to. A form without an image is refused.
pub fn admin_create_image_handler(form: (Image, Option<(Vec<u8>, MediaType)>)) -> (r: Result<
    Step,
    CustomError,
>)
    ensures
        match r {
            Ok(step) => {
                &&& form.1 matches Some((data, media))
                &&& step@ == insert_image_spec(data@, media@, form.0@)
            },
            Err(e) => form.1 is None && e.message@ == "No image data provided"@,
        },
{
    let (image, image_data) = form;
    match image_data {
        Some((data, media)) => Ok(insert_image(data, media, image)),
        None => Err(CustomError::new(String::from_str("No image data provided"))),
    }
}

/// The operation that a request to update the image with a slug starts,
/// given what its form came to.
pub fn admin_update_image_handler(slug: String, form: (Image, Option<(Vec<u8>, MediaType)>)) -> (r:
    Step)
    ensures
        r@ == update_image_spec(slug@, crate::commands::replacement_view(form.1), form.0@),
{
    let (image, image_data) = form;
    update_image(slug, image_data, image)
}

/// The operation that a request to delete the image with a slug starts.
pub fn admin_delete_image_handler(slug: String) -> (r: Step)
    ensures
        r@ == delete_image_spec(slug@),
{
    delete_image(slug)
}

/// The response to a request to create an image, given the outcome of the create.
pub fn image_created(outcome: Result<(), Failure>) -> (r: Response)
    ensures
        r@ == outcome_response(outcome_view(outcome), "Image created successfully!"@, ""@),
{
    respond(outcome, "Image created successfully!", "")
}

/// The response to a request to update an image, given the outcome of the update.
pub fn image_updated(outcome: Result<(), Failure>) -> (r: Response)
    ensures
        r@ == outcome_response(
            outcome_view(outcome),
            "Image updated successfully!"@,
            "Failed to update image: "@,
        ),
{
    respond(outcome, "Image updated successfully!", "Failed to update image: ")
}

/// The response to a request to delete an image, given the outcome of the delete.
pub fn image_deleted(outcome: Result<(), Failure>) -> (r: Response)
    ensures
        r@ == outcome_response(
            outcome_view(outcome),
            "Image deleted successfully!"@,
            "Failed to delete image: "@,
        ),
{
    respond(outcome, "Image deleted successfully!", "Failed to delete image: ")
}

/// The failure of a login whose credentials could not be judged.
pub open spec fn authentication_error() -> FailureView {
    FailureView { kind: ErrorKind::InternalFailure, detail: "Authentication error"@ }
}

/// The failure with which a login is refused, given what its check came to:
/// refused credentials say so, and every other failure is an internal one
/// that does not say what went wrong.
pub open spec fn login_refusal(failure: FailureView) -> FailureView {
    if failure.kind == ErrorKind::InvalidCredentials {
        FailureView { kind: ErrorKind::InvalidCredentials, detail: "Invalid credentials"@ }
    } else {
        authentication_error()
    }
}

/// The account that a login is granted to, or the failure with which it is
/// refused, given what the lookup of the email found.
pub open spec fn login_spec(
    password: Seq<char>,
    lookup: Result<Option<User>, FailureView>,
) -> Result<i64, FailureView> {
    match lookup {
        Err(_) => Err(authentication_error()),
        Ok(user) => match authentication(user, password) {
            Ok(id) => Ok(id),
            Err(failure) => Err(login_refusal(failure)),
        },
    }
}

/// What the lookup of an account found, as mathematical values.
pub open spec fn user_lookup(lookup: Result<Option<User>, Failure>) -> Result<
    Option<User>,
    FailureView,
> {
    match lookup {
        Ok(user) => Ok(user),
        Err(failure) => Err(failure@),
    }
}

/// The account that a login is granted to, or the refusal of the login,
/// given what the check of its credentials came to.
pub fn login_outcome(checked: Result<i64, Failure>) -> (r: Result<i64, Failure>)
    ensures
        match r {
            Ok(id) => checked == Ok::<i64, Failure>(id),
            Err(refusal) => checked matches Err(failure) && refusal@ == login_refusal(failure@),
        },
{
    match checked {
        Ok(id) => Ok(id),
        Err(failure) => {
            if failure.kind == ErrorKind::InvalidCredentials {
                Err(
                    Failure::new(
                        ErrorKind::InvalidCredentials,
                        String::from_str("Invalid credentials"),
                    ),
                )
            } else {
                Err(Failure::internal(String::from_str("Authentication error")))
            }
        },
    }
}

/// Checks the credentials of a login against the account that the lookup
/// of the email found, if any, and gives the id of the account to issue a
/// session to.
pub fn admin_login_handler(
    credentials: &LoginCredentials,
    lookup: Result<Option<User>, Failure>,
) -> (r: Result<i64, Failure>)
    ensures
        crate::session::id_or_failure(r) == login_spec(credentials.password@, user_lookup(lookup)),
{
    match lookup {
        Err(_) => Err(Failure::internal(String::from_str("Authentication error"))),
        Ok(user) => login_outcome(authenticate(user.as_ref(), credentials.password.as_str())),
    }
}

/// The cookie that carries the token of a session.
pub open spec fn session_cookie_spec(token: Seq<char>) -> Seq<char> {
    "session="@ + token + "; Path=/; HttpOnly; SameSite=Strict"@
}

/// The cookie that carries the token of a session.
pub fn session_cookie(token: &str) -> (r: String)
    ensures
        r@ == session_cookie_spec(token@),
{
    let mut r = String::from_str("session=");
    r.append(token);
    r.append("; Path=/; HttpOnly; SameSite=Strict");
    r
}

/// The response to a login, given the session that was issued and stored
/// for it, or the failure to do so.
pub fn login_response(session: Result<Session, Failure>) -> (r: Result<Response, Failure>)
    ensures
        match r {
            Ok(response) => {
                &&& session matches Ok(s)
                &&& response@ == (ResponseView {
                    status: 200,
                    body: "Login successful"@,
                    location: None,
                    set_cookie: Some(session_cookie_spec(s.token@)),
                })
            },
            Err(failure) => session is Err && failure@ == (FailureView {
                kind: ErrorKind::InternalFailure,
                detail: "Failed to create session"@,
            }),
        },
{
    match session {
        Ok(s) => Ok(
            Response {
                status: 200,
                body: String::from_str("Login successful"),
                location: None,
                set_cookie: Some(session_cookie(s.token.as_str())),
            },
        ),
        Err(_) => Err(Failure::internal(String::from_str("Failed to create session"))),
    }
}

/// The response to a logout: the session cookie is cleared. With it comes
/// the token whose session is to be revoked, if the request carried one.
pub fn admin_logout_handler(session_id: Option<String>) -> (r: (Option<String>, Response))
    ensures
        optional_text(r.0) == optional_text(session_id),
        r.1@ == (ResponseView {
            status: 200,
            body: "Logged out successfully"@,
            location: None,
            set_cookie: Some("session=; Path=/; HttpOnly; SameSite=Strict; Max-Age=0"@),
        }),
{
    let response = Response {
        status: 200,
        body: String::from_str("Logged out successfully"),
        location: None,
        set_cookie: Some(String::from_str("session=; Path=/; HttpOnly; SameSite=Strict; Max-Age=0")),
    };
    (session_id, response)
}

/// What is known of a request that was rejected.
#[derive(Debug, Clone, PartialEq, Eq)]
pub struct RejectionCause {
    /// No route matched the request.
    pub not_found: bool,
    /// The request carried no valid session.
    pub redirect_to_login: bool,
    /// The request failed: the kind of the failure and its words.
    pub failure: Option<Failure>,
    /// The form of the request was refused with a message.
    pub custom: Option<CustomError>,
    /// The body of the request was too large.
    pub payload_too_large: bool,
}

/// The message of an optional error.
pub open spec fn optional_message(error: Option<CustomError>) -> Option<Seq<char>> {
    match error {
        Some(e) => Some(e.message@),
        None => None,
    }
}

/// An optional failure, as mathematical values.
pub open spec fn optional_failure(failure: Option<Failure>) -> Option<FailureView> {
    match failure {
        Some(f) => Some(f@),
        None => None,
    }
}

/// The response to a rejected request. The causes are looked at in order:
/// no route, no session, a failure, a refused form, a body that is too
/// large; a rejection of no such cause is an internal error. A failure is
/// answered with the status of its kind, so with a server error where the
/// files or the service itself failed; a refused form is the client's error.
pub open spec fn rejection_response(
    not_found: bool,
    redirect_to_login: bool,
    failure: Option<FailureView>,
    custom: Option<Seq<char>>,
    payload_too_large: bool,
) -> ResponseView {
    if not_found {
        plain_response(404, "Not Found"@)
    } else if redirect_to_login {
        ResponseView {
            status: 302,
            body: Seq::empty(),
            location: Some("/admin/login"@),
            set_cookie: None,
        }
    } else if failure is Some {
        plain_response(status_of(failure->0.kind), failure->0.detail)
    } else if custom is Some {
        plain_response(401, custom->0)
    } else if payload_too_large {
        plain_response(400, "File too large. Maximum size is 5MB."@)
    } else {
        plain_response(500, "Internal Server Error"@)
    }
}

/// A request that failed is answered with the status of the failure's
/// kind, whatever else is known of it: a server error where the files or
/// the service itself failed, and a client error for a slug that is missing
/// or taken and for refused credentials.
pub proof fn failed_request_status(
    failure: FailureView,
    custom: Option<Seq<char>>,
    payload_too_large: bool,
)
    ensures
        ({
            let response = rejection_response(
                false,
                false,
                Some(failure),
                custom,
                payload_too_large,
            );
            &&& response == plain_response(status_of(failure.kind), failure.detail)
            &&& (failure.kind == ErrorKind::IOFailure || failure.kind == ErrorKind::InternalFailure)
                ==> 500 <= response.status < 600
            &&& (failure.kind == ErrorKind::NotFound || failure.kind == ErrorKind::DuplicateSlug
                || failure.kind == ErrorKind::InvalidCredentials) ==> 400 <= response.status < 500
        }),
{
}

fn plain(status: u16, body: &str) -> (r: Response)
    ensures
        r@ == plain_response(status as int, body@),
{
    Response { status, body: String::from_str(body), location: None, set_cookie: None }
}

/// The response to a rejected request.
pub fn handle_rejection(cause: RejectionCause) -> (r: Response)
    ensures
        r@ == rejection_response(
            cause.not_found,
            cause.redirect_to_login,
            optional_failure(cause.failure),
            optional_message(cause.custom),
            cause.payload_too_large,
        ),
{
    if cause.not_found {
        plain(404, "Not Found")
    } else if cause.redirect_to_login {
        Response {
            status: 302,
            body: String::new(),
            location: Some(String::from_str("/admin/login")),
            set_cookie: None,
        }
    } else {
        match cause.failure {
            Some(f) => Response {
                status: status_for(f.kind),
                body: f.detail,
                location: None,
                set_cookie: None,
            },
            None => match cause.custom {
                Some(e) => Response {
                    status: 401,
                    body: e.message,
                    location: None,
                    set_cookie: None,
                },
                None => {
                    if cause.payload_too_large {
                        plain(400, "File too large. Maximum size is 5MB.")
                    } else {
                        plain(500, "Internal Server Error")
                    }
                },
            },
        }
    }
}

/// The failure of a request under other words: the kind stays, so that the
/// request is answered with the status it calls for, and the words are the
/// ones that the endpoint shows.
pub fn relabel(failure: Failure, message: &str) -> (r: Failure)
    ensures
        r@ == (FailureView { kind: failure.kind, detail: message@ }),
{
    Failure::new(failure.kind, String::from_str(message))
}

/// The failure of a page that could not be rendered.
pub fn render_failed() -> (r: Failure)
    ensures
        r@ == (FailureView { kind: ErrorKind::InternalFailure, detail: "Failed to render page"@ }),
{
    Failure::internal(String::from_str("Failed to render page"))
}

/// The title of the page that shows an image: its alternative text, a
/// dash, and the suffix of the site.
pub fn detail_title(alt: &str, creator_suffix: &str) -> (r: String)
    ensures
        r@ == alt@ + " - "@ + creator_suffix@,
{
    let mut r = String::from_str(alt);
    r.append(" - ");
    r.append(creator_suffix);
    r
}

/// The title of the admin pages of a site.
pub fn admin_title(site_name: &str) -> (r: String)
    ensures
        r@ == "Admin - "@ + site_name@,
{
    let mut r = String::from_str("Admin - ");
    r.append(site_name);
    r
}

} // verus!
