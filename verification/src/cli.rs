//! What the commands of the console decide between reading the input and
//! writing to the database.

use crate::commands::{insert_image_from_path, insert_image_spec, Step};
use crate::files::{is_plain_name, plain_extension};
use crate::media::extension_media;
use crate::models::{ErrorKind, Failure, ImageInput, ImageView, User};
use crate::session::{create_user, password_hash};
use crate::text::{same_text, trim, trimmed};
use vstd::prelude::*;
use vstd::string::*;

verus! {

/// The text that `str::to_lowercase` makes of a text.
pub uninterp spec fn lowercase(text: Seq<char>) -> Seq<char>;

/// `str::to_lowercase` gives the text that `lowercase` names.
pub assume_specification[ str::to_lowercase ](text: &str) -> (r: String)
    ensures
        r@ == lowercase(text@),
;

/// What becomes of a request to create a user.
#[derive(Debug, Clone, PartialEq, Eq)]
pub enum UserCreation {
    /// The password and its confirmation differ: nothing is created.
    PasswordsDiffer,
    /// The password could not be hashed.
    Refused(Failure),
    /// The account to store.
    Ready(User),
}

/// The account to store for the line that was entered as email and the
/// password that was entered twice. The email is the line without the
/// whitespace around it. Nothing is created unless the two passwords agree.
pub fn create_user_command(email_line: &str, password: &str, confirm_password: &str) -> (r:
    UserCreation)
    ensures
        match r {
            UserCreation::PasswordsDiffer => password@ != confirm_password@,
            UserCreation::Refused(failure) => {
                &&& password@ == confirm_password@
                &&& failure.kind == ErrorKind::InternalFailure
                &&& exists|salt: Seq<char>| #[trigger]
                    password_hash(password@, salt) == Err::<Seq<char>, Seq<char>>(failure.detail@)
            },
            UserCreation::Ready(user) => {
                &&& password@ == confirm_password@
                &&& user.email@ == trimmed(email_line@)
                &&& user.id == 0
                &&& user.access_token is None
                &&& exists|salt: Seq<char>| #[trigger]
                    password_hash(password@, salt) == Ok::<Seq<char>, Seq<char>>(
                        user.password_hash@,
                    )
            },
        },
{
    if !same_text(password, confirm_password) {
        UserCreation::PasswordsDiffer
    } else {
        match create_user(trim(email_line), password) {
            Ok(user) => UserCreation::Ready(user),
            Err(failure) => UserCreation::Refused(failure),
        }
    }
}

/// Whether a text in lower case is the answer that confirms a deletion.
pub fn is_yes(lowered: &str) -> (r: bool)
    ensures
        r == (lowered@ == "y"@),
{
    same_text(lowered, "y")
}

/// Whether the answer to the question before a deletion confirms it: the
/// answer, without the whitespace around it and in lower case, is `y`.
pub fn confirms_deletion(answer: &str) -> (r: bool)
    ensures
        r == (lowercase(trimmed(answer@)) == "y"@),
{
    let lowered = trim(answer).to_lowercase();
    is_yes(lowered.as_str())
}

/// The line that the listing of users shows for an account.
pub fn user_line(user: &User) -> (r: String)
    ensures
        r@ == "Email: "@ + user.email@,
{
    let mut r = String::from_str("Email: ");
    r.append(user.email.as_str());
    r
}

/// The record that an input describes, before the blob store has given
/// it a file name.
pub open spec fn described_image(input: ImageInput) -> ImageView {
    ImageView {
        alt: input.alt@,
        description: input.description@,
        slug: input.slug@,
        keywords: input.keywords.deep_view(),
        filename: Seq::empty(),
    }
}

/// Starts the creation of the image that an input describes, from the bytes
/// that were read from the file it names. The media type is the one that
/// the extension of the file's path stands for; where the path is a plain
/// name, that extension is what follows its last dot.
pub fn handle_insert_image(input: ImageInput, image_data: Vec<u8>) -> (r: Step)
    ensures
        exists|e: Option<Seq<char>>| #[trigger]
            insert_image_spec(image_data@, extension_media(e), described_image(input)) == r@,
        is_plain_name(input.url@) ==> r@ == insert_image_spec(
            image_data@,
            extension_media(plain_extension(input.url@)),
            described_image(input),
        ),
{
    let (image, source_path) = input.into_image();
    insert_image_from_path(source_path.as_str(), image_data, image)
}

} // verus!
