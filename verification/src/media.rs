//! Media types: how they are read from text, guessed from a file name and
//! mapped to the extension of a stored file.

use crate::text::same_text;
use vstd::prelude::*;
use vstd::string::*;

verus! {

/// A media type, reduced to what the service reads of it: its top-level type
/// and its subtype, both in lower case as the parser hands them out.
#[derive(Debug, Clone, PartialEq, Eq)]
pub struct MediaType {
    pub type_: String,
    pub subtype: String,
}

/// What a `MediaType` holds, as mathematical values.
pub struct MediaTypeView {
    pub type_: Seq<char>,
    pub subtype: Seq<char>,
}

impl View for MediaType {
    type V = MediaTypeView;

    open spec fn view(&self) -> MediaTypeView {
        MediaTypeView { type_: self.type_@, subtype: self.subtype@ }
    }
}

/// The type and subtype that the `mime` crate reads from `text`, or `None`
/// where it rejects the text.
pub uninterp spec fn parsed_media_type(text: Seq<char>) -> Option<MediaTypeView>;

/// The type and subtype of the first media type that the `mime_guess` crate
/// lists for a file extension, or of `application/octet-stream` where it
/// lists none.
pub uninterp spec fn guessed_media_type(extension: Seq<char>) -> MediaTypeView;

/// `application/octet-stream`, the media type of bytes of unknown kind.
pub open spec fn octet_stream() -> MediaTypeView {
    MediaTypeView { type_: "application"@, subtype: "octet-stream"@ }
}

/// The media type that a parse result stands for: the parsed one, or
/// `application/octet-stream` where the text was rejected.
pub open spec fn or_octet_stream(parsed: Option<MediaTypeView>) -> MediaTypeView {
    match parsed {
        Some(m) => m,
        None => octet_stream(),
    }
}

/// The media type of a form part with the given content type header.
pub open spec fn content_type_media(content_type: Option<Seq<char>>) -> MediaTypeView {
    match content_type {
        Some(text) => or_octet_stream(parsed_media_type(text)),
        None => octet_stream(),
    }
}

/// The media type of a file whose path has the given extension.
pub open spec fn extension_media(extension: Option<Seq<char>>) -> MediaTypeView {
    match extension {
        Some(e) => guessed_media_type(e),
        None => octet_stream(),
    }
}

/// The extension under which a blob of the given media type is stored:
/// `png` for `image/png`, and `jpg` for `image/jpeg` and for every other type.
pub open spec fn extension_for(media: MediaTypeView) -> Seq<char> {
    if media.type_ == "image"@ && media.subtype == "png"@ {
        "png"@
    } else {
        "jpg"@
    }
}

/// Calls `str::parse::<mime::Mime>` and hands out the type and subtype of the
/// result. The contract claims only that the outcome is the one that
/// `parsed_media_type` names for the same text.
#[verifier::external_body]
fn mime_parse(text: &str) -> (r: Option<MediaType>)
    ensures
        match r {
            Some(m) => parsed_media_type(text@) == Some(m@),
            None => parsed_media_type(text@) is None,
        },
{
    match text.parse::<mime::Mime>() {
        Ok(m) => Some(
            MediaType {
                type_: m.type_().as_str().to_string(),
                subtype: m.subtype().as_str().to_string(),
            },
        ),
        Err(_) => None,
    }
}

/// Calls `mime_guess::from_ext(..).first_or_octet_stream()` and hands out the
/// type and subtype of the result. The contract claims only that the outcome
/// is the one that `guessed_media_type` names for the same extension.
#[verifier::external_body]
fn mime_guess_from_ext(extension: &str) -> (r: MediaType)
    ensures
        r@ == guessed_media_type(extension@),
{
    let m = mime_guess::from_ext(extension).first_or_octet_stream();
    MediaType { type_: m.type_().as_str().to_string(), subtype: m.subtype().as_str().to_string() }
}

impl MediaType {
    /// The media type with the given type and subtype.
    pub fn new(type_: &str, subtype: &str) -> (r: MediaType)
        ensures
            r@ == (MediaTypeView { type_: type_@, subtype: subtype@ }),
    {
        MediaType { type_: String::from_str(type_), subtype: String::from_str(subtype) }
    }

    /// `application/octet-stream`.
    pub fn octet_stream() -> (r: MediaType)
        ensures
            r@ == octet_stream(),
    {
        MediaType::new("application", "octet-stream")
    }

    /// Reads a media type such as `image/png` from text.
    pub fn parse(text: &str) -> (r: Option<MediaType>)
        ensures
            match r {
                Some(m) => parsed_media_type(text@) == Some(m@),
                None => parsed_media_type(text@) is None,
            },
    {
        mime_parse(text)
    }

    /// The media type that a parse result stands for.
    pub fn or_octet_stream(parsed: Option<MediaType>) -> (r: MediaType)
        ensures
            r@ == or_octet_stream(
                match parsed {
                    Some(m) => Some(m@),
                    None => None,
                },
            ),
    {
        match parsed {
            Some(m) => m,
            None => MediaType::octet_stream(),
        }
    }

    /// The media type of a form part: the one its content type header names,
    /// or `application/octet-stream` where the header is missing or unreadable.
    pub fn from_content_type(content_type: Option<&str>) -> (r: MediaType)
        ensures
            r@ == content_type_media(
                match content_type {
                    Some(t) => Some(t@),
                    None => None,
                },
            ),
    {
        match content_type {
            Some(text) => MediaType::or_octet_stream(MediaType::parse(text)),
            None => MediaType::octet_stream(),
        }
    }

    /// The media type of a file, guessed from the extension of its path.
    pub fn from_extension(extension: Option<&str>) -> (r: MediaType)
        ensures
            r@ == extension_media(
                match extension {
                    Some(e) => Some(e@),
                    None => None,
                },
            ),
    {
        match extension {
            Some(e) => mime_guess_from_ext(e),
            None => MediaType::octet_stream(),
        }
    }

    /// The extension under which a blob of this media type is stored.
    pub fn extension(&self) -> (r: &'static str)
        ensures
            r@ == extension_for(self@),
    {
        if same_text(self.type_.as_str(), "image") && same_text(self.subtype.as_str(), "png") {
            "png"
        } else {
            "jpg"
        }
    }
}

} // verus!
