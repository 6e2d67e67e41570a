//! The blob store's naming rules: which file holds the bytes of an image,
//! and what becomes of that name when the image is renamed or deleted.

use crate::media::{extension_for, MediaType, MediaTypeView};
use crate::text::join3;
use vstd::prelude::*;
use vstd::string::*;

verus! {

/// The name of the file that holds the blob of an image: its slug, a dot,
/// and the extension of its media type.
pub open spec fn stored_filename(slug: Seq<char>, media: MediaTypeView) -> Seq<char> {
    slug + seq!['.'] + extension_for(media)
}

/// The extension that a renamed file keeps: its own, or `jpg` where it had none.
pub open spec fn kept_extension(extension: Option<Seq<char>>) -> Seq<char> {
    match extension {
        Some(e) => e,
        None => "jpg"@,
    }
}

/// The name of a file after it is renamed to `new_base`, given the extension
/// that its old name had.
pub open spec fn renamed_filename(new_base: Seq<char>, extension: Option<Seq<char>>) -> Seq<char> {
    new_base + seq!['.'] + kept_extension(extension)
}

/// Calls `std::path::Path::extension` on the text as a path. The contract
/// claims what the method documents: an extension is what follows the last
/// dot of the file name, so it holds no dot; and a text without separator
/// or colon is one file name, whose extension is `plain_extension`.
#[verifier::external_body]
fn path_extension(path: &str) -> (r: Option<String>)
    ensures
        r matches Some(e) ==> !e@.contains('.'),
        is_plain_name(path@) ==> found_extension(r) == plain_extension(path@),
{
    match std::path::Path::new(path).extension() {
        Some(e) => match e.to_str() {
            Some(s) => Some(s.to_string()),
            None => None,
        },
        None => None,
    }
}

/// What to do about a file that is to be deleted.
#[derive(Debug, Clone, Copy, PartialEq, Eq, Structural)]
pub enum DeletePlan {
    /// The file is not there: the deletion has succeeded already.
    AlreadyAbsent,
    /// The file is there and has to be removed.
    Remove,
}

/// The manager of the directory that holds the image files.
#[derive(Debug, Clone, PartialEq, Eq)]
pub struct ImageFileManager {
    base_path: String,
}

impl ImageFileManager {
    /// The directory that the files are kept in.
    pub closed spec fn root(&self) -> Seq<char> {
        self.base_path@
    }

    pub fn new(base_path: &str) -> (r: ImageFileManager)
        ensures
            r.root() == base_path@,
    {
        ImageFileManager { base_path: String::from_str(base_path) }
    }

    /// The directory that the files are kept in.
    pub fn base_path(&self) -> (r: &str)
        ensures
            r@ == self.root(),
    {
        self.base_path.as_str()
    }

    /// The name under which the blob of an image with the given slug and
    /// media type is written.
    pub fn filename_for(&self, slug: &str, mime_type: &MediaType) -> (r: String)
        ensures
            r@ == stored_filename(slug@, mime_type@),
    {
        proof {
            reveal_strlit(".");
            assert("."@ =~= seq!['.']);
        }
        join3(slug, ".", mime_type.extension())
    }

    /// Whether a file that is to be deleted still has to be removed. A file
    /// that does not exist counts as deleted.
    pub fn delete_plan(&self, present: bool) -> (r: DeletePlan)
        ensures
            present ==> r == DeletePlan::Remove,
            !present ==> r == DeletePlan::AlreadyAbsent,
    {
        if present {
            DeletePlan::Remove
        } else {
            DeletePlan::AlreadyAbsent
        }
    }

    /// The extension of a file name: of a plain name, what follows its last dot.
    pub fn extension_of(filename: &str) -> (r: Option<String>)
        ensures
            r matches Some(e) ==> !e@.contains('.'),
            is_plain_name(filename@) ==> found_extension(r) == plain_extension(filename@),
    {
        path_extension(filename)
    }

    /// The name of a file after it is renamed to `new_filename`, given the
    /// extension that its old name had.
    pub fn renamed_filename(new_filename: &str, extension: Option<&str>) -> (r: String)
        ensures
            r@ == renamed_filename(
                new_filename@,
                match extension {
                    Some(e) => Some(e@),
                    None => None,
                },
            ),
    {
        proof {
            reveal_strlit(".");
            assert("."@ =~= seq!['.']);
        }
        match extension {
            Some(e) => join3(new_filename, ".", e),
            None => join3(new_filename, ".", "jpg"),
        }
    }

    /// The name that the file `old_filename` gets when it is renamed to
    /// `new_filename`: the new name, a dot, and the extension that the path
    /// rules find in the old name, or `jpg` where they find none. Where the
    /// old name is a plain name, that extension is what follows its last dot.
    pub fn rename_target(&self, old_filename: &str, new_filename: &str) -> (r: String)
        ensures
            exists|e: Option<Seq<char>>|
                {
                    &&& r@ == #[trigger] renamed_filename(new_filename@, e)
                    &&& e matches Some(x) ==> !x.contains('.')
                },
            is_plain_name(old_filename@) ==> r@ == renamed_filename(
                new_filename@,
                plain_extension(old_filename@),
            ),
    {
        match ImageFileManager::extension_of(old_filename) {
            Some(e) => {
                let r = ImageFileManager::renamed_filename(new_filename, Some(e.as_str()));
                assert(r@ == renamed_filename(new_filename@, Some(e@)));
                r
            },
            None => {
                let r = ImageFileManager::renamed_filename(new_filename, None);
                assert(r@ == renamed_filename(new_filename@, None));
                r
            },
        }
    }
}

/// Whether a text, taken as a path, is a single name on every platform: it
/// holds no separator, neither `/` nor `\`, and no colon.
pub open spec fn is_plain_name(name: Seq<char>) -> bool {
    !name.contains('/') && !name.contains('\\') && !name.contains(':')
}

/// The position of the last dot in a text, or -1 where it holds none.
pub open spec fn last_dot(name: Seq<char>) -> int
    decreases name.len(),
{
    if name.len() == 0 {
        -1
    } else if name.last() == '.' {
        name.len() - 1
    } else {
        last_dot(name.drop_last())
    }
}

/// The extension of a plain name: what follows its last dot. A name has no
/// extension where it holds no dot, where its only dot is its first
/// character, and where it is the name `..` of the parent directory.
pub open spec fn plain_extension(name: Seq<char>) -> Option<Seq<char>> {
    let dot = last_dot(name);
    if dot <= 0 || name == seq!['.', '.'] {
        None
    } else {
        Some(name.subrange(dot + 1, name.len() as int))
    }
}

/// The text of an extension that was found, if one was.
pub open spec fn found_extension(found: Option<String>) -> Option<Seq<char>> {
    match found {
        Some(e) => Some(e@),
        None => None,
    }
}

/// A text that ends in a dot and an extension without a dot has its last
/// dot just before the extension.
pub proof fn lemma_last_dot_before_extension(base: Seq<char>, extension: Seq<char>)
    requires
        !extension.contains('.'),
    ensures
        last_dot(base + seq!['.'] + extension) == base.len(),
    decreases extension.len(),
{
    let name = base + seq!['.'] + extension;
    if extension.len() == 0 {
        assert(name.last() == '.');
    } else {
        let shorter = extension.drop_last();
        assert(extension.contains(extension.last()));
        assert(name.last() == extension.last());
        assert(name.drop_last() =~= base + seq!['.'] + shorter);
        assert forall|i: int| 0 <= i < shorter.len() implies shorter[i] != '.' by {
            assert(extension.contains(extension[i]));
        }
        lemma_last_dot_before_extension(base, shorter);
    }
}

/// The file that the blob store writes for a slug keeps its extension when
/// it is renamed: where the slug is a plain name and not empty, the name of
/// the file is a plain name, and what follows its last dot is the extension
/// of the media type.
pub proof fn stored_filename_has_its_extension(slug: Seq<char>, media: MediaTypeView)
    requires
        slug.len() > 0,
        is_plain_name(slug),
    ensures
        is_plain_name(stored_filename(slug, media)),
        plain_extension(stored_filename(slug, media)) == Some(extension_for(media)),
        kept_extension(plain_extension(stored_filename(slug, media))) == extension_for(media),
{
    reveal_strlit("png");
    reveal_strlit("jpg");
    let extension = extension_for(media);
    let name = stored_filename(slug, media);
    assert(extension =~= seq!['p', 'n', 'g'] || extension =~= seq!['j', 'p', 'g']);
    assert(!extension.contains('.'));
    lemma_last_dot_before_extension(slug, extension);
    assert(name.subrange(slug.len() as int + 1, name.len() as int) =~= extension);
    assert(name.len() == slug.len() + 4);
    assert forall|i: int| 0 <= i < name.len() implies name[i] != '/' && name[i] != '\\' && name[i]
        != ':' by {
        if i < slug.len() {
            assert(slug.contains(slug[i]));
        }
    }
}

} // verus!
