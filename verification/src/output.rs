//! The file a picture is written to: whether its name says a format that can
//! be written.
use std::path::Path;
use vstd::prelude::*;
use vstd::string::StringExecFns;

verus! {

/// The extension of the file that a path names, if it has one: what
/// `std::path::Path::extension` finds for the path, which it reads by the
/// rules of the platform the program is built for. For `picture.png` it is
/// `png`; a name without a dot, or with its only dot in front, has none.
pub uninterp spec fn extension_of(path: Seq<char>) -> Option<Seq<char>>;

/// A text in lower case: what `str::to_lowercase` makes of it.
pub uninterp spec fn lowercase_of(text: Seq<char>) -> Seq<char>;

/// The extension of `path`, from `Path::extension`, as text: there is one
/// exactly where [`extension_of`] has one, and it is that one. (The
/// extension of a path that came as text is text again.)
#[verifier::external_body]
fn extension(path: &str) -> (r: Option<String>)
    ensures
        r is Some == extension_of(path@) is Some,
        r is Some ==> r.unwrap()@ == extension_of(path@).unwrap(),
{
    let found = Path::new(path).extension()?;
    Some(found.to_str()?.to_string())
}

/// `text` in lower case, from `str::to_lowercase`: the text that
/// [`lowercase_of`] names.
#[verifier::external_body]
fn lowercase(text: &str) -> (r: String)
    ensures
        r@ == lowercase_of(text@),
{
    text.to_lowercase()
}

/// Whether a lower-case extension names a format that can be written.
pub open spec fn supported(lowered: Seq<char>) -> bool {
    lowered == "jpg"@ || lowered == "png"@ || lowered == "ico"@ || lowered == "pnm"@ || lowered
        == "bmp"@ || lowered == "tiff"@
}

/// The verdict on a path whose extension, with its lower-case form, is
/// `found`: the path itself where the extension is supported, else the
/// complaint.
pub open spec fn spec_judge(path: Seq<char>, found: Option<(Seq<char>, Seq<char>)>) -> Result<
    Seq<char>,
    Seq<char>,
> {
    match found {
        None => Err(path + " has no extension!"@),
        Some((extension, lowered)) => if supported(lowered) {
            Ok(path)
        } else {
            Err("The "@ + extension + " is not supported!"@)
        },
    }
}

/// What `found` says, as mathematical text.
pub open spec fn found_view(found: Option<(String, String)>) -> Option<(Seq<char>, Seq<char>)> {
    match found {
        None => None,
        Some((extension, lowered)) => Some((extension@, lowered@)),
    }
}

/// A verdict, as mathematical text.
pub open spec fn verdict_view(verdict: Result<String, String>) -> Result<Seq<char>, Seq<char>> {
    match verdict {
        Ok(path) => Ok(path@),
        Err(complaint) => Err(complaint@),
    }
}

/// The extension of a path with its lower-case form, as the verdict on the
/// path reads them.
pub open spec fn spec_found(path: Seq<char>) -> Option<(Seq<char>, Seq<char>)> {
    match extension_of(path) {
        None => None,
        Some(extension) => Some((extension, lowercase_of(extension))),
    }
}

fn is_word(text: &String, word: &str) -> (r: bool)
    ensures
        r == (text@ == word@),
{
    *text == word.to_owned()
}

/// Judges a path by its extension. `found` is the extension and its
/// lower-case form, or nothing where the path has no extension.
pub fn judge(path: &str, found: &Option<(String, String)>) -> (r: Result<String, String>)
    ensures
        verdict_view(r) == spec_judge(path@, found_view(*found)),
{
    match found {
        None => Err(String::from_str(path).concat(" has no extension!")),
        Some((extension, lowered)) => {
            if is_word(lowered, "jpg") || is_word(lowered, "png") || is_word(lowered, "ico")
                || is_word(lowered, "pnm") || is_word(lowered, "bmp") || is_word(
                lowered,
                "tiff",
            ) {
                Ok(String::from_str(path))
            } else {
                Err(
                    String::from_str("The ").concat(extension.as_str()).concat(
                        " is not supported!",
                    ),
                )
            }
        },
    }
}

/// Whether writing is refused: a file that exists is written over only by
/// force.
pub fn refuses_overwrite(exists: bool, force: bool) -> (r: bool)
    ensures
        r == (exists && !force),
{
    exists && !force
}

/// Accepts the name of a file to write a picture to: the name comes back
/// where its extension, in any case of letters, is one of `jpg`, `png`,
/// `ico`, `pnm`, `bmp` and `tiff`; else a complaint that names what is
/// missing or not supported.
pub fn valid_file(s: &str) -> (r: Result<String, String>)
    ensures
        verdict_view(r) == spec_judge(s@, spec_found(s@)),
{
    let found = match extension(s) {
        None => None,
        Some(text) => {
            let lowered = lowercase(text.as_str());
            Some((text, lowered))
        },
    };
    judge(s, &found)
}

} // verus!
