//! What a directory listing reads of a path: its extension and its text, by
//! the path rules of the platform.

use crate::scanner::ListedEntry;
use crate::text::optional_text;
use std::path::PathBuf;
use vstd::prelude::*;

verus! {

#[verifier::external_type_specification]
#[verifier::external_body]
pub struct ExPathBuf(std::path::PathBuf);

/// The extension of `path`, without the dot, where the path has one and it
/// is text.
pub uninterp spec fn extension_text(path: PathBuf) -> Option<Seq<char>>;

/// `path` written as text, where it can be.
pub uninterp spec fn whole_text(path: PathBuf) -> Option<Seq<char>>;

/// `Path::extension`, with the extension read as text by `OsStr::to_str`. The
/// contract names the result and claims nothing more of it: which part of a
/// path is its extension is for the platform to say.
#[verifier::external_body]
fn extension_of(path: &PathBuf) -> (extension: Option<String>)
    ensures
        optional_text(extension) == extension_text(*path),
{
    path.extension().and_then(|extension| extension.to_str()).map(|text| text.to_string())
}

/// `Path::to_str`. The contract names the result and claims nothing more of
/// it.
#[verifier::external_body]
fn text_of(path: &PathBuf) -> (text: Option<String>)
    ensures
        optional_text(text) == whole_text(*path),
{
    path.to_str().map(|text| text.to_string())
}

/// The entry that a listing gives for the path of an entry that was read.
pub fn entry_of_path(path: &PathBuf) -> (entry: ListedEntry)
    ensures
        entry matches ListedEntry::Found { extension, path: text } && optional_text(extension)
            == extension_text(*path) && optional_text(text) == whole_text(*path),
{
    ListedEntry::Found { extension: extension_of(path), path: text_of(path) }
}

} // verus!
