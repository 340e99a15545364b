//! Scanning a music directory: of the entries that one listing gives, the
//! paths of those with an audio extension.
//!
//! Listing the directory is the caller's. This module takes what the listing
//! gave, entry by entry, and keeps or skips each.

use crate::error::ErrorKind;
use crate::text::same_text;
use vstd::prelude::*;

verus! {

/// One step of a directory listing.
#[derive(Clone, Debug, PartialEq, Eq)]
pub enum ListedEntry {
    /// The entry could not be read.
    Unreadable,
    /// An entry that was read.
    Found {
        /// The extension of the entry's path, without the dot, where the path
        /// has one that is text.
        extension: Option<String>,
        /// The entry's full path, where it can be written as text.
        path: Option<String>,
    },
}

/// The extensions of playable files. The match is exact, case included.
pub open spec fn is_audio_extension_text(extension: Seq<char>) -> bool {
    extension == "mp3"@ || extension == "wav"@ || extension == "flac"@
}

/// Whether `entry` is kept: it was read, its extension is an audio one, and
/// its path can be written as text.
pub open spec fn is_kept(entry: ListedEntry) -> bool {
    match entry {
        ListedEntry::Found { extension: Some(extension), path: Some(_) } => is_audio_extension_text(
            extension@,
        ),
        _ => false,
    }
}

/// The path of an entry that is kept.
pub open spec fn path_text(entry: ListedEntry) -> Seq<char> {
    match entry {
        ListedEntry::Found { path: Some(path), .. } => path@,
        _ => Seq::empty(),
    }
}

/// The paths that a scan returns for `entries`: those of the kept entries, in
/// the order of the listing.
pub open spec fn kept_paths(entries: Seq<ListedEntry>) -> Seq<Seq<char>> {
    entries.filter(|entry: ListedEntry| is_kept(entry)).map_values(
        |entry: ListedEntry| path_text(entry),
    )
}

/// The text of each path in `paths`.
pub open spec fn texts(paths: Seq<String>) -> Seq<Seq<char>> {
    paths.map_values(|path: String| path@)
}

/// Whether `extension` is one of `mp3`, `wav`, `flac`.
pub fn is_audio_extension(extension: &str) -> (audio: bool)
    ensures
        audio == is_audio_extension_text(extension@),
{
    same_text(extension, "mp3") || same_text(extension, "wav") || same_text(extension, "flac")
}

/// The path of `entry` if it is kept, nothing if it is skipped.
pub fn playable_path(entry: &ListedEntry) -> (kept: Option<String>)
    ensures
        kept is Some <==> is_kept(*entry),
        kept matches Some(path) ==> path@ == path_text(*entry),
{
    match entry {
        ListedEntry::Found { extension: Some(extension), path: Some(path) } => {
            if is_audio_extension(extension.as_str()) {
                Some(path.clone())
            } else {
                None
            }
        },
        _ => None,
    }
}

/// Scans a directory from its listing. A directory that could not be opened
/// fails the scan with the cause. Otherwise the scan succeeds, whatever the
/// entries: those that cannot be read, that have no audio extension or whose
/// path is no text are skipped, and an empty result is a success.
pub fn scan(listing: Result<Vec<ListedEntry>, String>) -> (result: Result<Vec<String>, ErrorKind>)
    ensures
        match listing {
            Ok(entries) => result matches Ok(paths) && texts(paths@) == kept_paths(entries@)
                && paths@.len() <= entries@.len(),
            Err(cause) => result == Err::<Vec<String>, ErrorKind>(
                ErrorKind::DirectoryAccessError { cause },
            ),
        },
{
    match listing {
        Err(cause) => Err(ErrorKind::DirectoryAccessError { cause }),
        Ok(entries) => {
            let mut paths: Vec<String> = Vec::new();
            let mut i: usize = 0;
            assert(entries@.take(0) =~= Seq::<ListedEntry>::empty());
            assert(texts(paths@) =~= kept_paths(entries@.take(0)));
            while i < entries.len()
                invariant
                    i <= entries.len(),
                    texts(paths@) == kept_paths(entries@.take(i as int)),
                decreases entries.len() - i,
            {
                let kept = playable_path(&entries[i]);
                proof {
                    lemma_kept_paths_push(entries@.take(i as int), entries@[i as int]);
                    assert(entries@.take(i as int).push(entries@[i as int]) =~= entries@.take(
                        i as int + 1,
                    ));
                }
                match kept {
                    Some(path) => {
                        assert(texts(paths@.push(path)) =~= texts(paths@).push(path@));
                        paths.push(path);
                    },
                    None => {},
                }
                i += 1;
            }
            proof {
                assert(entries@.take(i as int) =~= entries@);
                lemma_kept_paths_exact(entries@);
                assert(texts(paths@).len() == paths@.len());
            }
            Ok(paths)
        },
    }
}

/// One more entry at the end of a listing adds its path at the end of the
/// result if it is kept, and nothing if it is skipped.
pub proof fn lemma_kept_paths_push(entries: Seq<ListedEntry>, entry: ListedEntry)
    ensures
        kept_paths(entries.push(entry)) == if is_kept(entry) {
            kept_paths(entries).push(path_text(entry))
        } else {
            kept_paths(entries)
        },
{
    let keep = |e: ListedEntry| is_kept(e);
    let longer = entries.push(entry);
    assert(longer.drop_last() =~= entries);
    assert(longer.last() == entry);
    reveal_with_fuel(Seq::filter, 2);
    if is_kept(entry) {
        assert(longer.filter(keep) =~= entries.filter(keep).push(entry));
        assert(kept_paths(longer) =~= kept_paths(entries).push(path_text(entry)));
    } else {
        assert(longer.filter(keep) =~= entries.filter(keep));
    }
}

/// Whether `path` is the path of some kept entry of `entries`.
pub open spec fn is_path_of_kept(entries: Seq<ListedEntry>, path: Seq<char>) -> bool {
    exists|j: int|
        0 <= j < entries.len() && is_kept(#[trigger] entries[j]) && path_text(entries[j]) == path
}

/// An empty listing gives an empty result.
pub proof fn lemma_empty_listing()
    ensures
        kept_paths(Seq::empty()) == Seq::<Seq<char>>::empty(),
{
    reveal_with_fuel(Seq::filter, 1);
    assert(kept_paths(Seq::empty()) =~= Seq::<Seq<char>>::empty());
}

/// A scan returns the path of each kept entry and nothing else: every path
/// in the result is that of a kept entry, every kept entry has its path in
/// the result, and the result is no longer than the listing.
pub proof fn lemma_kept_paths_exact(entries: Seq<ListedEntry>)
    ensures
        kept_paths(entries).len() <= entries.len(),
        forall|i: int|
            0 <= i < kept_paths(entries).len() ==> is_path_of_kept(
                entries,
                #[trigger] kept_paths(entries)[i],
            ),
        forall|j: int|
            0 <= j < entries.len() && is_kept(#[trigger] entries[j]) ==> kept_paths(
                entries,
            ).contains(path_text(entries[j])),
    decreases entries.len(),
{
    if entries.len() == 0 {
        lemma_empty_listing();
        assert(entries =~= Seq::empty());
    } else {
        let front = entries.drop_last();
        let last = entries.last();
        lemma_kept_paths_exact(front);
        lemma_kept_paths_push(front, last);
        assert(front.push(last) =~= entries);
        let out = kept_paths(entries);
        let before = kept_paths(front);
        assert forall|i: int| 0 <= i < out.len() implies is_path_of_kept(
            entries,
            #[trigger] out[i],
        ) by {
            if i < before.len() {
                assert(out[i] == before[i]);
                assert(is_path_of_kept(front, before[i]));
                let j = choose|j: int|
                    0 <= j < front.len() && is_kept(#[trigger] front[j]) && path_text(front[j])
                        == before[i];
                assert(entries[j] == front[j]);
            } else {
                assert(entries[entries.len() - 1] == last);
            }
        }
        assert forall|j: int| 0 <= j < entries.len() && is_kept(
            #[trigger] entries[j],
        ) implies out.contains(path_text(entries[j])) by {
            if j < front.len() {
                assert(front[j] == entries[j]);
                let k = choose|k: int| 0 <= k < before.len() && before[k] == path_text(front[j]);
                assert(out[k] == before[k]);
            } else {
                assert(out[out.len() - 1] == path_text(last));
            }
        }
    }
}

} // verus!
