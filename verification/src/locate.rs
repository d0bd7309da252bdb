//! The source locator: which path holds a source's database.
//!
//! The known paths are tried in order and the first that exists is taken.
//! Where none exists, two kinds of source are searched for below a fixed
//! directory. What exists on disk is observed by the caller and handed in as
//! plain values; the choice is made here.

use vstd::prelude::*;
use crate::text::{ends_with, join_path, joined_path, same_text, starts_with};

verus! {

/// Whether `expanded` can be `path` with its tilde expanded. Only a tilde
/// that begins the path and is followed by nothing or by a separator is
/// expanded: everything behind it is kept at the end, and what stands for
/// the tilde depends on the user's home directory. Every other path stays as
/// it is.
pub open spec fn is_expansion_of(path: Seq<char>, expanded: Seq<char>) -> bool {
    if path.len() > 0 && path[0] == '~' && (path.len() == 1 || path[1] == '/' || path[1] == '\\') {
        path.skip(1).is_suffix_of(expanded)
    } else {
        expanded == path
    }
}

/// `shellexpand::tilde`: `path` with a leading tilde replaced by the home
/// directory. The tilde is replaced only where nothing or a separator
/// follows it, and then everything behind it is kept at the end; where no
/// home directory is known it stays. Every other path comes back as it is.
#[verifier::external_body]
pub(crate) fn expand_tilde(path: &str) -> (r: String)
    ensures
        is_expansion_of(path@, r@),
{
    shellexpand::tilde(path).into_owned()
}

/// Whether `expanded` can be the paths `paths` with the tilde of each
/// expanded, in order.
pub open spec fn are_expansions_of(paths: Seq<Seq<char>>, expanded: Seq<String>) -> bool {
    &&& expanded.len() == paths.len()
    &&& forall|i: int| 0 <= i < paths.len() ==> is_expansion_of(paths[i], (#[trigger] expanded[i])@)
}

/// The texts of paths.
pub open spec fn texts_of(paths: Seq<String>) -> Seq<Seq<char>> {
    paths.map_values(|p: String| p@)
}

/// The paths with the tilde of each expanded, in order.
pub fn expand_paths(paths: &[String]) -> (r: Vec<String>)
    ensures
        are_expansions_of(texts_of(paths@), r@),
{
    let mut expanded: Vec<String> = Vec::new();
    let mut i: usize = 0;
    while i < paths.len()
        invariant
            i <= paths.len(),
            expanded@.len() == i,
            forall|k: int|
                0 <= k < i ==> is_expansion_of(paths@[k]@, (#[trigger] expanded@[k])@),
        decreases paths.len() - i,
    {
        expanded.push(expand_tilde(paths[i].as_str()));
        i = i + 1;
    }
    expanded
}

/// Whether the path at `i` was seen to exist; a path without an observation
/// counts as absent.
pub open spec fn seen(present: Seq<bool>, i: int) -> bool {
    0 <= i < present.len() && present[i]
}

/// The first of `paths` that was seen to exist: `present[i]` tells whether
/// `paths[i]` exists.
pub fn first_present(paths: &[String], present: &[bool]) -> (r: Option<String>)
    ensures
        match r {
            Some(path) => exists|i: int|
                0 <= i < paths@.len() && seen(present@, i) && path == paths@[i] && forall|k: int|
                    0 <= k < i ==> !seen(present@, k),
            None => forall|i: int| 0 <= i < paths@.len() ==> !seen(present@, i),
        },
{
    let mut i: usize = 0;
    while i < paths.len()
        invariant
            i <= paths.len(),
            forall|k: int| 0 <= k < i ==> !seen(present@, k),
        decreases paths.len() - i,
    {
        if i < present.len() && present[i] {
            assert(seen(present@, i as int));
            return Some(paths[i].clone());
        }
        i = i + 1;
    }
    None
}

/// What was seen of one entry of a scanned directory.
#[derive(Debug, Clone, PartialEq, Eq)]
pub struct ScannedDir {
    /// The entry's name.
    pub name: String,
    /// Whether the entry is a directory.
    pub is_dir: bool,
    /// Whether the database file exists below the entry.
    pub target_exists: bool,
    /// The size of the database file in bytes; absent where it could not be
    /// read.
    pub target_size: Option<u64>,
    /// When the database file was last modified, in nanoseconds since 1970;
    /// absent where it could not be read.
    pub target_modified: Option<i128>,
}

/// The directory that is scanned for the media-listening store.
pub open spec fn podcasts_root() -> Seq<char> {
    "~/Library/Group Containers"@
}

/// The ending of the name of a directory of the media-listening vendor.
pub open spec fn podcasts_suffix() -> Seq<char> {
    ".groups.com.apple.podcasts"@
}

/// The directory that is scanned for browser profiles.
pub open spec fn chrome_root() -> Seq<char> {
    "~/Library/Application Support/Google/Chrome"@
}

/// The path of the media-listening store below an entry named `name` of the
/// directory `root`.
pub open spec fn podcasts_target(root: Seq<char>, name: Seq<char>) -> Seq<char> {
    joined_path(joined_path(joined_path(root, name), "Documents"@), "MTLibrary.sqlite"@)
}

/// The path of the history database below a profile named `name` of the
/// directory `root`.
pub open spec fn chrome_target(root: Seq<char>, name: Seq<char>) -> Seq<char> {
    joined_path(joined_path(root, name), "History"@)
}

/// Whether an entry holds the media-listening store.
pub open spec fn is_podcasts_match(entry: ScannedDir) -> bool {
    entry.is_dir && podcasts_suffix().is_suffix_of(entry.name@) && entry.target_exists
}

/// Whether a name is that of a browser profile.
pub open spec fn is_profile_name(name: Seq<char>) -> bool {
    name == "Default"@ || "Profile "@.is_prefix_of(name) || name == "Guest Profile"@
}

/// Whether an entry is a browser profile whose history can be dated.
pub open spec fn is_chrome_match(entry: ScannedDir) -> bool {
    entry.is_dir && is_profile_name(entry.name@) && entry.target_exists
        && entry.target_modified is Some
}

/// Whether `best` is the index that the profile scan picks among the first
/// `count` entries: a match that no match is newer than, and the first of
/// those equally new.
pub open spec fn is_newest_match(entries: Seq<ScannedDir>, count: int, best: int) -> bool {
    &&& 0 <= best < count
    &&& is_chrome_match(entries[best])
    &&& forall|k: int|
        0 <= k < count && is_chrome_match(#[trigger] entries[k])
            ==> entries[k].target_modified.unwrap() <= entries[best].target_modified.unwrap()
    &&& forall|k: int|
        0 <= k < best && is_chrome_match(#[trigger] entries[k])
            ==> entries[k].target_modified.unwrap() < entries[best].target_modified.unwrap()
}

/// Whether `at` is the index that the group-container scan picks: the first
/// entry that holds the store.
pub open spec fn is_first_podcasts_match(entries: Seq<ScannedDir>, at: int) -> bool {
    &&& 0 <= at < entries.len()
    &&& is_podcasts_match(entries[at])
    &&& forall|k: int| 0 <= k < at ==> !is_podcasts_match(#[trigger] entries[k])
}

/// The entry that the group-container scan picks.
pub fn podcasts_match(entries: &[ScannedDir]) -> (r: Option<usize>)
    ensures
        match r {
            Some(at) => is_first_podcasts_match(entries@, at as int),
            None => forall|i: int|
                0 <= i < entries@.len() ==> !is_podcasts_match(#[trigger] entries@[i]),
        },
{
    let mut i: usize = 0;
    while i < entries.len()
        invariant
            i <= entries.len(),
            forall|k: int| 0 <= k < i ==> !is_podcasts_match(#[trigger] entries@[k]),
        decreases entries.len() - i,
    {
        let entry = &entries[i];
        if entry.is_dir && ends_with(entry.name.as_str(), ".groups.com.apple.podcasts")
            && entry.target_exists {
            return Some(i);
        }
        i = i + 1;
    }
    None
}

/// The group-container scan: the store below the first entry that is a
/// directory of the vendor and holds it.
pub fn discover_podcasts_db(root: &str, entries: &[ScannedDir]) -> (r: Option<String>)
    ensures
        match r {
            Some(path) => exists|at: int|
                is_first_podcasts_match(entries@, at) && path@ == podcasts_target(
                    root@,
                    entries@[at].name@,
                ),
            None => forall|i: int|
                0 <= i < entries@.len() ==> !is_podcasts_match(#[trigger] entries@[i]),
        },
{
    match podcasts_match(entries) {
        Some(at) => {
            let container = join_path(root, entries[at].name.as_str());
            let documents = join_path(container.as_str(), "Documents");
            Some(join_path(documents.as_str(), "MTLibrary.sqlite"))
        },
        None => None,
    }
}

/// Whether a name is that of a browser profile.
pub fn looks_like_profile(name: &str) -> (r: bool)
    ensures
        r == is_profile_name(name@),
{
    same_text(name, "Default") || starts_with(name, "Profile ") || same_text(
        name,
        "Guest Profile",
    )
}

/// The entry that the profile-directory scan picks.
pub fn newest_profile(entries: &[ScannedDir]) -> (r: Option<usize>)
    ensures
        match r {
            Some(best) => is_newest_match(entries@, entries@.len() as int, best as int),
            None => forall|i: int|
                0 <= i < entries@.len() ==> !is_chrome_match(#[trigger] entries@[i]),
        },
{
    let mut best: Option<usize> = None;
    let mut best_time: i128 = 0;
    let mut i: usize = 0;
    while i < entries.len()
        invariant
            i <= entries.len(),
            match best {
                Some(b) => is_newest_match(entries@, i as int, b as int) && best_time
                    == entries@[b as int].target_modified.unwrap(),
                None => forall|k: int| 0 <= k < i ==> !is_chrome_match(#[trigger] entries@[k]),
            },
        decreases entries.len() - i,
    {
        let entry = &entries[i];
        if entry.is_dir && looks_like_profile(entry.name.as_str()) && entry.target_exists {
            match entry.target_modified {
                Some(modified) => {
                    let newer = match best {
                        Some(_) => modified > best_time,
                        None => true,
                    };
                    if newer {
                        best = Some(i);
                        best_time = modified;
                    }
                },
                None => {},
            }
        }
        i = i + 1;
    }
    best
}

/// The profile-directory scan: the history database of the profile whose
/// database was modified last; of several modified at the same time, the
/// first.
pub fn discover_chrome_history_db(root: &str, entries: &[ScannedDir]) -> (r: Option<String>)
    ensures
        match r {
            Some(path) => exists|best: int|
                is_newest_match(entries@, entries@.len() as int, best) && path@ == chrome_target(
                    root@,
                    entries@[best].name@,
                ),
            None => forall|i: int|
                0 <= i < entries@.len() ==> !is_chrome_match(#[trigger] entries@[i]),
        },
{
    match newest_profile(entries) {
        Some(best) => {
            let profile = join_path(root, entries[best].name.as_str());
            Some(join_path(profile.as_str(), "History"))
        },
        None => None,
    }
}

} // verus!
