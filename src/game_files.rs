//! The save-data directory, the save folders in it, and the time a save was last
//! modified. Reading the file system is left to the caller, which hands in what it
//! found as plain values.
use vstd::prelude::*;

use crate::utc_time::{
    convert_date_to_string, displayable, ends_with, lemma_split_nanos, utc_text, EpochOffset,
    Timestamp, NANOS_PER_SEC,
};

verus! {

/// The folder of the game under the user's data directory.
pub const APP_FOLDER: &'static str = "StardewValley";

/// The folder holding one subfolder per saved game.
pub const SAVES_FOLDER: &'static str = "Saves";

/// What `std::path::Path::join` gives for `base` and `component`, read back as text.
pub uninterp spec fn path_join(base: Seq<char>, component: Seq<char>) -> Seq<char>;

/// A single relative path component of ASCII letters and digits.
pub open spec fn plain_component(s: Seq<char>) -> bool {
    &&& s.len() > 0
    &&& forall|i: int|
        0 <= i < s.len() ==> ('a' <= #[trigger] s[i] <= 'z' || 'A' <= s[i] <= 'Z' || '0' <= s[i]
            <= '9')
}

/// Relies on `std::path::Path::join`: a relative component is appended to the base
/// path, so the joined path ends with it. A path made from text reads back unchanged.
#[verifier::external_body]
fn join_component(base: &str, component: &str) -> (r: String)
    requires
        plain_component(component@),
    ensures
        r@ == path_join(base@, component@),
        ends_with(r@, component@),
{
    std::path::Path::new(base).join(component).to_string_lossy().into_owned()
}

/// The save-data directory below `base`.
pub open spec fn saves_dir_under(base: Seq<char>) -> Seq<char> {
    path_join(path_join(base, APP_FOLDER@), SAVES_FOLDER@)
}

/// The directory that save data is resolved against: the user's data directory
/// where the system has one, else the current directory.
pub open spec fn resolution_base(data_dir: Option<String>, current_dir: String) -> Seq<char> {
    match data_dir {
        Some(d) => d@,
        None => current_dir@,
    }
}

/// The default save-data directory: the game's saves folder below the user's data
/// directory, or below `current_dir` where the system reports no data directory.
/// The result is never empty.
pub fn get_saves_data_dir(data_dir: Option<String>, current_dir: String) -> (r: String)
    ensures
        r@ == saves_dir_under(resolution_base(data_dir, current_dir)),
        r@.len() > 0,
{
    let base = match data_dir {
        Some(d) => d,
        None => current_dir,
    };
    proof {
        reveal_strlit("StardewValley");
        reveal_strlit("Saves");
        assert(plain_component(APP_FOLDER@));
        assert(plain_component(SAVES_FOLDER@));
    }
    let app_dir = join_component(base.as_str(), APP_FOLDER);
    join_component(app_dir.as_str(), SAVES_FOLDER)
}

/// Why a command on the saves failed.
#[derive(Debug, PartialEq, Eq)]
pub enum SaveError {
    /// The file system refused a read; the text is the system's own message.
    Io(String),
    /// The save-data directory is missing or holds nothing.
    NoSaveFolders,
    /// A modification time lies outside the range of displayable dates.
    TimeOutOfRange,
}

pub open spec fn no_folders_text() -> Seq<char> {
    "No save folders found"@
}

pub open spec fn out_of_range_text() -> Seq<char> {
    "Modification time is outside the displayable range"@
}

impl SaveError {
    /// The text shown to the user.
    pub open spec fn text(&self) -> Seq<char> {
        match self {
            SaveError::Io(m) => m@,
            SaveError::NoSaveFolders => no_folders_text(),
            SaveError::TimeOutOfRange => out_of_range_text(),
        }
    }

    /// The message handed to the front-end for this error.
    pub fn message(&self) -> (r: String)
        ensures
            r@ == self.text(),
    {
        match self {
            SaveError::Io(m) => m.clone(),
            SaveError::NoSaveFolders => String::from_str("No save folders found"),
            SaveError::TimeOutOfRange => String::from_str(
                "Modification time is outside the displayable range",
            ),
        }
    }
}

/// What a scan of the save-data directory found.
pub enum DirListing {
    /// The path is not an existing directory.
    Missing,
    /// The directory could not be opened; the text is the system's message.
    Unreadable(String),
    /// The directory's entries in the order the system gave them: the path of each
    /// entry read, or the message of the read that failed. Nothing follows a failure.
    Entries(Vec<Result<String, String>>),
}

/// Every entry was read.
pub open spec fn all_read(entries: Seq<Result<String, String>>) -> bool {
    forall|j: int| 0 <= j < entries.len() ==> (#[trigger] entries[j]) is Ok
}

/// The entry at `k` is the first whose read failed.
pub open spec fn first_failure(entries: Seq<Result<String, String>>, k: int) -> bool {
    &&& 0 <= k < entries.len()
    &&& entries[k] is Err
    &&& forall|j: int| 0 <= j < k ==> (#[trigger] entries[j]) is Ok
}

/// The path text of an entry that was read.
pub open spec fn entry_path(entry: Result<String, String>) -> Seq<char> {
    match entry {
        Ok(p) => p@,
        Err(_) => Seq::empty(),
    }
}

/// The paths of `entries` up to the first failed read, or that read's message.
fn read_entries(entries: &Vec<Result<String, String>>) -> (r: Result<Vec<String>, String>)
    ensures
        forall|k: int| first_failure(entries@, k) ==> r == Err::<Vec<String>, String>(entries@[k]->Err_0),
        r is Ok ==> all_read(entries@),
        all_read(entries@) ==> {
            &&& r is Ok
            &&& r->Ok_0@.len() == entries@.len()
            &&& forall|i: int|
                0 <= i < entries@.len() ==> (#[trigger] r->Ok_0@[i])@ == entry_path(entries@[i])
        },
{
    let mut folders: Vec<String> = Vec::new();
    let mut i: usize = 0;
    while i < entries.len()
        invariant
            i <= entries@.len(),
            folders@.len() == i,
            forall|j: int| 0 <= j < i ==> (#[trigger] entries@[j]) is Ok,
            forall|j: int| 0 <= j < i ==> (#[trigger] folders@[j])@ == entry_path(entries@[j]),
        decreases entries@.len() - i,
    {
        match &entries[i] {
            Ok(p) => {
                folders.push(p.clone());
            },
            Err(e) => {
                proof {
                    assert forall|k: int| first_failure(entries@, k) implies k == i by {
                        if k < i {
                            assert(entries@[k] is Ok);
                        } else if k > i {
                            assert(entries@[i as int] is Ok);
                        }
                    }
                }
                return Err(e.clone());
            },
        }
        i = i + 1;
    }
    Ok(folders)
}

/// The save folders of a scanned directory, in the order the scan found them.
/// A missing or empty directory gives `NoSaveFolders`, never an empty list; a
/// failed read gives its message as `Io`; otherwise each entry's path appears
/// exactly once, in place.
pub fn get_all_save_folders(listing: DirListing) -> (r: Result<Vec<String>, SaveError>)
    ensures
        match listing {
            DirListing::Missing => r == Err::<Vec<String>, SaveError>(SaveError::NoSaveFolders),
            DirListing::Unreadable(m) => r == Err::<Vec<String>, SaveError>(SaveError::Io(m)),
            DirListing::Entries(v) => {
                &&& forall|k: int|
                    first_failure(v@, k) ==> r == Err::<Vec<String>, SaveError>(
                        SaveError::Io(v@[k]->Err_0),
                    )
                &&& all_read(v@) && v@.len() == 0 ==> r == Err::<Vec<String>, SaveError>(
                    SaveError::NoSaveFolders,
                )
                &&& all_read(v@) && v@.len() > 0 ==> {
                    &&& r is Ok
                    &&& r->Ok_0@.len() == v@.len()
                    &&& forall|i: int|
                        0 <= i < v@.len() ==> (#[trigger] r->Ok_0@[i])@ == entry_path(v@[i])
                }
            },
        },
        r is Ok ==> (listing matches DirListing::Entries(v) && all_read(v@) && v@.len() > 0),
        r matches Ok(paths) ==> paths@.len() > 0,
{
    match listing {
        DirListing::Missing => Err(SaveError::NoSaveFolders),
        DirListing::Unreadable(m) => Err(SaveError::Io(m)),
        DirListing::Entries(v) => match read_entries(&v) {
            Err(m) => Err(SaveError::Io(m)),
            Ok(folders) => {
                if folders.len() == 0 {
                    Err(SaveError::NoSaveFolders)
                } else {
                    Ok(folders)
                }
            },
        },
    }
}

/// The whole second, rounded down, at which an offset from the epoch lies.
pub open spec fn offset_secs(off: EpochOffset) -> int {
    off.total_nanos() / (NANOS_PER_SEC as int)
}

/// The nanoseconds past that second.
pub open spec fn offset_subsec_nanos(off: EpochOffset) -> int {
    off.total_nanos() % (NANOS_PER_SEC as int)
}

/// The last modification time of a save, written in UTC for display. `modified` is
/// what the system reported: the time as an offset from the epoch, or the message
/// of the read that failed.
pub fn modified_time_text(modified: Result<EpochOffset, String>) -> (r: Result<String, SaveError>)
    ensures
        match modified {
            Err(m) => r == Err::<String, SaveError>(SaveError::Io(m)),
            Ok(off) => if displayable(offset_secs(off), offset_subsec_nanos(off)) {
                &&& r is Ok
                &&& r->Ok_0@ == utc_text(offset_secs(off), offset_subsec_nanos(off))
                &&& r->Ok_0@.len() > 0
                &&& ends_with(r->Ok_0@, " UTC"@)
            } else {
                r == Err::<String, SaveError>(SaveError::TimeOutOfRange)
            },
        },
{
    match modified {
        Err(m) => Err(SaveError::Io(m)),
        Ok(off) => match Timestamp::from_epoch_offset(off) {
            None => Err(SaveError::TimeOutOfRange),
            Some(t) => {
                proof {
                    lemma_split_nanos(t.secs as int, t.nanos as int);
                }
                match convert_date_to_string(t) {
                    None => Err(SaveError::TimeOutOfRange),
                    Some(text) => Ok(text),
                }
            },
        },
    }
}

} // verus!
