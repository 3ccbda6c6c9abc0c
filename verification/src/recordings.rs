//! The folder of recordings: where it is, how a new recording is called, and
//! which of the folder's entries are recordings.

use crate::clock::{
    lemma_name_length, lemma_names_differ, stamped_name, Moment, Timestamp, RECORDING_EXTENSION,
};
use crate::text::{ends_with, has_ending};
use vstd::prelude::*;
use vstd::string::*;

verus! {

/// The name of the folder, inside the user's videos folder, that holds the
/// recordings.
pub const RECORDINGS_FOLDER: &'static str = "league_recordings";

/// Why the folder of recordings cannot be used. None of these mends itself,
/// so none is tried again.
#[derive(Debug, Clone, Copy, PartialEq, Eq, Structural)]
pub enum StorageError {
    /// The system names no videos folder for the user.
    VideoDirectoryUnknown,
    /// The folder of recordings is missing and could not be made.
    DirectoryNotCreated,
    /// The folder of recordings could not be read.
    DirectoryUnreadable,
}

/// `leaf` inside `folder`: the two with `separator` between them, which is
/// left out where `folder` is empty or ends with it already.
pub open spec fn joined(folder: Seq<char>, separator: Seq<char>, leaf: Seq<char>) -> Seq<char> {
    if folder.len() == 0 || ends_with(folder, separator) {
        folder + leaf
    } else {
        folder + separator + leaf
    }
}

/// The path of `leaf` inside `folder`, on a system that parts the steps of a
/// path with `separator`.
pub fn join(folder: &str, separator: &str, leaf: &str) -> (path: String)
    ensures
        path@ == joined(folder@, separator@, leaf@),
{
    let mut path = folder.to_owned();
    if folder.unicode_len() != 0 && !has_ending(folder, separator) {
        path.append(separator);
    }
    path.append(leaf);
    path
}

/// The path of the folder of recordings inside the videos folder.
pub open spec fn recordings_folder_in(video_dir: Seq<char>, separator: Seq<char>) -> Seq<char> {
    joined(video_dir, separator, RECORDINGS_FOLDER@)
}

/// Where the recordings are kept: the folder `league_recordings` inside the
/// user's videos folder `video_dir`. Without a videos folder there is no such
/// place. Nothing is made here: see [`RecordingsFolder::open`].
pub fn get_recordings_folder(video_dir: Option<&str>, separator: &str) -> (folder: Result<
    String,
    StorageError,
>)
    ensures
        match video_dir {
            Some(dir) => folder matches Ok(path) && path@ == recordings_folder_in(
                dir@,
                separator@,
            ),
            None => folder == Err::<String, StorageError>(StorageError::VideoDirectoryUnknown),
        },
{
    match video_dir {
        Some(dir) => Ok(join(dir, separator, RECORDINGS_FOLDER)),
        None => Err(StorageError::VideoDirectoryUnknown),
    }
}

/// The folder of recordings, once it is there. No path of a recording is made
/// without one of these.
#[derive(Debug, Clone, PartialEq, Eq)]
pub struct RecordingsFolder {
    path: String,
    separator: String,
}

/// The folder's path and separator as sequences of characters.
pub struct RecordingsFolderView {
    pub path: Seq<char>,
    pub separator: Seq<char>,
}

impl View for RecordingsFolder {
    type V = RecordingsFolderView;

    closed spec fn view(&self) -> RecordingsFolderView {
        RecordingsFolderView { path: self.path@, separator: self.separator@ }
    }
}

impl RecordingsFolder {
    /// The folder at `path`. `present` says whether the folder is there, after
    /// the caller has tried to make it where it was missing.
    pub fn open(path: String, separator: &str, present: bool) -> (folder: Result<
        RecordingsFolder,
        StorageError,
    >)
        ensures
            if present {
                folder matches Ok(opened) && opened@ == (RecordingsFolderView {
                    path: path@,
                    separator: separator@,
                })
            } else {
                folder == Err::<RecordingsFolder, StorageError>(StorageError::DirectoryNotCreated)
            },
    {
        if present {
            Ok(RecordingsFolder { path, separator: separator.to_owned() })
        } else {
            Err(StorageError::DirectoryNotCreated)
        }
    }

    /// The path of the folder.
    pub fn path(&self) -> (path: &str)
        ensures
            path@ == self@.path,
    {
        self.path.as_str()
    }

    /// What parts the steps of a path.
    pub fn separator(&self) -> (separator: &str)
        ensures
            separator@ == self@.separator,
    {
        self.separator.as_str()
    }
}

/// The path of the recording that starts at `now`, inside `folder`.
pub open spec fn recording_path(folder: RecordingsFolderView, now: Moment) -> Seq<char> {
    joined(folder.path, folder.separator, stamped_name(now))
}

/// The path for a recording that starts at `now`. The file is not made here.
///
/// The path goes by the second: two recordings that start within one second
/// get one path, and the later one replaces the earlier.
pub fn get_new_filepath(folder: &RecordingsFolder, now: &Timestamp) -> (path: String)
    ensures
        path@ == recording_path(folder@, now@),
{
    let name = now.recording_name();
    join(folder.path(), folder.separator(), name.as_str())
}

/// Recordings that start at different seconds get different paths.
pub proof fn lemma_paths_differ(folder: RecordingsFolderView, a: Moment, b: Moment)
    requires
        a.is_valid(),
        b.is_valid(),
        recording_path(folder, a) == recording_path(folder, b),
    ensures
        a == b,
{
    let stem = if folder.path.len() == 0 || ends_with(folder.path, folder.separator) {
        folder.path
    } else {
        folder.path + folder.separator
    };
    let x = stamped_name(a);
    let y = stamped_name(b);
    assert(recording_path(folder, a) =~= stem + x);
    assert(recording_path(folder, b) =~= stem + y);
    lemma_name_length(a);
    lemma_name_length(b);
    assert(x =~= y) by {
        assert forall|i: int| 0 <= i < x.len() implies x[i] == y[i] by {
            assert((stem + x)[stem.len() + i] == x[i]);
            assert((stem + y)[stem.len() + i] == y[i]);
        }
    }
    lemma_names_differ(a, b);
}

/// One entry of the folder, as the file system gives it.
#[derive(Debug, Clone, PartialEq, Eq)]
pub struct FolderEntry {
    pub path: String,
    /// The last step of `path`.
    pub file_name: String,
    /// When the file was made, in nanoseconds since the Unix epoch, where the
    /// file system tells.
    pub created: Option<u128>,
}

/// A recording on disk.
#[derive(Debug, Clone, PartialEq, Eq)]
pub struct RecordingFile {
    pub path: String,
    /// When the file was made, in nanoseconds since the Unix epoch, where the
    /// file system tells.
    pub created: Option<u128>,
}

/// A recording on disk, with its path as a sequence of characters.
pub struct RecordingFileView {
    pub path: Seq<char>,
    pub created: Option<u128>,
}

impl View for RecordingFile {
    type V = RecordingFileView;

    open spec fn view(&self) -> RecordingFileView {
        RecordingFileView { path: self.path@, created: self.created }
    }
}

/// The views of `files`, one by one.
pub open spec fn views(files: Seq<RecordingFile>) -> Seq<RecordingFileView> {
    files.map_values(|file: RecordingFile| file@)
}

/// Whether a file of this name is a recording: the name ends with `.mp4` and
/// has something before it.
pub open spec fn has_mp4_extension(file_name: Seq<char>) -> bool {
    file_name.len() > RECORDING_EXTENSION@.len() && ends_with(file_name, RECORDING_EXTENSION@)
}

/// The name that a new recording gets is the name of a recording: what the
/// controller has written, the listing finds.
pub proof fn lemma_new_recording_is_listed(now: Moment)
    ensures
        has_mp4_extension(stamped_name(now)),
{
    let name = stamped_name(now);
    reveal_strlit(".mp4");
    assert(name.subrange(name.len() - RECORDING_EXTENSION@.len(), name.len() as int)
        =~= RECORDING_EXTENSION@);
}

/// The recording that an entry of the folder is, if it is one. An entry that
/// could not be read is none.
pub open spec fn recording_of(entry: Option<FolderEntry>) -> Option<RecordingFileView> {
    match entry {
        Some(entry) => if has_mp4_extension(entry.file_name@) {
            Some(RecordingFileView { path: entry.path@, created: entry.created })
        } else {
            None
        },
        None => None,
    }
}

/// The recordings among `entries`, in the order of `entries`.
pub open spec fn recordings_among(entries: Seq<Option<FolderEntry>>) -> Seq<RecordingFileView> {
    entries.filter_map(|entry: Option<FolderEntry>| recording_of(entry))
}

/// Whether a file of this name is a recording.
pub fn is_recording_name(file_name: &str) -> (is_recording: bool)
    ensures
        is_recording == has_mp4_extension(file_name@),
{
    file_name.unicode_len() > RECORDING_EXTENSION.unicode_len() && has_ending(
        file_name,
        RECORDING_EXTENSION,
    )
}

/// The recordings among the entries of the folder, in their order. An entry is
/// `None` where it could not be read; such an entry is passed over.
pub fn get_recordings(entries: &Vec<Option<FolderEntry>>) -> (recordings: Vec<RecordingFile>)
    ensures
        views(recordings@) == recordings_among(entries@),
{
    let mut recordings: Vec<RecordingFile> = Vec::new();
    let mut i: usize = 0;
    while i < entries.len()
        invariant
            i <= entries.len(),
            views(recordings@) == recordings_among(entries@.take(i as int)),
        decreases entries.len() - i,
    {
        let ghost before = views(recordings@);
        proof {
            assert(entries@.take(i + 1).drop_last() =~= entries@.take(i as int));
        }
        match &entries[i] {
            Some(entry) => {
                if is_recording_name(entry.file_name.as_str()) {
                    let file = RecordingFile { path: entry.path.clone(), created: entry.created };
                    recordings.push(file);
                    proof {
                        assert(views(recordings@) =~= before + seq![file@]);
                    }
                }
            },
            None => {},
        }
        i = i + 1;
    }
    proof {
        assert(entries@.take(entries@.len() as int) =~= entries@);
    }
    recordings
}

/// The recordings in the folder. `listing` is what reading the folder gave:
/// nothing where the folder could not be read.
pub fn list_recordings(listing: Option<&Vec<Option<FolderEntry>>>) -> (recordings: Result<
    Vec<RecordingFile>,
    StorageError,
>)
    ensures
        match listing {
            Some(entries) => recordings matches Ok(files) && views(files@) == recordings_among(
                entries@,
            ),
            None => recordings == Err::<Vec<RecordingFile>, StorageError>(
                StorageError::DirectoryUnreadable,
            ),
        },
{
    match listing {
        Some(entries) => Ok(get_recordings(entries)),
        None => Err(StorageError::DirectoryUnreadable),
    }
}

} // verus!
