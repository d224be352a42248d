use vstd::prelude::*;
use vstd::string::*;
use crate::model::{Metadata, MediaError};
use crate::paths::{extension, extension_of, file_name, file_name_of, join, joined, parent, parent_of};
use crate::scanner::FileScanner;
use crate::text::{decimal, i32_text, replace_all, replaced, sanitize, sanitized, u64_text};

verus! {

/// The name of the hidden directory, beside a file, that holds its backups.
pub const BACKUP_DIR: &'static str = ".autogenre_backups";

/// A text field as it stands in a folder name: sanitised, or `Unknown`.
pub open spec fn folder_field(t: Option<String>) -> Seq<char> {
    match t {
        Some(s) => sanitized(s@, false),
        None => "Unknown"@,
    }
}

/// A year as it stands in a folder name: its decimal text, or `Unknown`.
pub open spec fn folder_year(y: Option<i32>) -> Seq<char> {
    match y {
        Some(v) => decimal(v as int),
        None => "Unknown"@,
    }
}

/// `pattern` with `{genre}`, `{artist}`, `{album}`, `{title}` and `{year}`
/// replaced, in that order, by the track's fields.
pub open spec fn expanded(pattern: Seq<char>, m: Metadata) -> Seq<char> {
    let p1 = replaced(pattern, "{genre}"@, folder_field(m.genre));
    let p2 = replaced(p1, "{artist}"@, folder_field(m.artist));
    let p3 = replaced(p2, "{album}"@, folder_field(m.album));
    let p4 = replaced(p3, "{title}"@, folder_field(m.title));
    replaced(p4, "{year}"@, folder_year(m.year))
}

/// The file name that renaming gives a track with extension `ext`:
/// `"{artist} - {title}.{ext}"`, with the fields sanitised (dots kept).
pub open spec fn renamed(m: Metadata, ext: Seq<char>) -> Seq<char> {
    let artist = match m.artist {
        Some(a) => sanitized(a@, true),
        None => "Unknown Artist"@,
    };
    let title = match m.title {
        Some(t) => sanitized(t@, true),
        None => "Unknown Title"@,
    };
    artist + " - "@ + title + "."@ + ext
}

/// The name of a backup of `file` taken at `timestamp` (seconds since the epoch).
pub open spec fn backup_name(file: Seq<char>, timestamp: u64) -> Seq<char> {
    file + "."@ + decimal(timestamp as int) + ".json"@
}

/// A move of a file: the folder that must exist, and where the file goes.
#[derive(Clone, Debug, PartialEq, Eq)]
pub struct MovePlan {
    pub folder: String,
    pub destination: String,
}

/// Where a backup goes: the directory to create and the file to write.
#[derive(Clone, Debug, PartialEq, Eq)]
pub struct BackupPlan {
    pub directory: String,
    pub file: String,
}

fn folder_text(t: &Option<String>) -> (r: String)
    ensures
        r@ == folder_field(*t),
{
    match t {
        Some(s) => sanitize(s.as_str(), false),
        None => String::from_str("Unknown"),
    }
}

/// Expands a folder-naming pattern against a track's metadata.
pub fn expand_pattern(pattern: &str, metadata: &Metadata) -> (r: String)
    ensures
        r@ == expanded(pattern@, *metadata),
{
    proof {
        reveal_strlit("{genre}");
        reveal_strlit("{artist}");
        reveal_strlit("{album}");
        reveal_strlit("{title}");
        reveal_strlit("{year}");
    }
    let p1 = replace_all(pattern, "{genre}", folder_text(&metadata.genre).as_str());
    let p2 = replace_all(p1.as_str(), "{artist}", folder_text(&metadata.artist).as_str());
    let p3 = replace_all(p2.as_str(), "{album}", folder_text(&metadata.album).as_str());
    let p4 = replace_all(p3.as_str(), "{title}", folder_text(&metadata.title).as_str());
    let year = match metadata.year {
        Some(y) => i32_text(y),
        None => String::from_str("Unknown"),
    };
    replace_all(p4.as_str(), "{year}", year.as_str())
}

/// The file name that renaming gives a track, for extension `extension`.
pub fn rename_target(metadata: &Metadata, extension: &str) -> (r: String)
    ensures
        r@ == renamed(*metadata, extension@),
{
    let mut name = match &metadata.artist {
        Some(a) => sanitize(a.as_str(), true),
        None => String::from_str("Unknown Artist"),
    };
    let title = match &metadata.title {
        Some(t) => sanitize(t.as_str(), true),
        None => String::from_str("Unknown Title"),
    };
    name.append(" - ");
    name.append(title.as_str());
    name.append(".");
    name.append(extension);
    name
}

/// The name of a backup of `filename` taken at `timestamp`.
pub fn backup_file_name(filename: &str, timestamp: u64) -> (r: String)
    ensures
        r@ == backup_name(filename@, timestamp),
{
    let mut name = String::from_str(filename);
    name.append(".");
    name.append(u64_text(timestamp).as_str());
    name.append(".json");
    name
}

/// Decides a planned move once it is known whether something exists at its
/// destination: a move never overwrites, so it is refused then.
pub fn check_destination(plan: MovePlan, destination_exists: bool) -> (r: Result<MovePlan, MediaError>)
    ensures
        destination_exists ==> (r matches Err(MediaError::DestinationExists(d)) && d@ == plan.destination@),
        !destination_exists ==> r == Ok::<MovePlan, MediaError>(plan),
{
    if destination_exists {
        Err(MediaError::DestinationExists(plan.destination))
    } else {
        Ok(plan)
    }
}

/// Decides what to back up before a tag write. Without a backup the write
/// goes ahead (`Ok(None)`); with one, the current metadata is what is backed
/// up (`Ok(Some(..))`), and the write is refused when there is none.
pub fn backup_before_write(backup: bool, current: Option<Metadata>) -> (r: Result<Option<Metadata>, MediaError>)
    ensures
        !backup ==> r == Ok::<Option<Metadata>, MediaError>(None),
        backup && current is Some ==> r == Ok::<Option<Metadata>, MediaError>(current),
        backup && current is None ==> r == Err::<Option<Metadata>, MediaError>(MediaError::NothingToBackUp),
{
    if !backup {
        Ok(None)
    } else {
        match current {
            Some(m) => Ok(Some(m)),
            None => Err(MediaError::NothingToBackUp),
        }
    }
}

/// The pattern `{genre}` names the folder `Unknown` for every track without a genre.
pub proof fn lemma_unknown_genre_folder(m: Metadata)
    requires
        m.genre is None,
    ensures
        expanded("{genre}"@, m) == "Unknown"@,
{
    reveal_strlit("{genre}");
    reveal_strlit("{artist}");
    reveal_strlit("{album}");
    reveal_strlit("{title}");
    reveal_strlit("{year}");
    reveal_strlit("Unknown");
    let u = "Unknown"@;
    let g = "{genre}"@;
    assert(g.subrange(0, 7) =~= g);
    assert(g.subrange(7, 7) =~= Seq::<char>::empty());
    assert(replaced(Seq::<char>::empty(), g, u) == Seq::<char>::empty());
    assert(replaced(g, g, u) =~= u);
    assert(replaced(u, "{artist}"@, folder_field(m.artist)) == u);
    let tail = u.subrange(1, 7);
    assert(u.subrange(0, 7)[0] != "{album}"@[0]);
    assert(replaced(tail, "{album}"@, folder_field(m.album)) == tail);
    assert(replaced(u, "{album}"@, folder_field(m.album)) =~= u);
    assert(u.subrange(0, 7)[0] != "{title}"@[0]);
    assert(replaced(tail, "{title}"@, folder_field(m.title)) == tail);
    assert(replaced(u, "{title}"@, folder_field(m.title)) =~= u);
    let y = "{year}"@;
    let yt = folder_year(m.year);
    assert(u.subrange(0, 6)[0] != y[0]);
    assert(tail.subrange(0, 6)[0] != y[0]);
    let tail2 = tail.subrange(1, 6);
    assert(replaced(tail2, y, yt) == tail2);
    assert(replaced(tail, y, yt) =~= tail);
    assert(replaced(u, y, yt) =~= u);
}

impl FileScanner {
    /// Plans moving the file at `path` into the folder that `pattern`, expanded
    /// against `metadata`, names under `base_folder`, keeping its file name.
    pub fn organize_file(&self, path: &str, metadata: &Metadata, base_folder: &str, pattern: &str) -> (r: Result<MovePlan, MediaError>)
        ensures
            file_name_of(path@) is None ==> r == Err::<MovePlan, MediaError>(MediaError::NoFileName),
            file_name_of(path@) matches Some(n) ==> (r matches Ok(p)
                && p.folder@ == joined(base_folder@, expanded(pattern@, *metadata))
                && p.destination@ == joined(p.folder@, n)),
    {
        let expanded = expand_pattern(pattern, metadata);
        let folder = join(base_folder, expanded.as_str());
        match file_name(path) {
            None => Err(MediaError::NoFileName),
            Some(n) => {
                let destination = join(folder.as_str(), n.as_str());
                Ok(MovePlan { folder, destination })
            },
        }
    }

    /// Plans renaming the file at `path` to `"{artist} - {title}.{ext}"` in
    /// its own directory.
    pub fn rename_file(&self, path: &str, metadata: &Metadata) -> (r: Result<MovePlan, MediaError>)
        ensures
            extension_of(path@) is None ==> r == Err::<MovePlan, MediaError>(MediaError::NoExtension),
            extension_of(path@) is Some && parent_of(path@) is None
                ==> r == Err::<MovePlan, MediaError>(MediaError::NoParentDirectory),
            extension_of(path@) matches Some(e) ==> (parent_of(path@) matches Some(d) ==> (r matches Ok(p)
                && p.folder@ == d
                && p.destination@ == joined(d, renamed(*metadata, e)))),
    {
        let ext = match extension(path) {
            Some(e) => e,
            None => return Err(MediaError::NoExtension),
        };
        let folder = match parent(path) {
            Some(d) => d,
            None => return Err(MediaError::NoParentDirectory),
        };
        let name = rename_target(metadata, ext.as_str());
        let destination = join(folder.as_str(), name.as_str());
        Ok(MovePlan { folder, destination })
    }

    /// Plans a backup of the metadata of the file at `path`, taken at
    /// `timestamp`: a file named after it and the time, in the hidden backup
    /// directory beside it, so that backups never overwrite each other.
    pub fn backup_metadata(&self, path: &str, timestamp: u64) -> (r: Result<BackupPlan, MediaError>)
        ensures
            parent_of(path@) is None ==> r == Err::<BackupPlan, MediaError>(MediaError::NoParentDirectory),
            parent_of(path@) is Some && file_name_of(path@) is None
                ==> r == Err::<BackupPlan, MediaError>(MediaError::NoFileName),
            parent_of(path@) matches Some(d) ==> (file_name_of(path@) matches Some(n) ==> (r matches Ok(b)
                && b.directory@ == joined(d, BACKUP_DIR@)
                && b.file@ == joined(b.directory@, backup_name(n, timestamp)))),
    {
        let dir = match parent(path) {
            Some(d) => d,
            None => return Err(MediaError::NoParentDirectory),
        };
        let directory = join(dir.as_str(), BACKUP_DIR);
        let n = match file_name(path) {
            Some(n) => n,
            None => return Err(MediaError::NoFileName),
        };
        let name = backup_file_name(n.as_str(), timestamp);
        let file = join(directory.as_str(), name.as_str());
        Ok(BackupPlan { directory, file })
    }
}

} // verus!
