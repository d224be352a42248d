use vstd::prelude::*;

verus! {

/// The descriptive fields of a track. An absent field is `None`, never an
/// empty string read from a tag.
#[derive(Clone, Debug, PartialEq, Eq)]
pub struct Metadata {
    pub title: Option<String>,
    pub artist: Option<String>,
    pub album: Option<String>,
    pub genre: Option<String>,
    pub year: Option<i32>,
}

/// One audio file found by a scan.
#[derive(Clone, Debug, PartialEq, Eq)]
pub struct AudioFile {
    pub path: String,
    pub filename: String,
    /// Lower case, one of the scanner's supported extensions.
    pub extension: String,
    /// `None` when the file's tags could not be read or it has none.
    pub current_metadata: Option<Metadata>,
}

/// Why an operation of this library was refused.
#[derive(Clone, Debug, PartialEq, Eq)]
pub enum MediaError {
    /// The file's extension has no tag codec.
    UnsupportedFormat,
    /// The file holds no tag block at all.
    NoTagBlock,
    /// The path has no parent directory.
    NoParentDirectory,
    /// The path has no file name.
    NoFileName,
    /// The path has no extension.
    NoExtension,
    /// Something already exists at the destination path.
    DestinationExists(String),
    /// A backup was asked for, but the current metadata could not be read.
    NothingToBackUp,
}

/// A copy of an optional text field.
pub(crate) fn copy_text(s: &Option<String>) -> (r: Option<String>)
    ensures
        r == *s,
{
    match s {
        Some(t) => Some(t.clone()),
        None => None,
    }
}

impl Metadata {
    /// A field-by-field copy.
    pub fn copied(&self) -> (r: Metadata)
        ensures
            r == *self,
    {
        Metadata {
            title: copy_text(&self.title),
            artist: copy_text(&self.artist),
            album: copy_text(&self.album),
            genre: copy_text(&self.genre),
            year: self.year,
        }
    }
}

} // verus!
