use vstd::prelude::*;
use crate::model::{Metadata, MediaError, copy_text};
use crate::paths::{extension, extension_of};
use crate::text::{lowercase, lower_of};
use crate::scanner::FileScanner;

verus! {

/// The formats that have a tag codec.
#[derive(PartialEq, Eq, Structural, Clone, Copy, Debug)]
pub enum TagFormat {
    Mp3,
    Flac,
    Wav,
    Ogg,
    M4a,
}

/// The tag dialect in which a format's tag is written.
#[derive(PartialEq, Eq, Structural, Clone, Copy, Debug)]
pub enum TagDialect {
    /// A standalone ID3v2.4 tag.
    Id3v24,
    /// A Vorbis comment block.
    VorbisComments,
    /// An ID3v2 chunk inside a container.
    Id3v2,
    /// An MP4 `ilst` atom.
    Mp4Ilst,
}

/// A year as a format stores it: signed for ID3 tags, unsigned elsewhere.
#[derive(PartialEq, Eq, Structural, Clone, Copy, Debug)]
pub enum NativeYear {
    Signed(i32),
    Unsigned(u32),
}

/// The fields of a tag block as a format hands them out.
#[derive(Clone, Debug, PartialEq, Eq)]
pub struct RawTag {
    pub title: Option<String>,
    pub artist: Option<String>,
    pub album: Option<String>,
    pub genre: Option<String>,
    pub year: Option<NativeYear>,
}

/// The fields to set on a file's tag; `None` leaves a field as it is.
#[derive(Clone, Debug, PartialEq, Eq)]
pub struct TagWrite {
    pub format: TagFormat,
    /// The dialect of the tag block to create when the file has none.
    pub fresh_dialect: TagDialect,
    pub title: Option<String>,
    pub artist: Option<String>,
    pub album: Option<String>,
    pub genre: Option<String>,
    pub year: Option<NativeYear>,
}

/// The format that a lower-case extension names.
pub open spec fn format_of_ext(e: Seq<char>) -> Option<TagFormat> {
    if e == "mp3"@ {
        Some(TagFormat::Mp3)
    } else if e == "flac"@ {
        Some(TagFormat::Flac)
    } else if e == "wav"@ {
        Some(TagFormat::Wav)
    } else if e == "ogg"@ {
        Some(TagFormat::Ogg)
    } else if e == "m4a"@ {
        Some(TagFormat::M4a)
    } else {
        None
    }
}

/// The format of the file at `p`, by its extension in any case.
pub open spec fn format_of_path(p: Seq<char>) -> Option<TagFormat> {
    match extension_of(p) {
        Some(e) => format_of_ext(lower_of(e)),
        None => None,
    }
}

impl TagFormat {
    /// The dialect of a fresh tag block in this format.
    pub open spec fn dialect_spec(self) -> TagDialect {
        match self {
            TagFormat::Mp3 => TagDialect::Id3v24,
            TagFormat::Flac => TagDialect::VorbisComments,
            TagFormat::Wav => TagDialect::Id3v2,
            TagFormat::Ogg => TagDialect::VorbisComments,
            TagFormat::M4a => TagDialect::Mp4Ilst,
        }
    }

    #[verifier::when_used_as_spec(dialect_spec)]
    pub fn dialect(self) -> (r: TagDialect)
        ensures
            r == self.dialect_spec(),
    {
        match self {
            TagFormat::Mp3 => TagDialect::Id3v24,
            TagFormat::Flac => TagDialect::VorbisComments,
            TagFormat::Wav => TagDialect::Id3v2,
            TagFormat::Ogg => TagDialect::VorbisComments,
            TagFormat::M4a => TagDialect::Mp4Ilst,
        }
    }

    /// A model year in this format's native width; negative years wrap
    /// where the width is unsigned.
    pub open spec fn native_year_spec(self, y: i32) -> NativeYear {
        match self {
            TagFormat::Mp3 => NativeYear::Signed(y),
            _ => NativeYear::Unsigned(y as u32),
        }
    }

    #[verifier::when_used_as_spec(native_year_spec)]
    pub fn native_year(self, y: i32) -> (r: NativeYear)
        ensures
            r == self.native_year_spec(y),
    {
        match self {
            TagFormat::Mp3 => NativeYear::Signed(y),
            _ => NativeYear::Unsigned(y as u32),
        }
    }
}

/// The format with the lower-case extension `e`, if any.
pub fn format_for_extension(e: &str) -> (r: Option<TagFormat>)
    ensures
        r == format_of_ext(e@),
{
    let e = String::from_str(e);
    if e == String::from_str("mp3") {
        Some(TagFormat::Mp3)
    } else if e == String::from_str("flac") {
        Some(TagFormat::Flac)
    } else if e == String::from_str("wav") {
        Some(TagFormat::Wav)
    } else if e == String::from_str("ogg") {
        Some(TagFormat::Ogg)
    } else if e == String::from_str("m4a") {
        Some(TagFormat::M4a)
    } else {
        None
    }
}

/// The codec for the file at `path`, chosen by its extension in any case.
pub fn format_for_path(path: &str) -> (r: Option<TagFormat>)
    ensures
        r == format_of_path(path@),
{
    match extension(path) {
        Some(e) => {
            let lower = lowercase(e.as_str());
            format_for_extension(lower.as_str())
        },
        None => None,
    }
}

/// A text field as the model holds it: an empty string is absent.
pub open spec fn present(t: Option<String>) -> Option<String> {
    match t {
        Some(s) => if s@.len() == 0 { None } else { Some(s) },
        None => None,
    }
}

/// A native year as the model holds it; an unsigned year wraps into `i32`.
pub open spec fn model_year(y: NativeYear) -> i32 {
    match y {
        NativeYear::Signed(v) => v,
        NativeYear::Unsigned(v) => v as i32,
    }
}

/// The metadata that a tag block reads as.
pub open spec fn decoded(t: RawTag) -> Metadata {
    Metadata {
        title: present(t.title),
        artist: present(t.artist),
        album: present(t.album),
        genre: present(t.genre),
        year: match t.year {
            Some(y) => Some(model_year(y)),
            None => None,
        },
    }
}

fn present_text(t: Option<String>) -> (r: Option<String>)
    ensures
        r == present(t),
{
    match t {
        Some(s) => if s.as_str().is_empty() { None } else { Some(s) },
        None => None,
    }
}

/// Reads a format's tag block, or its absence, into the model: empty text
/// fields become absent, and the year is taken to `i32`.
pub fn decode_tag(tag: Option<RawTag>) -> (r: Result<Metadata, MediaError>)
    ensures
        tag matches Some(t) ==> r == Ok::<Metadata, MediaError>(decoded(t)),
        tag is None ==> r == Err::<Metadata, MediaError>(MediaError::NoTagBlock),
{
    match tag {
        None => Err(MediaError::NoTagBlock),
        Some(t) => {
            let year = match t.year {
                Some(NativeYear::Signed(v)) => Some(v),
                Some(NativeYear::Unsigned(v)) => Some(v as i32),
                None => None,
            };
            Ok(Metadata {
                title: present_text(t.title),
                artist: present_text(t.artist),
                album: present_text(t.album),
                genre: present_text(t.genre),
                year,
            })
        },
    }
}

/// What writing `m` in format `f` sets on the tag.
pub open spec fn planned_write(f: TagFormat, m: Metadata) -> TagWrite {
    TagWrite {
        format: f,
        fresh_dialect: f.dialect(),
        title: m.title,
        artist: m.artist,
        album: m.album,
        genre: m.genre,
        year: match m.year {
            Some(y) => Some(f.native_year(y)),
            None => None,
        },
    }
}

/// The tag block that results from applying `w` to `t`: each field that `w`
/// sets is replaced, every other field stays.
pub open spec fn applied(t: RawTag, w: TagWrite) -> RawTag {
    RawTag {
        title: if w.title is Some { w.title } else { t.title },
        artist: if w.artist is Some { w.artist } else { t.artist },
        album: if w.album is Some { w.album } else { t.album },
        genre: if w.genre is Some { w.genre } else { t.genre },
        year: if w.year is Some { w.year } else { t.year },
    }
}

impl FileScanner {
    /// Reads a tag block, or its absence, handed over for the file at `path`:
    /// a file without a codec is refused before its tag is looked at.
    pub fn read_metadata(&self, path: &str, tag: Option<RawTag>) -> (r: Result<Metadata, MediaError>)
        ensures
            format_of_path(path@) is None ==> r == Err::<Metadata, MediaError>(MediaError::UnsupportedFormat),
            format_of_path(path@) is Some && tag is None ==> r == Err::<Metadata, MediaError>(MediaError::NoTagBlock),
            format_of_path(path@) is Some ==> (tag matches Some(t) ==> r == Ok::<Metadata, MediaError>(decoded(t))),
    {
        match format_for_path(path) {
            None => Err(MediaError::UnsupportedFormat),
            Some(_) => decode_tag(tag),
        }
    }

    /// Plans writing `metadata` onto the file at `path`: the format comes from the
    /// extension in any case, and only the fields present in `metadata` are set.
    pub fn write_metadata(&self, path: &str, metadata: &Metadata) -> (r: Result<TagWrite, MediaError>)
        ensures
            format_of_path(path@) matches Some(f) ==> r == Ok::<TagWrite, MediaError>(planned_write(f, *metadata)),
            format_of_path(path@) is None ==> r == Err::<TagWrite, MediaError>(MediaError::UnsupportedFormat),
    {
        match format_for_path(path) {
            None => Err(MediaError::UnsupportedFormat),
            Some(f) => {
                let year = match metadata.year {
                    Some(y) => Some(f.native_year(y)),
                    None => None,
                };
                Ok(TagWrite {
                    format: f,
                    fresh_dialect: f.dialect(),
                    title: copy_text(&metadata.title),
                    artist: copy_text(&metadata.artist),
                    album: copy_text(&metadata.album),
                    genre: copy_text(&metadata.genre),
                    year,
                })
            },
        }
    }

    /// Plans writing a backed-up snapshot back onto the file at `path`: the
    /// same write as for any other metadata.
    pub fn restore_from_backup(&self, path: &str, snapshot: &Metadata) -> (r: Result<TagWrite, MediaError>)
        ensures
            format_of_path(path@) matches Some(f) ==> r == Ok::<TagWrite, MediaError>(planned_write(f, *snapshot)),
            format_of_path(path@) is None ==> r == Err::<TagWrite, MediaError>(MediaError::UnsupportedFormat),
    {
        self.write_metadata(path, snapshot)
    }
}

/// Writing a tag and reading it back: every field set in `m` (non-empty text,
/// or a year) reads back unchanged, and every field absent from `m` reads as
/// it did before the write.
pub proof fn lemma_write_then_read(t: RawTag, f: TagFormat, m: Metadata)
    ensures
        ({
            let after = decoded(applied(t, planned_write(f, m)));
            let before = decoded(t);
            &&& (m.title matches Some(s) && s@.len() > 0 ==> after.title == m.title)
            &&& (m.artist matches Some(s) && s@.len() > 0 ==> after.artist == m.artist)
            &&& (m.album matches Some(s) && s@.len() > 0 ==> after.album == m.album)
            &&& (m.genre matches Some(s) && s@.len() > 0 ==> after.genre == m.genre)
            &&& (m.year is Some ==> after.year == m.year)
            &&& (m.title is None ==> after.title == before.title)
            &&& (m.artist is None ==> after.artist == before.artist)
            &&& (m.album is None ==> after.album == before.album)
            &&& (m.genre is None ==> after.genre == before.genre)
            &&& (m.year is None ==> after.year == before.year)
        }),
{
    if let Some(y) = m.year {
        if f != TagFormat::Mp3 {
            let u = y as u32;
            assert((u as i32) == y) by (bit_vector)
                requires u == y as u32;
        }
    }
}

/// Restoring a snapshot onto a tag that has not changed since the snapshot
/// was read from it reads back exactly as the snapshot.
pub proof fn lemma_restore_untouched(t: RawTag, f: TagFormat)
    ensures
        decoded(applied(t, planned_write(f, decoded(t)))) == decoded(t),
{
    lemma_write_then_read(t, f, decoded(t));
}

} // verus!
