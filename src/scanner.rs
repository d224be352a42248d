use vstd::prelude::*;
use crate::model::{Metadata, AudioFile, MediaError};
use crate::paths::{extension, extension_of, file_name, file_name_of};
use crate::text::{lowercase, lower_of};

verus! {

/// The extensions that a scan takes in, in lower case.
pub open spec fn supported_list() -> Seq<Seq<char>> {
    seq!["mp3"@, "flac"@, "wav"@, "m4a"@, "aiff"@, "ogg"@]
}

/// The lower-case extension under which a scan takes in the file at `p`.
pub open spec fn audio_ext(p: Seq<char>) -> Option<Seq<char>> {
    match extension_of(p) {
        Some(e) => if supported_list().contains(lower_of(e)) { Some(lower_of(e)) } else { None },
        None => None,
    }
}

/// A regular file met by a directory walk, with the outcome of reading its tags.
#[derive(Debug, PartialEq, Eq)]
pub struct FileProbe {
    pub path: String,
    pub tags: Result<Metadata, MediaError>,
}

/// The probes that a scan takes in, in walk order.
pub open spec fn kept(ps: Seq<FileProbe>) -> Seq<FileProbe>
    decreases ps.len(),
{
    if ps.len() == 0 {
        Seq::empty()
    } else {
        let k = kept(ps.drop_last());
        if audio_ext(ps.last().path@) is Some {
            k.push(ps.last())
        } else {
            k
        }
    }
}

/// What a tag read leaves as the entry's metadata: nothing, when it failed.
pub open spec fn outcome_metadata(r: Result<Metadata, MediaError>) -> Option<Metadata> {
    match r {
        Ok(m) => Some(m),
        Err(_) => None,
    }
}

/// The inventory entry `a` stands for the probe `p`.
pub open spec fn entry_for(a: AudioFile, p: FileProbe) -> bool {
    &&& a.path == p.path
    &&& audio_ext(p.path@) == Some(a.extension@)
    &&& a.filename@ == match file_name_of(p.path@) {
        Some(n) => n,
        None => Seq::empty(),
    }
    &&& a.current_metadata == outcome_metadata(p.tags)
}

/// Finds audio files by extension and builds their inventory entries.
pub struct FileScanner {
    supported_extensions: Vec<String>,
}

impl FileScanner {
    pub closed spec fn wf(&self) -> bool {
        self.supported_extensions@.map_values(|s: String| s@) == supported_list()
    }

    /// A scanner that takes in mp3, flac, wav, m4a, aiff and ogg files.
    pub fn new() -> (r: FileScanner)
        ensures
            r.wf(),
    {
        let mut v: Vec<String> = Vec::new();
        v.push(String::from_str("mp3"));
        v.push(String::from_str("flac"));
        v.push(String::from_str("wav"));
        v.push(String::from_str("m4a"));
        v.push(String::from_str("aiff"));
        v.push(String::from_str("ogg"));
        let r = FileScanner { supported_extensions: v };
        assert(r.supported_extensions@.map_values(|s: String| s@) =~= supported_list());
        r
    }

    /// Whether `e` is one of the supported extensions, compared exactly.
    pub fn is_supported(&self, e: &str) -> (r: bool)
        requires
            self.wf(),
        ensures
            r == supported_list().contains(e@),
    {
        let wanted = String::from_str(e);
        let mut i: usize = 0;
        assert(self.supported_extensions@.len() == supported_list().len());
        while i < self.supported_extensions.len()
            invariant
                self.wf(),
                wanted@ == e@,
                self.supported_extensions@.len() == supported_list().len(),
                i <= self.supported_extensions@.len(),
                forall|k: int| 0 <= k < i ==> supported_list()[k] != e@,
            decreases self.supported_extensions@.len() - i,
        {
            assert(self.supported_extensions@.map_values(|s: String| s@)[i as int] == self.supported_extensions@[i as int]@);
            if self.supported_extensions[i] == wanted {
                assert(supported_list()[i as int] == e@);
                assert(supported_list().contains(e@));
                return true;
            }
            i = i + 1;
        }
        assert(!supported_list().contains(e@)) by {
            assert(supported_list().len() == self.supported_extensions@.len());
        }
        false
    }

    /// The lower-case extension under which a scan takes in the file at
    /// `path`, or `None` when it is not an audio file.
    pub fn audio_extension(&self, path: &str) -> (r: Option<String>)
        requires
            self.wf(),
        ensures
            r matches Some(e) ==> audio_ext(path@) == Some(e@),
            r is None ==> audio_ext(path@) is None,
    {
        match extension(path) {
            Some(e) => {
                let lower = lowercase(e.as_str());
                if self.is_supported(lower.as_str()) {
                    Some(lower)
                } else {
                    None
                }
            },
            None => None,
        }
    }

    /// Builds the inventory of a directory walk: one entry for each probe
    /// with a supported extension, in walk order. A probe whose tags could not
    /// be read still gets its entry, with no metadata.
    pub fn scan_directory(&self, probes: &Vec<FileProbe>) -> (r: Vec<AudioFile>)
        requires
            self.wf(),
        ensures
            r@.len() == kept(probes@).len(),
            forall|k: int| 0 <= k < r@.len() ==> entry_for(#[trigger] r@[k], kept(probes@)[k]),
    {
        let mut out: Vec<AudioFile> = Vec::new();
        let mut i: usize = 0;
        while i < probes.len()
            invariant
                self.wf(),
                i <= probes@.len(),
                out@.len() == kept(probes@.subrange(0, i as int)).len(),
                forall|k: int| 0 <= k < out@.len() ==> entry_for(#[trigger] out@[k], kept(probes@.subrange(0, i as int))[k]),
            decreases probes@.len() - i,
        {
            let p = &probes[i];
            let ghost before = probes@.subrange(0, i as int);
            let ghost after = probes@.subrange(0, i + 1);
            assert(after.drop_last() =~= before);
            assert(after.last() == *p);
            match self.audio_extension(p.path.as_str()) {
                Some(ext) => {
                    let filename = match file_name(p.path.as_str()) {
                        Some(n) => n,
                        None => String::new(),
                    };
                    let current_metadata = match &p.tags {
                        Ok(m) => Some(m.copied()),
                        Err(_) => None,
                    };
                    let entry = AudioFile { path: p.path.clone(), filename, extension: ext, current_metadata };
                    assert(entry_for(entry, *p));
                    out.push(entry);
                },
                None => {},
            }
            i = i + 1;
        }
        assert(probes@.subrange(0, probes@.len() as int) =~= probes@);
        out
    }
}

} // verus!
