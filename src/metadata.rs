use vstd::prelude::*;

use crate::text::{
    copy_opt_string, copy_string, decimal, decimal_string, opt_or_empty, signed_decimal,
    signed_decimal_string, text_or_empty, two_digit_string, two_digits,
};

verus! {

/// Whether character `c` is `l` once an ASCII capital in `c` is lowered.
pub open spec fn char_matches_lower(c: char, l: char) -> bool {
    c == l || ('A' <= c && c <= 'Z' && (c as u32) + 32 == (l as u32))
}

/// Whether `s` spells the lower-case word `word`, ignoring ASCII case.
pub open spec fn matches_lower(s: Seq<char>, word: Seq<char>) -> bool {
    s.len() == word.len() && forall|i: int| 0 <= i < s.len() ==> char_matches_lower(s[i], word[i])
}

/// Whether `s` spells `word` (given in lower case), ignoring ASCII case.
pub fn eq_lower(s: &str, word: &str) -> (r: bool)
    ensures
        r == matches_lower(s@, word@),
{
    let n = s.unicode_len();
    if n != word.unicode_len() {
        return false;
    }
    let mut i: usize = 0;
    while i < n
        invariant
            n == s@.len(),
            n == word@.len(),
            0 <= i <= n,
            forall|j: int| 0 <= j < i ==> char_matches_lower(s@[j], word@[j]),
        decreases n - i,
    {
        let c = s.get_char(i);
        let l = word.get_char(i);
        let ok = c == l || ('A' <= c && c <= 'Z' && (c as u32) + 32 == (l as u32));
        if !ok {
            return false;
        }
        i = i + 1;
    }
    true
}

/// Whether a file with extension `ext` carries tags that are read.
pub open spec fn tag_readable(ext: Seq<char>) -> bool {
    matches_lower(ext, "flac"@) || matches_lower(ext, "mp3"@) || matches_lower(ext, "m4a"@)
        || matches_lower(ext, "mp4"@)
}

/// Whether a file with extension `ext` can be played.
pub open spec fn playable(ext: Seq<char>) -> bool {
    matches_lower(ext, "flac"@) || matches_lower(ext, "mp3"@) || matches_lower(ext, "wav"@)
}

/// Whether the tags of a file with extension `ext` are read.
pub fn reads_tags(ext: &str) -> (r: bool)
    ensures
        r == tag_readable(ext@),
{
    eq_lower(ext, "flac") || eq_lower(ext, "mp3") || eq_lower(ext, "m4a") || eq_lower(ext, "mp4")
}

/// Whether a file with extension `ext` can be played.
pub fn is_playable(ext: &str) -> (r: bool)
    ensures
        r == playable(ext@),
{
    eq_lower(ext, "flac") || eq_lower(ext, "mp3") || eq_lower(ext, "wav")
}

/// The tag fields read from an audio file.
#[derive(Clone, Debug)]
pub struct TagFields {
    pub title: Option<String>,
    pub artist: Option<String>,
    pub album: Option<String>,
    pub year: Option<i32>,
    /// Length of the track in whole seconds.
    pub duration_secs: Option<u64>,
    pub track_number: Option<u16>,
}

/// What is known of one audio file.
#[derive(Clone, Debug)]
pub struct FileMetadata {
    /// The path of the file.
    pub source_path: String,
    /// The file's name, the last component of its path.
    pub raw_file: Option<String>,
    pub album: Option<String>,
    pub artist: Option<String>,
    pub title: Option<String>,
    pub year: Option<i32>,
    /// Length of the track in whole seconds.
    pub duration_as_secs: Option<u64>,
    pub track_number: Option<u16>,
}

/// Minutes and seconds of a duration given in seconds.
pub open spec fn min_sec(duration: nat) -> (nat, nat) {
    (duration / 60, duration % 60)
}

/// The track number by which tracks are ordered; none counts as zero.
pub open spec fn track_key(m: FileMetadata) -> u16 {
    match m.track_number {
        Some(n) => n,
        None => 0,
    }
}

impl FileMetadata {
    /// Metadata of the file at `path` with every optional field empty.
    pub open spec fn is_bare_for(self, path: Seq<char>) -> bool {
        &&& self.source_path@ == path
        &&& self.raw_file is None
        &&& self.album is None
        &&& self.artist is None
        &&& self.title is None
        &&& self.year is None
        &&& self.duration_as_secs is None
        &&& self.track_number is None
    }

    /// What the title display shows.
    pub open spec fn title_text(self) -> Seq<char> {
        match self.title {
            Some(t) => t@,
            None => text_or_empty(self.raw_file),
        }
    }

    /// What the duration display shows: minutes, a colon and two digits of
    /// seconds, or nothing.
    pub open spec fn duration_text(self) -> Seq<char> {
        match self.duration_as_secs {
            Some(d) => decimal(min_sec(d as nat).0) + seq![':'] + two_digits(min_sec(d as nat).1),
            None => Seq::empty(),
        }
    }

    /// Metadata with no field known, for no file.
    pub fn new() -> (r: FileMetadata)
        ensures
            r.is_bare_for(Seq::empty()),
    {
        FileMetadata::for_path(&String::new())
    }

    /// Metadata with every optional field empty, for the file at `path`.
    pub fn for_path(path: &String) -> (r: FileMetadata)
        ensures
            r.is_bare_for(path@),
    {
        FileMetadata {
            source_path: copy_string(path),
            raw_file: None,
            album: None,
            artist: None,
            title: None,
            year: None,
            duration_as_secs: None,
            track_number: None,
        }
    }

    /// A copy of this metadata.
    pub fn duplicate(&self) -> (r: FileMetadata)
        ensures
            r == *self,
    {
        FileMetadata {
            source_path: copy_string(&self.source_path),
            raw_file: copy_opt_string(&self.raw_file),
            album: copy_opt_string(&self.album),
            artist: copy_opt_string(&self.artist),
            title: copy_opt_string(&self.title),
            year: self.year,
            duration_as_secs: self.duration_as_secs,
            track_number: self.track_number,
        }
    }

    /// Whether this metadata is what a probe of the file at `path` gives:
    /// its name always, and the tag fields only where the extension's tags
    /// are read and could be; otherwise every tag field is empty.
    pub open spec fn is_probe_of(
        self,
        path: Seq<char>,
        file_name: Option<String>,
        extension: Option<String>,
        tags: Option<TagFields>,
    ) -> bool {
        &&& self.source_path@ == path
        &&& self.raw_file == file_name
        &&& if extension is Some && tag_readable(extension.unwrap()@) && tags is Some {
            let t = tags.unwrap();
            &&& self.album == t.album
            &&& self.artist == t.artist
            &&& self.title == t.title
            &&& self.year == t.year
            &&& self.duration_as_secs == t.duration_secs
            &&& self.track_number == t.track_number
        } else {
            &&& self.album is None
            &&& self.artist is None
            &&& self.title is None
            &&& self.year is None
            &&& self.duration_as_secs is None
            &&& self.track_number is None
        }
    }

    /// Fills this metadata from a probe of the file at `path`: its name, its
    /// extension, and its tags where they could be read. Tags count only for
    /// an extension whose tags are read; a failed or skipped tag read leaves
    /// every tag field empty, and the name is kept whatever the extension.
    pub fn get_file_data(
        &mut self,
        path: &String,
        file_name: Option<String>,
        extension: Option<String>,
        tags: Option<TagFields>,
    )
        ensures
            final(self).is_probe_of(path@, file_name, extension, tags),
    {
        self.source_path = copy_string(path);
        self.raw_file = file_name;
        self.album = None;
        self.artist = None;
        self.title = None;
        self.year = None;
        self.duration_as_secs = None;
        self.track_number = None;
        if let Some(ext) = &extension {
            if reads_tags(ext.as_str()) {
                if let Some(t) = tags {
                    self.album = t.album;
                    self.artist = t.artist;
                    self.title = t.title;
                    self.year = t.year;
                    self.duration_as_secs = t.duration_secs;
                    self.track_number = t.track_number;
                }
            }
        }
    }

    /// Metadata of the file at `path` from a probe; see `get_file_data`.
    pub fn probed(
        path: &String,
        file_name: Option<String>,
        extension: Option<String>,
        tags: Option<TagFields>,
    ) -> (r: FileMetadata)
        ensures
            r.is_probe_of(path@, file_name, extension, tags),
    {
        let mut m = FileMetadata::for_path(path);
        m.get_file_data(path, file_name, extension, tags);
        m
    }

    /// The album, or nothing.
    pub fn display_album(&self) -> (r: String)
        ensures
            r@ == text_or_empty(self.album),
    {
        opt_or_empty(&self.album)
    }

    /// The artist, or nothing.
    pub fn display_artist(&self) -> (r: String)
        ensures
            r@ == text_or_empty(self.artist),
    {
        opt_or_empty(&self.artist)
    }

    /// The title, or else the file's name, or nothing.
    pub fn display_title(&self) -> (r: String)
        ensures
            r@ == self.title_text(),
    {
        match &self.title {
            Some(t) => t.clone(),
            None => opt_or_empty(&self.raw_file),
        }
    }

    /// The year, or nothing.
    pub fn display_year(&self) -> (r: String)
        ensures
            self.year is Some ==> r@ == signed_decimal(self.year.unwrap() as int),
            self.year is None ==> r@ == Seq::<char>::empty(),
    {
        match self.year {
            Some(y) => signed_decimal_string(y),
            None => String::new(),
        }
    }

    /// The track number, or nothing.
    pub fn display_track_number(&self) -> (r: String)
        ensures
            self.track_number is Some ==> r@ == decimal(self.track_number.unwrap() as nat),
            self.track_number is None ==> r@ == Seq::<char>::empty(),
    {
        match self.track_number {
            Some(n) => decimal_string(n as u64),
            None => String::new(),
        }
    }

    /// Splits a duration in seconds into minutes and seconds.
    pub fn sec_to_min_sec(duration: u64) -> (r: (u64, u64))
        ensures
            r.0 as nat == min_sec(duration as nat).0,
            r.1 as nat == min_sec(duration as nat).1,
    {
        (duration / 60, duration % 60)
    }

    /// The duration as minutes, a colon and two digits of seconds, or nothing.
    pub fn display_duration_display(&self) -> (r: String)
        ensures
            r@ == self.duration_text(),
    {
        match self.duration_as_secs {
            Some(d) => {
                let (m, s) = FileMetadata::sec_to_min_sec(d);
                let mut out = decimal_string(m);
                out.append(":");
                let secs = two_digit_string(s);
                out.append(secs.as_str());
                proof {
                    reveal_strlit(":");
                }
                out
            },
            None => String::new(),
        }
    }
}

} // verus!
