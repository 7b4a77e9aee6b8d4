use vstd::prelude::*;

verus! {

/// Theme colors, each a `#RRGGBB` hex string.
#[derive(Clone, Debug)]
pub struct Colors {
    pub album: String,
    pub artist: String,
    pub border: String,
    pub fs_directory: String,
    pub fs_file: String,
    pub highlight_color: String,
    pub options: String,
    pub paused: String,
    pub playback_speed: String,
    pub seekbar: String,
    pub status: String,
    pub timestamp: String,
    pub title: String,
    pub track_num: String,
    pub volume: String,
    pub year: String,
}

impl Colors {
    /// The theme's default colors.
    pub open spec fn is_default(self) -> bool {
        &&& self.album@ == "#00FF00"@
        &&& self.artist@ == "#FF0000"@
        &&& self.border@ == "#FFFFFF"@
        &&& self.fs_directory@ == "#598EFF"@
        &&& self.fs_file@ == "#FFFFFF"@
        &&& self.highlight_color@ == "#FF0000"@
        &&& self.options@ == "#FF0000"@
        &&& self.paused@ == "#00FF00"@
        &&& self.playback_speed@ == "#598EFF"@
        &&& self.seekbar@ == "#FF0000"@
        &&& self.status@ == "#598EFF"@
        &&& self.timestamp@ == "#00FF00"@
        &&& self.title@ == "#FFFF00"@
        &&& self.track_num@ == "#FF00FF"@
        &&& self.volume@ == "#598EFF"@
        &&& self.year@ == "#598EFF"@
    }
}

impl Default for Colors {
    fn default() -> (r: Colors)
        ensures
            r.is_default(),
    {
        Colors {
            album: String::from_str("#00FF00"),
            artist: String::from_str("#FF0000"),
            border: String::from_str("#FFFFFF"),
            fs_directory: String::from_str("#598EFF"),
            fs_file: String::from_str("#FFFFFF"),
            highlight_color: String::from_str("#FF0000"),
            options: String::from_str("#FF0000"),
            paused: String::from_str("#00FF00"),
            playback_speed: String::from_str("#598EFF"),
            seekbar: String::from_str("#FF0000"),
            status: String::from_str("#598EFF"),
            timestamp: String::from_str("#00FF00"),
            title: String::from_str("#FFFF00"),
            track_num: String::from_str("#FF00FF"),
            volume: String::from_str("#598EFF"),
            year: String::from_str("#598EFF"),
        }
    }
}

/// Relies on `dirs::home_dir`: the user's home directory, as the
/// environment or the user database gives it, if any.
#[verifier::external_body]
fn home_dir() -> (r: Option<String>) {
    dirs::home_dir().map(|p| p.to_string_lossy().into_owned())
}

/// Whether `name` is one plain path component: not empty, not `.` or `..`,
/// without a separator or a drive colon.
pub open spec fn plain_component(name: Seq<char>) -> bool {
    &&& name.len() > 0
    &&& name != seq!['.']
    &&& name != seq!['.', '.']
    &&& forall|i: int|
        0 <= i < name.len() ==> name[i] != '/' && name[i] != '\\' && name[i] != ':'
}

/// `name` after `base`, with or without one separator between them.
pub open spec fn joined(r: Seq<char>, base: Seq<char>, name: Seq<char>) -> bool {
    ||| r == base + name
    ||| r == base + seq!['/'] + name
    ||| r == base + seq!['\\'] + name
}

/// Whether `s` ends with `suffix`.
pub open spec fn ends_with(s: Seq<char>, suffix: Seq<char>) -> bool {
    suffix.len() <= s.len() && s.subrange(s.len() - suffix.len(), s.len() as int) == suffix
}

/// Whether `base` opens like a verbatim path (two separators and `?`), which
/// a push normalizes as a whole on some platforms.
pub open spec fn verbatim_like(base: Seq<char>) -> bool {
    &&& base.len() >= 3
    &&& (base[0] == '/' || base[0] == '\\')
    &&& (base[1] == '/' || base[1] == '\\')
    &&& base[2] == '?'
}

/// Relies on `std::path::PathBuf::push`: a relative path extends `base`,
/// after a separator where one is needed, so the result ends with it. Where
/// `base` has a verbatim prefix the joined path is normalized, so only the
/// ending is claimed there.
#[verifier::external_body]
fn join_path(base: String, name: &str) -> (r: String)
    requires
        plain_component(name@),
    ensures
        ends_with(r@, name@),
        !verbatim_like(base@) ==> joined(r@, base@, name@),
{
    let mut p = std::path::PathBuf::from(base);
    p.push(name);
    p.to_string_lossy().into_owned()
}

/// Where the music is.
#[derive(Clone, Debug)]
pub struct Directories {
    /// The directory the browser starts in; empty where the home directory
    /// is unknown.
    pub music_directory: String,
}

impl Directories {
    /// The `Music` directory under `home`, or none without a home directory.
    pub fn under_home(home: Option<String>) -> (r: Directories)
        ensures
            home is None ==> r.music_directory@ == Seq::<char>::empty(),
            home is Some ==> ends_with(r.music_directory@, "Music"@),
            home is Some && !verbatim_like(home.unwrap()@) ==> joined(
                r.music_directory@,
                home.unwrap()@,
                "Music"@,
            ),
    {
        proof {
            reveal_strlit("Music");
            assert("Music"@.len() == 5);
            assert("Music"@ != seq!['.']);
            assert("Music"@ != seq!['.', '.']);
        }
        match home {
            Some(h) => Directories { music_directory: join_path(h, "Music") },
            None => Directories { music_directory: String::new() },
        }
    }
}

impl Directories {
    /// The music directory is unknown, or is a `Music` directory.
    pub open spec fn is_default_shape(self) -> bool {
        self.music_directory@.len() == 0 || ends_with(self.music_directory@, "Music"@)
    }
}

impl Default for Directories {
    /// The `Music` directory under the user's home directory, or none where
    /// the home directory is unknown.
    fn default() -> (r: Directories)
        ensures
            r.is_default_shape(),
    {
        Directories::under_home(home_dir())
    }
}

/// Key-binding parameters.
#[derive(Clone, Copy, Debug)]
pub struct Controls {
    /// Step by which the volume keys change the volume, in percent.
    pub vol_delta: i16,
}

impl Default for Controls {
    fn default() -> (r: Controls)
        ensures
            r.vol_delta == 2,
    {
        Controls { vol_delta: 2 }
    }
}

/// All configuration.
#[derive(Clone, Debug)]
pub struct ConfigData {
    pub colors: Colors,
    pub directories: Directories,
    pub controls: Controls,
}

impl Default for ConfigData {
    fn default() -> (r: ConfigData)
        ensures
            r.colors.is_default(),
            r.directories.is_default_shape(),
            r.controls.vol_delta == 2,
    {
        ConfigData {
            colors: Colors::default(),
            directories: Directories::default(),
            controls: Controls::default(),
        }
    }
}

} // verus!
