//! Tracks and the two tag formats a tempo is stored in.
//!
//! Reading and writing the files is the caller's part: a track is made from
//! the text found in the tempo field, and is told the tempo that is to be
//! written to it. The value it holds matches the file once that write has
//! succeeded; a caller whose write fails gives the track up.

use vstd::prelude::*;
use crate::text::{bpm_of_text, parse_bpm};

verus! {

/// The tag formats a track's tempo can be stored in.
#[derive(Clone, Copy, Debug, PartialEq, Eq, Structural)]
pub enum TagFormat {
    /// A numeric tempo frame of an ID3 tag (`.mp3` files).
    Id3,
    /// A Vorbis comment of a FLAC file (`.flac` files).
    Vorbis,
}

/// Whether `path` ends in `.` followed by `ext`, with the dot not the first
/// character of the file's name.
pub open spec fn has_extension(path: Seq<char>, ext: Seq<char>) -> bool {
    let n = path.len();
    let k = ext.len();
    &&& n >= k + 2
    &&& path.subrange(n - k, n as int) == ext
    &&& path[n - k - 1] == '.'
    &&& path[n - k - 2] != '/'
}

/// The tag format of a file, chosen by its extension.
pub open spec fn format_of(path: Seq<char>) -> Option<TagFormat> {
    if has_extension(path, seq!['m', 'p', '3']) {
        Some(TagFormat::Id3)
    } else if has_extension(path, seq!['f', 'l', 'a', 'c']) {
        Some(TagFormat::Vorbis)
    } else {
        None
    }
}

fn ends_with_extension(path: &str, ext: &str) -> (r: bool)
    ensures
        r == has_extension(path@, ext@),
{
    let n = path.unicode_len();
    let k = ext.unicode_len();
    if n < k || n - k < 2 {
        return false;
    }
    let base = n - k;
    let mut i: usize = 0;
    while i < k
        invariant
            n == path@.len(),
            k == ext@.len(),
            base == n - k,
            i <= k,
            forall|j: int| 0 <= j < i ==> path@[base + j] == #[trigger] ext@[j],
        decreases k - i,
    {
        if path.get_char(base + i) != ext.get_char(i) {
            assert(path@.subrange(base as int, n as int)[i as int] != ext@[i as int]);
            return false;
        }
        i = i + 1;
    }
    assert(path@.subrange(base as int, n as int) =~= ext@);
    path.get_char(base - 1) == '.' && path.get_char(base - 2) != '/'
}

/// A path whose extension names no supported tag format.
pub struct UnsupportedFileType {
    pub path: String,
}

impl UnsupportedFileType {
    /// The message shown for this error: the path, then what is wrong.
    pub fn message(&self) -> (r: String)
        ensures
            r@ == self.path@ + ": Unsupported file type"@,
    {
        self.path.clone().concat(": Unsupported file type")
    }
}

impl TagFormat {
    /// The tag format of the file at `path`, by its extension (`mp3` or
    /// `flac`); any other path is refused.
    pub fn of_path(path: &str) -> (r: Result<TagFormat, UnsupportedFileType>)
        ensures
            r is Err <==> format_of(path@) is None,
            r matches Ok(f) ==> format_of(path@) == Some(f),
            r matches Err(e) ==> e.path@ == path@,
    {
        let mp3 = "mp3";
        let flac = "flac";
        proof {
            reveal_strlit("mp3");
            reveal_strlit("flac");
            assert(mp3@ =~= seq!['m', 'p', '3']);
            assert(flac@ =~= seq!['f', 'l', 'a', 'c']);
        }
        if ends_with_extension(path, mp3) {
            Ok(TagFormat::Id3)
        } else if ends_with_extension(path, flac) {
            Ok(TagFormat::Vorbis)
        } else {
            Err(UnsupportedFileType { path: String::from_str(path) })
        }
    }

    /// The key the tempo is stored under: the ID3 frame `TBPM`, or the
    /// Vorbis comment `BPM`.
    pub fn bpm_key(&self) -> (r: &'static str)
        ensures
            *self == TagFormat::Id3 ==> r@ == seq!['T', 'B', 'P', 'M'],
            *self == TagFormat::Vorbis ==> r@ == seq!['B', 'P', 'M'],
    {
        proof {
            reveal_strlit("TBPM");
            reveal_strlit("BPM");
        }
        match self {
            TagFormat::Id3 => "TBPM",
            TagFormat::Vorbis => "BPM",
        }
    }
}

/// What the session needs of a track: where it is and the tempo its tag
/// holds.
pub trait Music {
    spec fn path_view(&self) -> Seq<char>;

    spec fn bpm_view(&self) -> Option<u32>;

    fn path(&self) -> (r: &str)
        ensures
            r@ == self.path_view(),
    ;

    fn bpm(&self) -> (r: Option<u32>)
        ensures
            r == self.bpm_view(),
    ;

    /// Records `bpm` as the tempo of the track's tag, which the caller
    /// writes to the file.
    fn set_bpm(&mut self, bpm: u32)
        ensures
            final(self).bpm_view() == Some(bpm),
            final(self).path_view() == old(self).path_view(),
    ;
}

/// An MP3 file, whose tempo is the ID3 `TBPM` text frame.
pub struct Mp3 {
    path: String,
    bpm: Option<u32>,
}

impl Mp3 {
    /// The track at `path` whose tag's `TBPM` frame holds `bpm_text` (`None`
    /// when there is no tag or no such frame). Text that is not a number
    /// leaves the track without a tempo.
    pub fn new(path: String, bpm_text: Option<&str>) -> (r: Mp3)
        ensures
            r.path_view() == path@,
            r.bpm_view() == (match bpm_text {
                Some(t) => bpm_of_text(t@),
                None => None,
            }),
    {
        let bpm = match bpm_text {
            Some(t) => parse_bpm(t),
            None => None,
        };
        Mp3 { path, bpm }
    }
}

impl Music for Mp3 {
    closed spec fn path_view(&self) -> Seq<char> {
        self.path@
    }

    closed spec fn bpm_view(&self) -> Option<u32> {
        self.bpm
    }

    fn path(&self) -> (r: &str) {
        self.path.as_str()
    }

    fn bpm(&self) -> (r: Option<u32>) {
        self.bpm
    }

    fn set_bpm(&mut self, bpm: u32) {
        self.bpm = Some(bpm);
    }
}

/// A FLAC file, whose tempo is the Vorbis comment `BPM`.
pub struct Flac {
    path: String,
    bpm: Option<u32>,
}

impl Flac {
    /// The track at `path` whose first `BPM` comment is `bpm_text` (`None`
    /// when there is no such comment). Text that is not a number leaves the
    /// track without a tempo.
    pub fn new(path: String, bpm_text: Option<&str>) -> (r: Flac)
        ensures
            r.path_view() == path@,
            r.bpm_view() == (match bpm_text {
                Some(t) => bpm_of_text(t@),
                None => None,
            }),
    {
        let bpm = match bpm_text {
            Some(t) => parse_bpm(t),
            None => None,
        };
        Flac { path, bpm }
    }
}

impl Music for Flac {
    closed spec fn path_view(&self) -> Seq<char> {
        self.path@
    }

    closed spec fn bpm_view(&self) -> Option<u32> {
        self.bpm
    }

    fn path(&self) -> (r: &str) {
        self.path.as_str()
    }

    fn bpm(&self) -> (r: Option<u32>) {
        self.bpm
    }

    fn set_bpm(&mut self, bpm: u32) {
        self.bpm = Some(bpm);
    }
}

/// A track of either format.
pub enum Track {
    Mp3(Mp3),
    Flac(Flac),
}

impl Track {
    pub open spec fn format_view(&self) -> TagFormat {
        match self {
            Track::Mp3(_) => TagFormat::Id3,
            Track::Flac(_) => TagFormat::Vorbis,
        }
    }

    /// The track at `path` in `format`, with the text of its tempo field.
    pub fn new(path: String, format: TagFormat, bpm_text: Option<&str>) -> (r: Track)
        ensures
            r.format_view() == format,
            r.path_view() == path@,
            r.bpm_view() == (match bpm_text {
                Some(t) => bpm_of_text(t@),
                None => None,
            }),
    {
        match format {
            TagFormat::Id3 => Track::Mp3(Mp3::new(path, bpm_text)),
            TagFormat::Vorbis => Track::Flac(Flac::new(path, bpm_text)),
        }
    }

    /// Records `bpm` as the tempo of the track's tag; the track keeps
    /// its path and format.
    pub fn record_bpm(&mut self, bpm: u32)
        ensures
            final(self).bpm_view() == Some(bpm),
            final(self).path_view() == old(self).path_view(),
            final(self).format_view() == old(self).format_view(),
    {
        match self {
            Track::Mp3(t) => t.set_bpm(bpm),
            Track::Flac(t) => t.set_bpm(bpm),
        }
    }

    pub fn format(&self) -> (r: TagFormat)
        ensures
            r == self.format_view(),
    {
        match self {
            Track::Mp3(_) => TagFormat::Id3,
            Track::Flac(_) => TagFormat::Vorbis,
        }
    }
}

impl Music for Track {
    open spec fn path_view(&self) -> Seq<char> {
        match self {
            Track::Mp3(t) => t.path_view(),
            Track::Flac(t) => t.path_view(),
        }
    }

    open spec fn bpm_view(&self) -> Option<u32> {
        match self {
            Track::Mp3(t) => t.bpm_view(),
            Track::Flac(t) => t.bpm_view(),
        }
    }

    fn path(&self) -> (r: &str) {
        match self {
            Track::Mp3(t) => t.path(),
            Track::Flac(t) => t.path(),
        }
    }

    fn bpm(&self) -> (r: Option<u32>) {
        match self {
            Track::Mp3(t) => t.bpm(),
            Track::Flac(t) => t.bpm(),
        }
    }

    fn set_bpm(&mut self, bpm: u32) {
        self.record_bpm(bpm);
    }
}

/// The positions, in order, of the tracks whose tag holds no tempo.
pub fn untagged(tracks: &Vec<Track>) -> (r: Vec<usize>)
    ensures
        forall|k: int| 0 <= k < r@.len() ==> #[trigger] r@[k] < tracks@.len()
            && tracks@[r@[k] as int].bpm_view() is None,
        forall|k: int, l: int| 0 <= k < l < r@.len() ==> r@[k] < r@[l],
        forall|i: int|
            0 <= i < tracks@.len() && (#[trigger] tracks@[i]).bpm_view() is None ==> r@.contains(
                i as usize,
            ),
{
    let mut r: Vec<usize> = Vec::new();
    let mut i: usize = 0;
    while i < tracks.len()
        invariant
            i <= tracks@.len(),
            forall|k: int| 0 <= k < r@.len() ==> #[trigger] r@[k] < i
                && tracks@[r@[k] as int].bpm_view() is None,
            forall|k: int, l: int| 0 <= k < l < r@.len() ==> r@[k] < r@[l],
            forall|j: int|
                0 <= j < i && (#[trigger] tracks@[j]).bpm_view() is None ==> r@.contains(
                    j as usize,
                ),
        decreases tracks@.len() - i,
    {
        if tracks[i].bpm().is_none() {
            let ghost before = r@;
            r.push(i);
            proof {
                assert forall|j: int|
                    0 <= j < i + 1 && (#[trigger] tracks@[j]).bpm_view() is None implies r@.contains(
                        j as usize,
                    ) by {
                    if j < i {
                        let k = choose|k: int| 0 <= k < before.len() && before[k] == j as usize;
                        assert(r@[k] == j as usize);
                    } else {
                        assert(r@[before.len() as int] == j as usize);
                    }
                }
            }
        }
        i = i + 1;
    }
    r
}

} // verus!
