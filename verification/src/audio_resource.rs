//! A single audio file reference: its location, its play length, and its
//! playability.
//!
//! Two tracks are the same song exactly when the base filename of their
//! locations and their durations match; the directory part is ignored, so
//! the same file found anywhere counts as one song for selection and
//! deduplication.

use crate::duration_format::{format_mm_ss, spec_mm_ss};
use vstd::prelude::*;

verus! {

/// A path separator: both styles are recognized in a location string.
pub open spec fn is_separator(c: char) -> bool {
    c == '/' || c == '\\'
}

/// The base filename of a location: the suffix after the last separator.
pub open spec fn basename(s: Seq<char>) -> Seq<char>
    decreases s.len(),
{
    if s.len() == 0 {
        s
    } else if is_separator(s[s.len() - 1]) {
        Seq::empty()
    } else {
        basename(s.drop_last()).push(s[s.len() - 1])
    }
}

/// A reference to one audio file.
#[derive(Debug)]
pub struct AudioResource {
    /// Location of the underlying media file.
    pub path: String,
    /// Total play length in milliseconds, fixed at construction.
    pub duration: u64,
    /// Whether the location could be read when the value was constructed.
    /// The flag is sticky: a track built unplayable never reports playable
    /// again, however the filesystem changes.
    pub created_playable: bool,
}

/// The identity relation on tracks: same base filename, same duration.
pub open spec fn track_eq(a: AudioResource, b: AudioResource) -> bool {
    basename(a.path@) == basename(b.path@) && a.duration == b.duration
}

/// When the tail of `s` from `k` on holds no separator, and `k` is either
/// the start or just past a separator, the basename is that tail.
proof fn lemma_basename_subrange(s: Seq<char>, k: int)
    requires
        0 <= k <= s.len(),
        forall|j: int| k <= j < s.len() ==> !is_separator(s[j]),
        k == 0 || is_separator(s[k - 1]),
    ensures
        basename(s) =~= s.subrange(k, s.len() as int),
    decreases s.len(),
{
    if s.len() == 0 {
    } else if k == s.len() {
        if k > 0 {
            assert(is_separator(s[s.len() - 1]));
        }
    } else {
        assert(!is_separator(s[s.len() - 1]));
        lemma_basename_subrange(s.drop_last(), k);
    }
}

/// A location the playlist accepts: its base filename carries a
/// recognized audio extension, `.mp3` or `.wav`.
pub open spec fn has_audio_extension(s: Seq<char>) -> bool {
    let b = basename(s);
    b.len() >= 5 && ((b[b.len() - 4] == '.' && b[b.len() - 3] == 'm' && b[b.len() - 2] == 'p'
        && b[b.len() - 1] == '3') || (b[b.len() - 4] == '.' && b[b.len() - 3] == 'w' && b[b.len()
        - 2] == 'a' && b[b.len() - 1] == 'v'))
}

/// Whether the base filename of `path` carries a recognized audio
/// extension.
pub fn check_audio_extension(path: &str) -> (r: bool)
    ensures
        r == has_audio_extension(path@),
{
    let k = basename_start(path);
    let n = path.unicode_len();
    if n - k < 5 {
        return false;
    }
    let d = path.get_char(n - 4);
    let x = path.get_char(n - 3);
    let y = path.get_char(n - 2);
    let z = path.get_char(n - 1);
    proof {
        let b = basename(path@);
        assert(b[b.len() - 4] == path@[n - 4]);
        assert(b[b.len() - 3] == path@[n - 3]);
        assert(b[b.len() - 2] == path@[n - 2]);
        assert(b[b.len() - 1] == path@[n - 1]);
    }
    (d == '.' && x == 'm' && y == 'p' && z == '3') || (d == '.' && x == 'w' && y == 'a' && z
        == 'v')
}

/// The position right after the last separator of `s`, or zero when `s`
/// holds none: the start of the basename.
fn basename_start(s: &str) -> (k: usize)
    ensures
        k <= s@.len(),
        basename(s@) == s@.subrange(k as int, s@.len() as int),
{
    let n = s.unicode_len();
    let mut i = n;
    while i > 0
        invariant
            i <= n,
            n == s@.len(),
            forall|j: int| i <= j < n ==> !is_separator(s@[j]),
        decreases i,
    {
        let c = s.get_char(i - 1);
        if c == '/' || c == '\\' {
            proof {
                lemma_basename_subrange(s@, i as int);
            }
            return i;
        }
        i = i - 1;
    }
    proof {
        lemma_basename_subrange(s@, 0);
    }
    0
}

/// Whether the base filenames of two locations match.
fn basenames_match(a: &str, b: &str) -> (r: bool)
    ensures
        r == (basename(a@) == basename(b@)),
{
    let ka = basename_start(a);
    let kb = basename_start(b);
    let la = a.unicode_len() - ka;
    let lb = b.unicode_len() - kb;
    if la != lb {
        proof {
            assert(basename(a@).len() != basename(b@).len());
        }
        return false;
    }
    let mut t: usize = 0;
    while t < la
        invariant
            t <= la,
            ka + la == a@.len(),
            kb + lb == b@.len(),
            a@.len() <= usize::MAX,
            b@.len() <= usize::MAX,
            la == lb,
            basename(a@) == a@.subrange(ka as int, a@.len() as int),
            basename(b@) == b@.subrange(kb as int, b@.len() as int),
            forall|j: int| 0 <= j < t ==> basename(a@)[j] == basename(b@)[j],
        decreases la - t,
    {
        if a.get_char(ka + t) != b.get_char(kb + t) {
            proof {
                assert(basename(a@)[t as int] != basename(b@)[t as int]);
            }
            return false;
        }
        t = t + 1;
    }
    proof {
        assert(basename(a@) =~= basename(b@));
    }
    true
}

impl Clone for AudioResource {
    fn clone(&self) -> (r: Self)
        ensures
            r == *self,
    {
        AudioResource {
            path: self.path.clone(),
            duration: self.duration,
            created_playable: self.created_playable,
        }
    }
}

impl PartialEq for AudioResource {
    fn eq(&self, other: &Self) -> (r: bool) {
        self.duration == other.duration && basenames_match(self.path.as_str(), other.path.as_str())
    }
}

impl vstd::std_specs::cmp::PartialEqSpecImpl for AudioResource {
    open spec fn obeys_eq_spec() -> bool {
        true
    }

    open spec fn eq_spec(&self, other: &AudioResource) -> bool {
        track_eq(*self, *other)
    }
}

/// What construction from a location makes of a probe outcome: a probed
/// duration gives a playable track carrying it; a failed probe gives an
/// unplayable track of duration zero.
pub open spec fn spec_from_probe(path: String, probe: Option<u64>) -> AudioResource {
    match probe {
        Some(d) => AudioResource { path, duration: d, created_playable: true },
        None => AudioResource { path, duration: 0, created_playable: false },
    }
}

/// Relies on std::path::Path::exists: whether the location currently names
/// an entity on the filesystem. The answer depends on the state of the
/// disk, so nothing is promised of it.
#[verifier::external_body]
fn location_exists(path: &str) -> bool {
    std::path::Path::new(path).exists()
}

/// Relies on lofty's Probe: open the location, read the file, and take the
/// duration of its properties, in whole milliseconds. What comes back
/// depends on the file on disk, so nothing is promised of the value; a
/// file that cannot be opened or parsed gives back nothing.
#[verifier::external_body]
fn probe_duration_millis(path: &str) -> Option<u64> {
    let file = lofty::probe::Probe::open(path).ok()?.read().ok()?;
    let props = lofty::file::AudioFile::properties(&file);
    Some(props.duration().as_millis() as u64)
}

impl AudioResource {
    /// Build a track from a location and an already known play length.
    /// Playability is probed against the filesystem once, here.
    pub fn new(path: String, duration: u64) -> (r: Self)
        ensures
            r.path == path,
            r.duration == duration,
    {
        let created_playable = location_exists(path.as_str());
        AudioResource { path, duration, created_playable }
    }

    /// Build the track that a probe outcome dictates for a location.
    pub fn from_probe(path: String, probe: Option<u64>) -> (r: Self)
        ensures
            r == spec_from_probe(path, probe),
    {
        match probe {
            Some(d) => AudioResource { path, duration: d, created_playable: true },
            None => AudioResource { path, duration: 0, created_playable: false },
        }
    }

    /// Build a track from a location alone: probe the file for its play
    /// length. A location that does not exist, or whose metadata cannot be
    /// read, gives an unplayable track of duration zero.
    pub fn from_path(path: String) -> (r: Self)
        ensures
            r.path == path,
            !r.created_playable ==> r.duration == 0,
    {
        let probe = if location_exists(path.as_str()) {
            probe_duration_millis(path.as_str())
        } else {
            None
        };
        Self::from_probe(path, probe)
    }

    /// Whether the track can be played now. A track constructed unplayable
    /// never reports playable again; one constructed playable is checked
    /// against the filesystem anew on every query.
    pub fn playable(&self) -> (r: bool)
        ensures
            !self.created_playable ==> r == false,
    {
        if !self.created_playable {
            false
        } else {
            location_exists(self.path.as_str())
        }
    }

    /// The play length rendered as `MM:SS`, by whole seconds.
    pub fn formatted_duration(&self) -> (r: String)
        ensures
            r@ == spec_mm_ss((self.duration / 1000) as nat),
    {
        format_mm_ss(self.duration / 1000)
    }
}

/// Track identity ignores the directory part of the location and the
/// playability flag: tracks whose locations share a base filename and
/// whose durations match are equal, and equal tracks share both.
pub proof fn lemma_track_equality(a: AudioResource, b: AudioResource)
    ensures
        track_eq(a, b) <==> (basename(a.path@) == basename(b.path@) && a.duration == b.duration),
{
}

/// A track persists as its location string alone, and reloading probes the
/// location afresh. Whenever the fresh probe reports the duration the
/// track already had, the reloaded track equals the original, whatever
/// playability either construction observed.
pub proof fn lemma_location_round_trip(t: AudioResource, probe: Option<u64>)
    requires
        probe == Some(t.duration),
    ensures
        track_eq(spec_from_probe(t.path, probe), t),
{
}

} // verus!
