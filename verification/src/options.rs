//! The persisted preferences record: the ordered, deduplicated playlist,
//! the selection, and the host's switches.
//!
//! The playlist holds no two equal tracks — equal by the base filename
//! plus duration relation — and every mutation preserves that. The
//! selection is a track value, not an index, so reordering and shuffling
//! never invalidate it.

use crate::audio_resource::{has_audio_extension, track_eq, AudioResource};
use rand::seq::SliceRandom;
use vstd::prelude::*;

verus! {

/// Some track of `s` equals `r`.
pub open spec fn contains_track(s: Seq<AudioResource>, r: AudioResource) -> bool {
    exists|i: int| 0 <= i < s.len() && #[trigger] track_eq(s[i], r)
}

/// No two tracks of `s` are equal: the playlist invariant.
pub open spec fn distinct_tracks(s: Seq<AudioResource>) -> bool {
    forall|i: int, j: int|
        #![trigger track_eq(s[i], s[j])]
        0 <= i < j < s.len() ==> !track_eq(s[i], s[j])
}

/// What insertion makes of the playlist: an already-present track changes
/// nothing, any other is appended.
pub open spec fn spec_add(s: Seq<AudioResource>, r: AudioResource) -> Seq<AudioResource> {
    if contains_track(s, r) {
        s
    } else {
        s.push(r)
    }
}

/// The index of the first track of `s` equal to `r`.
pub open spec fn spec_index_of(s: Seq<AudioResource>, r: AudioResource) -> int
    decreases s.len(),
{
    if s.len() == 0 {
        0
    } else if track_eq(s[0], r) {
        0
    } else {
        1 + spec_index_of(s.drop_first(), r)
    }
}

/// When `s` holds a track equal to `r`, its first index is in bounds,
/// carries an equal track, and nothing before it does.
pub proof fn lemma_index_of_properties(s: Seq<AudioResource>, r: AudioResource)
    requires
        contains_track(s, r),
    ensures
        0 <= spec_index_of(s, r) < s.len(),
        track_eq(s[spec_index_of(s, r)], r),
        forall|j: int| 0 <= j < spec_index_of(s, r) ==> !track_eq(#[trigger] s[j], r),
    decreases s.len(),
{
    if s.len() > 0 && !track_eq(s[0], r) {
        assert(contains_track(s.drop_first(), r)) by {
            let i = choose|i: int| 0 <= i < s.len() && #[trigger] track_eq(s[i], r);
            assert(track_eq(s.drop_first()[i - 1], r));
        }
        lemma_index_of_properties(s.drop_first(), r);
        assert forall|j: int| 0 <= j < spec_index_of(s, r) implies !track_eq(
            #[trigger] s[j],
            r,
        ) by {
            if j > 0 {
                assert(s[j] == s.drop_first()[j - 1]);
            }
        }
    }
}

/// The first index of `r` is the position of the first equal track.
proof fn lemma_index_of_first(s: Seq<AudioResource>, r: AudioResource, i: int)
    requires
        0 <= i < s.len(),
        track_eq(s[i], r),
        forall|j: int| 0 <= j < i ==> !track_eq(#[trigger] s[j], r),
    ensures
        spec_index_of(s, r) == i,
    decreases s.len(),
{
    if i > 0 {
        assert(track_eq(s.drop_first()[i - 1], r));
        assert forall|j: int| 0 <= j < i - 1 implies !track_eq(
            #[trigger] s.drop_first()[j],
            r,
        ) by {
            assert(s.drop_first()[j] == s[j + 1]);
        }
        lemma_index_of_first(s.drop_first(), r, i - 1);
    }
}

/// The preferences record.
#[derive(Debug)]
pub struct Options {
    /// The ordered, deduplicated playlist.
    pub playlist: Vec<AudioResource>,
    /// Whether a finished track starts the next one.
    pub autoplay: bool,
    /// The user's pick, held by value; at most one.
    pub selected: Option<AudioResource>,
    /// Output volume on a 0 to 100 scale.
    pub volume: u8,
    /// Window size in whole pixels, width then height.
    pub ui_size: [u32; 2],
    /// Whether the debug window shows.
    pub show_debug: bool,
    /// Whether the window stays above all others.
    pub always_on_top: bool,
}

/// All fields but the playlist agree.
pub open spec fn same_but_playlist(a: Options, b: Options) -> bool {
    a.autoplay == b.autoplay && a.selected == b.selected && a.volume == b.volume && a.ui_size
        == b.ui_size && a.show_debug == b.show_debug && a.always_on_top == b.always_on_top
}

/// Some track of `list` equals `r`.
fn vec_contains_track(list: &Vec<AudioResource>, r: &AudioResource) -> (found: bool)
    ensures
        found == contains_track(list@, *r),
{
    let mut i: usize = 0;
    while i < list.len()
        invariant
            i <= list@.len(),
            forall|j: int| 0 <= j < i ==> !track_eq(#[trigger] list@[j], *r),
        decreases list@.len() - i,
    {
        if list[i] == *r {
            return true;
        }
        i = i + 1;
    }
    false
}

/// The index of the first track of `list` equal to `r`.
pub fn vec_index_of(list: &Vec<AudioResource>, r: &AudioResource) -> (idx: usize)
    requires
        contains_track(list@, *r),
    ensures
        idx == spec_index_of(list@, *r),
        idx < list@.len(),
        track_eq(list@[idx as int], *r),
{
    let mut i: usize = 0;
    loop
        invariant
            contains_track(list@, *r),
            i <= list@.len(),
            forall|j: int| 0 <= j < i ==> !track_eq(#[trigger] list@[j], *r),
        decreases list@.len() - i,
    {
        proof {
            lemma_index_of_properties(list@, *r);
        }
        if i >= list.len() {
            proof {
                assert(false);
            }
        } else {
            if list[i] == *r {
                proof {
                    lemma_index_of_first(list@, *r, i as int);
                }
                return i;
            }
        }
        i = i + 1;
    }
}

/// Replace the track at `i`, keeping every other position.
fn replace_track(list: &mut Vec<AudioResource>, i: usize, x: AudioResource)
    requires
        i < old(list)@.len(),
    ensures
        final(list)@ == old(list)@.update(i as int, x),
{
    list.remove(i);
    list.insert(i, x);
    proof {
        assert(list@ =~= old(list)@.update(i as int, x));
    }
}

/// Swap the tracks at `i` and `j`.
fn swap_tracks(list: &mut Vec<AudioResource>, i: usize, j: usize)
    requires
        i < old(list)@.len(),
        j < old(list)@.len(),
    ensures
        final(list)@ == old(list)@.update(i as int, old(list)@[j as int]).update(
            j as int,
            old(list)@[i as int],
        ),
{
    let a = list[i].clone();
    let b = list[j].clone();
    replace_track(list, i, b);
    replace_track(list, j, a);
}

/// Swapping two positions preserves the playlist invariant.
proof fn lemma_swap_distinct(s: Seq<AudioResource>, i: int, j: int)
    requires
        distinct_tracks(s),
        0 <= i < s.len(),
        0 <= j < s.len(),
    ensures
        distinct_tracks(s.update(i, s[j]).update(j, s[i])),
{
    let t = s.update(i, s[j]).update(j, s[i]);
    assert forall|a: int, b: int| 0 <= a < b < t.len() implies !track_eq(t[a], t[b]) by {
        let a2: int = if a == i {
            j
        } else if a == j {
            i
        } else {
            a
        };
        let b2: int = if b == i {
            j
        } else if b == j {
            i
        } else {
            b
        };
        assert(t[a] == s[a2]);
        assert(t[b] == s[b2]);
        if a2 < b2 {
            assert(!track_eq(s[a2], s[b2]));
        } else {
            assert(!track_eq(s[b2], s[a2]));
        }
    }
}

/// Filtering keeps the playlist invariant, and hands back only tracks the
/// playlist held.
proof fn lemma_filter_distinct(s: Seq<AudioResource>, pred: spec_fn(AudioResource) -> bool)
    requires
        distinct_tracks(s),
    ensures
        distinct_tracks(s.filter(pred)),
        forall|i: int| 0 <= i < s.filter(pred).len() ==> s.contains(#[trigger] s.filter(pred)[i]),
    decreases s.len(),
{
    reveal_with_fuel(Seq::filter, 2);
    if s.len() > 0 {
        let d = s.drop_last();
        assert(distinct_tracks(d)) by {
            assert forall|i: int, j: int|
                #![trigger track_eq(d[i], d[j])]
                0 <= i < j < d.len() implies !track_eq(d[i], d[j]) by {
                assert(!track_eq(s[i], s[j]));
            }
        }
        lemma_filter_distinct(d, pred);
        let f = s.filter(pred);
        let fd = d.filter(pred);
        assert forall|i: int| 0 <= i < f.len() implies s.contains(#[trigger] f[i]) by {
            if pred(s.last()) && i == f.len() - 1 {
                assert(s[s.len() - 1] == f[i]);
            } else {
                assert(f[i] == fd[i]);
                let k = choose|k: int| 0 <= k < d.len() && d[k] == fd[i];
                assert(s[k] == f[i]);
            }
        }
        assert forall|a: int, b: int|
            #![trigger track_eq(f[a], f[b])]
            0 <= a < b < f.len() implies !track_eq(f[a], f[b]) by {
            if pred(s.last()) && b == f.len() - 1 {
                assert(f[a] == fd[a]);
                let k = choose|k: int| 0 <= k < d.len() && d[k] == fd[a];
                assert(!track_eq(s[k], s[s.len() - 1]));
            } else {
                assert(f[a] == fd[a] && f[b] == fd[b]);
                assert(!track_eq(fd[a], fd[b]));
            }
        }
    }
}

/// A rearrangement that keeps the same tracks — the same multiset —
/// keeps the playlist invariant.
proof fn lemma_permutation_distinct(s1: Seq<AudioResource>, s2: Seq<AudioResource>)
    requires
        distinct_tracks(s1),
        s1.to_multiset() == s2.to_multiset(),
    ensures
        distinct_tracks(s2),
{
    broadcast use vstd::seq_lib::group_to_multiset_ensures;

    assert(s1.no_duplicates()) by {
        assert forall|i: int, j: int| 0 <= i < j < s1.len() implies s1[i] != s1[j] by {
            if s1[i] == s1[j] {
                assert(track_eq(s1[i], s1[j]));
            }
        }
    }
    s1.lemma_multiset_has_no_duplicates();
    s2.lemma_multiset_has_no_duplicates_conv();
    assert forall|i: int, j: int|
        #![trigger track_eq(s2[i], s2[j])]
        0 <= i < j < s2.len() implies !track_eq(s2[i], s2[j]) by {
        assert(s2[i] != s2[j]);
        assert(s2.contains(s2[i]));
        assert(s2.contains(s2[j]));
        assert(s2.to_multiset().count(s2[i]) > 0);
        assert(s2.to_multiset().count(s2[j]) > 0);
        assert(s1.to_multiset().count(s2[i]) > 0);
        assert(s1.to_multiset().count(s2[j]) > 0);
        assert(s1.contains(s2[i]));
        assert(s1.contains(s2[j]));
        let k = choose|k: int| 0 <= k < s1.len() && s1[k] == s2[i];
        let l = choose|l: int| 0 <= l < s1.len() && s1[l] == s2[j];
        if track_eq(s2[i], s2[j]) {
            if k < l {
                assert(!track_eq(s1[k], s1[l]));
            } else {
                assert(!track_eq(s1[l], s1[k]));
            }
        }
    }
}

/// Relies on rand's SliceRandom::shuffle, driven by the thread rng: the
/// slice is permuted in place, so it holds the same tracks afterwards;
/// which order they take is random, so nothing more is promised.
#[verifier::external_body]
fn shuffle_tracks(list: &mut Vec<AudioResource>)
    ensures
        final(list)@.to_multiset() == old(list)@.to_multiset(),
{
    list.shuffle(&mut rand::rng());
}

impl Options {
    /// The playlist invariant: no two equal tracks coexist.
    pub open spec fn wf(self) -> bool {
        distinct_tracks(self.playlist@)
    }

    /// Append `resource` unless an equal track is already present.
    pub fn add_track(&mut self, resource: AudioResource)
        requires
            old(self).wf(),
        ensures
            final(self).wf(),
            final(self).playlist@ == spec_add(old(self).playlist@, resource),
            same_but_playlist(*final(self), *old(self)),
    {
        if !vec_contains_track(&self.playlist, &resource) {
            let ghost s = self.playlist@;
            self.playlist.push(resource);
            proof {
                assert forall|i: int, j: int|
                    #![trigger track_eq(self.playlist@[i], self.playlist@[j])]
                    0 <= i < j < self.playlist@.len() implies !track_eq(
                    self.playlist@[i],
                    self.playlist@[j],
                ) by {
                    if j == s.len() {
                        assert(!track_eq(s[i], resource));
                    }
                }
            }
        }
    }

    /// Add the audio file at `path` to the playlist: locations without a
    /// recognized audio extension are rejected; a probed track equal to
    /// one already present is dropped; any other is appended.
    pub fn add_resource(&mut self, path: String)
        requires
            old(self).wf(),
        ensures
            final(self).wf(),
            same_but_playlist(*final(self), *old(self)),
            !has_audio_extension(path@) ==> final(self).playlist@ == old(self).playlist@,
            has_audio_extension(path@) ==> (exists|r: AudioResource|
                r.path@ == path@ && final(self).playlist@ == #[trigger] spec_add(
                    old(self).playlist@,
                    r,
                )),
    {
        if !crate::audio_resource::check_audio_extension(path.as_str()) {
            return;
        }
        let resource = AudioResource::from_path(path);
        self.add_track(resource);
    }

    /// Remove every track equal to `resource` from the playlist. Deleting
    /// a matching file from the downloads directory is the host's part of
    /// removal; the record itself only forgets the track.
    pub fn remove_resource(&mut self, resource: &AudioResource)
        requires
            old(self).wf(),
        ensures
            final(self).wf(),
            same_but_playlist(*final(self), *old(self)),
            final(self).playlist@ == old(self).playlist@.filter(
                |x: AudioResource| !track_eq(x, *resource),
            ),
    {
        let ghost pred = |x: AudioResource| !track_eq(x, *resource);
        let mut kept: Vec<AudioResource> = Vec::new();
        let mut i: usize = 0;
        proof {
            assert(self.playlist@.take(0) =~= Seq::<AudioResource>::empty());
            reveal_with_fuel(Seq::filter, 1);
        }
        while i < self.playlist.len()
            invariant
                i <= self.playlist@.len(),
                self.playlist == old(self).playlist,
                kept@ == self.playlist@.take(i as int).filter(pred),
                pred == (|x: AudioResource| !track_eq(x, *resource)),
            decreases self.playlist@.len() - i,
        {
            let ghost taken = self.playlist@.take(i as int);
            let keep = !(self.playlist[i] == *resource);
            if keep {
                kept.push(self.playlist[i].clone());
            }
            proof {
                let x = self.playlist@[i as int];
                assert(self.playlist@.take(i + 1) =~= taken + seq![x]);
                Seq::<AudioResource>::filter_distributes_over_add(taken, seq![x], pred);
                reveal_with_fuel(Seq::filter, 2);
                assert(seq![x].drop_last() =~= Seq::<AudioResource>::empty());
                assert(seq![x].filter(pred) == if pred(x) {
                    Seq::<AudioResource>::empty().push(x)
                } else {
                    Seq::<AudioResource>::empty()
                });
                assert(kept@ =~= taken.filter(pred) + seq![x].filter(pred));
            }
            i = i + 1;
        }
        proof {
            assert(self.playlist@.take(self.playlist@.len() as int) =~= self.playlist@);
            lemma_filter_distinct(self.playlist@, pred);
        }
        self.playlist = kept;
    }

    /// Forget every track at once. Deleting the files is the host's part.
    pub fn playlist_clear(&mut self)
        requires
            old(self).wf(),
        ensures
            final(self).wf(),
            same_but_playlist(*final(self), *old(self)),
            final(self).playlist@.len() == 0,
    {
        self.playlist.clear();
    }

    /// Swap the selected track with the one before it; from the first
    /// position it wraps to the last.
    pub fn move_up(&mut self)
        requires
            old(self).wf(),
            old(self).selected is Some,
            contains_track(old(self).playlist@, old(self).selected->0),
        ensures
            final(self).wf(),
            same_but_playlist(*final(self), *old(self)),
            ({
                let s = old(self).playlist@;
                let i = spec_index_of(s, old(self).selected->0);
                let j: int = if i > 0 {
                    i - 1
                } else {
                    s.len() - 1
                };
                final(self).playlist@ == s.update(i, s[j]).update(j, s[i])
            }),
    {
        let sel = match &self.selected {
            Some(t) => t.clone(),
            None => {
                proof {
                    assert(false);
                }
                unreached()
            },
        };
        let i = vec_index_of(&self.playlist, &sel);
        let j = if i > 0 {
            i - 1
        } else {
            self.playlist.len() - 1
        };
        proof {
            lemma_swap_distinct(self.playlist@, i as int, j as int);
        }
        swap_tracks(&mut self.playlist, i, j);
    }

    /// Swap the selected track with the one after it; from the last
    /// position it wraps to the first.
    pub fn move_down(&mut self)
        requires
            old(self).wf(),
            old(self).selected is Some,
            contains_track(old(self).playlist@, old(self).selected->0),
        ensures
            final(self).wf(),
            same_but_playlist(*final(self), *old(self)),
            ({
                let s = old(self).playlist@;
                let i = spec_index_of(s, old(self).selected->0);
                let j = (i + 1) % (s.len() as int);
                final(self).playlist@ == s.update(i, s[j]).update(j, s[i])
            }),
    {
        let sel = match &self.selected {
            Some(t) => t.clone(),
            None => {
                proof {
                    assert(false);
                }
                unreached()
            },
        };
        let i = vec_index_of(&self.playlist, &sel);
        let n = self.playlist.len();
        let j = (i + 1) % n;
        proof {
            lemma_swap_distinct(self.playlist@, i as int, j as int);
        }
        swap_tracks(&mut self.playlist, i, j);
    }

    /// Put the playlist in a random order: the same tracks, freshly
    /// arranged.
    pub fn shuffle(&mut self)
        requires
            old(self).wf(),
        ensures
            final(self).wf(),
            same_but_playlist(*final(self), *old(self)),
            final(self).playlist@.to_multiset() == old(self).playlist@.to_multiset(),
            final(self).playlist@.len() == old(self).playlist@.len(),
    {
        let ghost before = self.playlist@;
        shuffle_tracks(&mut self.playlist);
        proof {
            broadcast use vstd::seq_lib::group_to_multiset_ensures;

            lemma_permutation_distinct(before, self.playlist@);
            assert(before.to_multiset().len() == before.len());
            assert(self.playlist@.to_multiset().len() == self.playlist@.len());
        }
    }
}

impl Default for Options {
    fn default() -> (r: Self)
        ensures
            r.wf(),
            r.playlist@.len() == 0,
            r.autoplay == false,
            r.selected is None,
            r.volume == 50,
            r.ui_size@ =~= seq![360u32, 300u32],
            r.show_debug == false,
            r.always_on_top == false,
    {
        Options {
            playlist: Vec::new(),
            autoplay: false,
            selected: None,
            volume: 50,
            ui_size: [360, 300],
            show_debug: false,
            always_on_top: false,
        }
    }
}

/// Insertion deduplicates, so inserting the same song twice leaves the
/// playlist exactly as one insertion left it — in particular its length
/// stands.
pub proof fn lemma_add_idempotent(s: Seq<AudioResource>, r: AudioResource)
    ensures
        spec_add(spec_add(s, r), r) == spec_add(s, r),
{
    if !contains_track(s, r) {
        assert(track_eq(s.push(r)[s.len() as int], r));
    }
}

} // verus!
