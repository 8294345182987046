//! Timeline tracks and clips.
//!
//! A track owns an ordered-by-start list of clips; no two clips on the same
//! track may overlap in time. A clip carries independent in/out trim points
//! and a playback-speed multiplier stored in thousandths (1000 = normal
//! speed).

use crate::core_types::TimePosition;
use vstd::prelude::*;

verus! {

/// Track content type.
#[derive(Debug, Clone, Copy, PartialEq, Eq, Structural, Hash)]
pub enum TrackType {
    /// Video track.
    Video,
    /// Audio track.
    Audio,
    /// Subtitle/caption track.
    Subtitle,
    /// Data/metadata track.
    Data,
    /// Effects/adjustment track.
    Effect,
}

impl TrackType {
    /// Returns the track type name.
    pub fn name(&self) -> (r: &'static str)
        ensures
            self is Video ==> r@ == "Video"@,
            self is Audio ==> r@ == "Audio"@,
            self is Subtitle ==> r@ == "Subtitle"@,
            self is Data ==> r@ == "Data"@,
            self is Effect ==> r@ == "Effect"@,
    {
        match self {
            TrackType::Video => "Video",
            TrackType::Audio => "Audio",
            TrackType::Subtitle => "Subtitle",
            TrackType::Data => "Data",
            TrackType::Effect => "Effect",
        }
    }

    /// Returns whether this track can hold video clips.
    pub fn accepts_video(&self) -> (r: bool)
        ensures
            r == (self is Video || self is Effect),
    {
        matches!(self, TrackType::Video | TrackType::Effect)
    }

    /// Returns whether this track can hold audio clips.
    pub fn accepts_audio(&self) -> (r: bool)
        ensures
            r == (self is Audio),
    {
        matches!(self, TrackType::Audio)
    }
}

impl Default for TrackType {
    /// The default track type is video.
    fn default() -> (r: Self)
        ensures
            r is Video,
    {
        TrackType::Video
    }
}

/// A clip placed on the timeline, referring to source media by id.
#[derive(Debug, Clone)]
pub struct TimelineClip {
    /// Unique clip identifier.
    pub id: u64,
    /// Start position on the timeline.
    pub start: TimePosition,
    /// Clip duration on the timeline.
    pub duration: TimePosition,
    /// Source media id.
    pub source_id: u64,
    /// In point (trim start) in the source media.
    pub in_point: TimePosition,
    /// Out point (trim end) in the source media.
    pub out_point: TimePosition,
    /// Playback speed in thousandths (1000 = normal speed).
    pub speed_permille: u32,
    /// Whether the clip is enabled.
    pub enabled: bool,
    /// Clip name.
    pub name: String,
}

impl TimelineClip {
    /// The timeline end position of a clip, `start + duration`.
    pub open spec fn spec_end(self) -> int {
        self.start.ms + self.duration.ms
    }

    /// A clip whose end position stays representable.
    pub open spec fn spec_valid(self) -> bool {
        self.start.ms + self.duration.ms <= u64::MAX
    }

    /// Creates a new clip trimmed to its whole duration, at normal speed.
    pub fn new(id: u64, source_id: u64, start: TimePosition, duration: TimePosition) -> (r: Self)
        ensures
            r.id == id,
            r.source_id == source_id,
            r.start == start,
            r.duration == duration,
            r.in_point.ms == 0,
            r.out_point == duration,
            r.speed_permille == 1000,
            r.enabled,
            r.name@.len() == 0,
    {
        TimelineClip {
            id,
            start,
            duration,
            source_id,
            in_point: TimePosition::from_ms(0),
            out_point: duration,
            speed_permille: 1000,
            enabled: true,
            name: String::new(),
        }
    }

    /// Returns the end position of the clip.
    pub fn end(&self) -> (r: TimePosition)
        requires
            self.spec_valid(),
        ensures
            r.ms == self.spec_end(),
    {
        TimePosition::from_ms(self.start.ms + self.duration.ms)
    }

    /// Returns the source duration scaled by the inverse of the playback
    /// speed, clamped to the representable range, or zero at zero speed.
    pub fn effective_duration(&self) -> (r: TimePosition)
        ensures
            self.speed_permille == 0 ==> r.ms == 0,
            self.speed_permille != 0 ==> ({
                let scaled = (if self.out_point.ms >= self.in_point.ms {
                    (self.out_point.ms - self.in_point.ms) * 1000 / (self.speed_permille as int)
                } else {
                    0
                });
                r.ms == if scaled <= u64::MAX {
                    scaled
                } else {
                    u64::MAX as int
                }
            }),
    {
        if self.speed_permille == 0 {
            return TimePosition::from_ms(0);
        }
        let source_dur: u64 = self.out_point.ms.saturating_sub(self.in_point.ms);
        let effective: u128 = (source_dur as u128) * 1000 / (self.speed_permille as u128);
        if effective > u64::MAX as u128 {
            TimePosition::from_ms(u64::MAX)
        } else {
            TimePosition::from_ms(effective as u64)
        }
    }

    /// The source position where a split at the given timeline offset
    /// lands: the in point advanced by the elapsed timeline duration scaled
    /// by the speed multiplier.
    pub open spec fn spec_source_split(self, position: TimePosition) -> int {
        self.in_point.ms + (position.ms - self.start.ms) * self.speed_permille / 1000
    }

    /// Splits the clip at a timeline position strictly inside it.
    ///
    /// Fails on a position at or outside `[start, end)`. On success the two
    /// clips cover exactly the original timeline span, the first keeps the
    /// clip's id and the second takes `new_id`, and the source in/out points
    /// are partitioned at the speed-scaled split position so that both
    /// halves stay in sync with the source media.
    pub fn split_at(&self, position: TimePosition, new_id: u64) -> (r: Option<(Self, Self)>)
        requires
            self.spec_valid(),
            self.in_point.ms + self.duration.ms * self.speed_permille / 1000 <= u64::MAX,
        ensures
            (position.ms <= self.start.ms || position.ms >= self.spec_end()) <==> r is None,
            r is Some ==> ({
                let (first, second) = r->Some_0;
                let split_offset = position.ms - self.start.ms;
                let source_split = self.spec_source_split(position);
                &&& first.id == self.id
                &&& first.start == self.start
                &&& first.duration.ms == split_offset
                &&& first.source_id == self.source_id
                &&& first.in_point == self.in_point
                &&& first.out_point.ms == source_split
                &&& first.speed_permille == self.speed_permille
                &&& first.enabled == self.enabled
                &&& first.name == self.name
                &&& second.id == new_id
                &&& second.start == position
                &&& second.duration.ms == self.duration.ms - split_offset
                &&& second.source_id == self.source_id
                &&& second.in_point.ms == source_split
                &&& second.out_point == self.out_point
                &&& second.speed_permille == self.speed_permille
                &&& second.enabled == self.enabled
                &&& second.name == self.name
            }),
    {
        if position.ms <= self.start.ms || position.ms >= self.end().ms {
            return None;
        }
        let split_offset: u64 = position.ms - self.start.ms;
        proof {
            assert(split_offset * self.speed_permille <= u128::MAX) by (nonlinear_arith)
                requires
                    split_offset <= u64::MAX,
                    self.speed_permille <= u32::MAX,
            ;
        }
        let scaled: u128 = (split_offset as u128) * (self.speed_permille as u128) / 1000;
        proof {
            assert(split_offset * self.speed_permille / 1000 <= self.duration.ms
                * self.speed_permille / 1000) by (nonlinear_arith)
                requires
                    split_offset <= self.duration.ms,
                    self.speed_permille >= 0,
            ;
        }
        let source_split: u64 = self.in_point.ms + (scaled as u64);

        let first = TimelineClip {
            id: self.id,
            start: self.start,
            duration: TimePosition::from_ms(split_offset),
            source_id: self.source_id,
            in_point: self.in_point,
            out_point: TimePosition::from_ms(source_split),
            speed_permille: self.speed_permille,
            enabled: self.enabled,
            name: self.name.clone(),
        };
        let second = TimelineClip {
            id: new_id,
            start: position,
            duration: TimePosition::from_ms(self.duration.ms - split_offset),
            source_id: self.source_id,
            in_point: TimePosition::from_ms(source_split),
            out_point: self.out_point,
            speed_permille: self.speed_permille,
            enabled: self.enabled,
            name: self.name.clone(),
        };
        Some((first, second))
    }

    /// Checks whether the clip's half-open interval `[start, end)` contains
    /// the given position.
    pub fn contains(&self, position: TimePosition) -> (r: bool)
        requires
            self.spec_valid(),
        ensures
            r == (self.start.ms <= position.ms < self.spec_end()),
    {
        position.ms >= self.start.ms && position.ms < self.end().ms
    }
}

/// Split law: the two halves of a split cover exactly the original clip.
/// Their timeline durations sum to the original duration, and their source
/// in/out spans sum to the original in/out span.
pub proof fn lemma_split_covers(c: TimelineClip, position: TimePosition, new_id: u64, first: TimelineClip, second: TimelineClip)
    requires
        c.spec_valid(),
        c.start.ms < position.ms < c.spec_end(),
        first.start == c.start,
        first.duration.ms == position.ms - c.start.ms,
        first.in_point == c.in_point,
        first.out_point.ms == c.spec_source_split(position),
        second.start == position,
        second.duration.ms == c.duration.ms - (position.ms - c.start.ms),
        second.in_point.ms == c.spec_source_split(position),
        second.out_point == c.out_point,
    ensures
        first.duration.ms + second.duration.ms == c.duration.ms,
        first.spec_end() == second.start.ms,
        second.spec_end() == c.spec_end(),
        (first.out_point.ms - first.in_point.ms) + (second.out_point.ms - second.in_point.ms)
            == c.out_point.ms - c.in_point.ms,
{
}

/// All clips in the sequence end within the representable range.
pub open spec fn clips_valid(clips: Seq<TimelineClip>) -> bool {
    forall|i: int| 0 <= i < clips.len() ==> (#[trigger] clips[i]).spec_valid()
}

/// Clips are ordered by start position.
pub open spec fn clips_sorted(clips: Seq<TimelineClip>) -> bool {
    forall|i: int, j: int|
        0 <= i < j < clips.len() ==> (#[trigger] clips[i]).start.ms <= (
        #[trigger] clips[j]).start.ms
}

/// No two clips in the sequence overlap: their half-open timeline
/// intervals `[start, end)` are pairwise disjoint.
pub open spec fn clips_disjoint(clips: Seq<TimelineClip>) -> bool {
    forall|i: int, j: int|
        0 <= i < clips.len() && 0 <= j < clips.len() && i != j ==> ((#[trigger] clips[i]).spec_end()
            <= (#[trigger] clips[j]).start.ms || clips[j].spec_end() <= clips[i].start.ms)
}

/// A range is free in the sequence: it intersects no clip's interval.
pub open spec fn range_free(clips: Seq<TimelineClip>, start_ms: int, end_ms: int) -> bool {
    forall|i: int|
        0 <= i < clips.len() ==> (end_ms <= (#[trigger] clips[i]).start.ms || clips[i].spec_end()
            <= start_ms)
}

/// A horizontal timeline lane owning an ordered list of clips.
#[derive(Debug, Clone)]
pub struct TimelineTrack {
    /// Unique track identifier.
    pub id: u64,
    /// Track name.
    pub name: String,
    /// Track type.
    pub track_type: TrackType,
    /// Track index (vertical position).
    pub index: usize,
    /// Whether the track is enabled.
    pub enabled: bool,
    /// Whether the track is locked against editing.
    pub locked: bool,
    /// Whether the track is muted.
    pub muted: bool,
    /// Whether the track is soloed.
    pub solo: bool,
    /// Track height in pixels, for display.
    pub height: u32,
    /// Track clips, kept ordered by start position.
    pub clips: Vec<TimelineClip>,
}

impl TimelineTrack {
    /// A well-formed track: clips are representable, ordered by start and
    /// pairwise disjoint.
    pub open spec fn spec_wf(self) -> bool {
        &&& clips_valid(self.clips@)
        &&& clips_sorted(self.clips@)
        &&& clips_disjoint(self.clips@)
    }

    /// Creates a new empty timeline track.
    pub fn new(id: u64, name: String, track_type: TrackType, index: usize) -> (r: Self)
        ensures
            r.id == id,
            r.name == name,
            r.track_type == track_type,
            r.index == index,
            r.enabled,
            !r.locked,
            !r.muted,
            !r.solo,
            r.height == 64,
            r.clips@.len() == 0,
            r.spec_wf(),
    {
        TimelineTrack {
            id,
            name,
            track_type,
            index,
            enabled: true,
            locked: false,
            muted: false,
            solo: false,
            height: 64,
            clips: Vec::new(),
        }
    }

    /// Adds a clip, keeping the list ordered by start position: the clip is
    /// inserted before the first clip that starts strictly later. Adding a
    /// clip whose range is free keeps the track's no-overlap invariant.
    pub fn add_clip(&mut self, clip: TimelineClip)
        requires
            clip.spec_valid(),
            clips_sorted(old(self).clips@),
        ensures
            final(self).id == old(self).id,
            final(self).name == old(self).name,
            final(self).track_type == old(self).track_type,
            final(self).index == old(self).index,
            final(self).enabled == old(self).enabled,
            final(self).locked == old(self).locked,
            final(self).muted == old(self).muted,
            final(self).solo == old(self).solo,
            final(self).height == old(self).height,
            exists|k: int|
                0 <= k <= old(self).clips@.len() && final(self).clips@ == old(
                    self,
                ).clips@.insert(k, clip),
            clips_sorted(final(self).clips@),
            clips_valid(old(self).clips@) ==> clips_valid(final(self).clips@),
            old(self).spec_wf() && range_free(old(self).clips@, clip.start.ms as int, clip.spec_end())
                ==> final(self).spec_wf(),
    {
        let mut pos: usize = 0;
        while pos < self.clips.len() && self.clips[pos].start.ms <= clip.start.ms
            invariant
                0 <= pos <= self.clips@.len(),
                forall|i: int| 0 <= i < pos ==> (#[trigger] self.clips@[i]).start.ms <= clip.start.ms,
                self == old(self),
            decreases self.clips@.len() - pos,
        {
            pos = pos + 1;
        }
        self.clips.insert(pos, clip);
        proof {
            let s = old(self).clips@;
            let t = self.clips@;
            assert(t == s.insert(pos as int, clip));
            assert(forall|x: int| 0 <= x < pos ==> #[trigger] t[x] == s[x]);
            assert(forall|x: int| pos < x < t.len() ==> #[trigger] t[x] == s[x - 1]);
            assert(t[pos as int] == clip);
            assert forall|i: int, j: int| 0 <= i < j < t.len() implies (#[trigger] t[i]).start.ms
                <= (#[trigger] t[j]).start.ms by {
                if i < pos && j == pos {
                } else if i == pos && j > pos {
                    assert(t[j] == s[j - 1]);
                    assert(clips_sorted(s));
                    if s[j - 1].start.ms <= clip.start.ms {
                        assert(pos < s.len() && s[pos as int].start.ms > clip.start.ms);
                        assert(s[pos as int].start.ms <= s[j - 1].start.ms);
                    }
                } else if i < pos && j > pos {
                    assert(t[i] == s[i] && t[j] == s[j - 1]);
                } else if j < pos {
                    assert(t[i] == s[i] && t[j] == s[j]);
                } else if i > pos {
                    assert(t[i] == s[i - 1] && t[j] == s[j - 1]);
                }
            }
            if clips_valid(s) {
                assert forall|i: int| 0 <= i < t.len() implies (#[trigger] t[i]).spec_valid() by {
                    if i < pos {
                        assert(t[i] == s[i]);
                    } else if i > pos {
                        assert(t[i] == s[i - 1]);
                    }
                }
            }
            if old(self).spec_wf() && range_free(s, clip.start.ms as int, clip.spec_end()) {
                assert forall|i: int, j: int|
                    0 <= i < t.len() && 0 <= j < t.len() && i != j implies ((
                #[trigger] t[i]).spec_end() <= (#[trigger] t[j]).start.ms || t[j].spec_end()
                    <= t[i].start.ms) by {
                    let oi = if i < pos { i } else { i - 1 };
                    let oj = if j < pos { j } else { j - 1 };
                    if i == pos {
                        assert(t[j] == s[oj]);
                    } else if j == pos {
                        assert(t[i] == s[oi]);
                    } else {
                        assert(t[i] == s[oi] && t[j] == s[oj]);
                    }
                }
            }
        }
    }

    /// Removes a clip by id, returning it, or `None` and leaving the track
    /// unchanged when no clip has the id.
    pub fn remove_clip(&mut self, clip_id: u64) -> (r: Option<TimelineClip>)
        ensures
            *final(self) == (TimelineTrack { clips: final(self).clips, ..*old(self) }),
            r is None ==> *final(self) == *old(self) && forall|i: int|
                0 <= i < old(self).clips@.len() ==> (#[trigger] old(self).clips@[i]).id != clip_id,
            r is Some ==> exists|k: int|
                0 <= k < old(self).clips@.len() && old(self).clips@[k].id == clip_id && r->Some_0
                    == old(self).clips@[k] && final(self).clips@ == old(self).clips@.remove(k),
    {
        let mut pos: usize = 0;
        while pos < self.clips.len()
            invariant
                0 <= pos <= self.clips@.len(),
                forall|i: int| 0 <= i < pos ==> (#[trigger] self.clips@[i]).id != clip_id,
                self == old(self),
            decreases self.clips@.len() - pos,
        {
            if self.clips[pos].id == clip_id {
                let clip = self.clips.remove(pos);
                return Some(clip);
            }
            pos = pos + 1;
        }
        None
    }

    /// Returns the end position of the last clip, or zero on an empty
    /// track. On a well-formed track this is the track's total duration.
    pub fn duration(&self) -> (r: TimePosition)
        requires
            clips_valid(self.clips@),
        ensures
            self.clips@.len() == 0 ==> r.ms == 0,
            self.clips@.len() > 0 ==> r.ms == self.clips@.last().spec_end(),
    {
        if self.clips.len() == 0 {
            TimePosition::from_ms(0)
        } else {
            let last = self.clips.len() - 1;
            self.clips[last].end()
        }
    }

    /// Checks whether a time range is free: no clip's interval intersects
    /// the half-open range `[start, end)`.
    pub fn is_range_available(&self, start: TimePosition, end: TimePosition) -> (r: bool)
        requires
            clips_valid(self.clips@),
        ensures
            r == range_free(self.clips@, start.ms as int, end.ms as int),
    {
        let mut i: usize = 0;
        while i < self.clips.len()
            invariant
                0 <= i <= self.clips@.len(),
                clips_valid(self.clips@),
                forall|k: int|
                    0 <= k < i ==> (end.ms <= (#[trigger] self.clips@[k]).start.ms
                        || self.clips@[k].spec_end() <= start.ms),
            decreases self.clips@.len() - i,
        {
            let clip_end = self.clips[i].end();
            if start.ms < clip_end.ms && end.ms > self.clips[i].start.ms {
                return false;
            }
            i = i + 1;
        }
        true
    }
}

/// The end position of a track's last clip, or 0 when it has none.
pub open spec fn spec_track_duration(t: TimelineTrack) -> int {
    if t.clips@.len() == 0 {
        0
    } else {
        t.clips@.last().spec_end()
    }
}

/// The maximum of the tracks' durations, 0 for an empty timeline.
pub open spec fn spec_max_duration(s: Seq<TimelineTrack>) -> int
    decreases s.len(),
{
    if s.len() == 0 {
        0
    } else {
        let rest = spec_max_duration(s.drop_last());
        let lastd = spec_track_duration(s.last());
        if lastd > rest {
            lastd
        } else {
            rest
        }
    }
}

/// The sequence with each track's positional index set to its position.
pub open spec fn spec_reindexed(s: Seq<TimelineTrack>) -> Seq<TimelineTrack> {
    Seq::new(s.len(), |i: int| TimelineTrack { index: i as usize, ..s[i] })
}

/// Multi-track timeline. Tracks keep creation order; positional indices are
/// made contiguous again after any removal, and the cached duration is the
/// maximum of the tracks' durations, recomputed on demand.
pub struct TimelineManager {
    tracks: Vec<TimelineTrack>,
    next_track_id: u64,
    duration: TimePosition,
}

impl TimelineManager {
    /// The tracks this manager holds.
    pub closed spec fn spec_tracks(self) -> Seq<TimelineTrack> {
        self.tracks@
    }

    /// The next track id to be handed out.
    pub closed spec fn spec_next_track_id(self) -> u64 {
        self.next_track_id
    }

    /// The cached timeline duration.
    pub closed spec fn spec_duration(self) -> u64 {
        self.duration.ms
    }

    /// Every track's clips end within the representable range.
    pub open spec fn spec_tracks_valid(self) -> bool {
        forall|i: int|
            0 <= i < self.spec_tracks().len() ==> clips_valid(
                (#[trigger] self.spec_tracks()[i]).clips@,
            )
    }

    /// Creates an empty timeline.
    pub fn new() -> (r: Self)
        ensures
            r.spec_tracks().len() == 0,
            r.spec_next_track_id() == 1,
            r.spec_duration() == 0,
    {
        TimelineManager {
            tracks: Vec::new(),
            next_track_id: 1,
            duration: TimePosition::from_ms(0),
        }
    }

    /// Adds a new empty track at the end, with the next id and the next
    /// positional index, and returns its id.
    pub fn add_track(&mut self, name: String, track_type: TrackType) -> (r: u64)
        requires
            old(self).spec_next_track_id() < u64::MAX,
        ensures
            r == old(self).spec_next_track_id(),
            final(self).spec_next_track_id() == old(self).spec_next_track_id() + 1,
            final(self).spec_duration() == old(self).spec_duration(),
            final(self).spec_tracks().len() == old(self).spec_tracks().len() + 1,
            final(self).spec_tracks() == old(self).spec_tracks().push(
                final(self).spec_tracks().last(),
            ),
            ({
                let t = final(self).spec_tracks().last();
                &&& t.id == r
                &&& t.name == name
                &&& t.track_type == track_type
                &&& t.index == old(self).spec_tracks().len()
                &&& t.clips@.len() == 0
            }),
    {
        let id = self.next_track_id;
        self.next_track_id = self.next_track_id + 1;
        let index = self.tracks.len();
        self.tracks.push(TimelineTrack::new(id, name, track_type, index));
        id
    }

    /// Removes a track by id. On success the remaining tracks keep their
    /// order, their positional indices are set back to contiguous 0..n, and
    /// the cached duration is recomputed. Returns whether a track was
    /// removed.
    pub fn remove_track(&mut self, track_id: u64) -> (r: bool)
        requires
            old(self).spec_tracks_valid(),
        ensures
            !r ==> *final(self) == *old(self) && forall|i: int|
                0 <= i < old(self).spec_tracks().len() ==> (#[trigger] old(self).spec_tracks()[i]).id
                    != track_id,
            r ==> exists|k: int|
                0 <= k < old(self).spec_tracks().len() && old(self).spec_tracks()[k].id == track_id
                    && final(self).spec_tracks() == spec_reindexed(
                    old(self).spec_tracks().remove(k),
                ),
            r ==> final(self).spec_duration() == spec_max_duration(final(self).spec_tracks()),
            final(self).spec_next_track_id() == old(self).spec_next_track_id(),
    {
        let mut pos: usize = 0;
        while pos < self.tracks.len()
            invariant
                0 <= pos <= self.tracks@.len(),
                forall|i: int| 0 <= i < pos ==> (#[trigger] self.tracks@[i]).id != track_id,
                self == old(self),
                old(self).spec_tracks_valid(),
            decreases self.tracks@.len() - pos,
        {
            if self.tracks[pos].id == track_id {
                self.tracks.remove(pos);
                let ghost removed = old(self).tracks@.remove(pos as int);
                proof {
                    assert forall|k: int|
                        0 <= k < removed.len() implies clips_valid(
                        (#[trigger] removed[k]).clips@,
                    ) by {
                        if k < pos {
                            assert(removed[k] == old(self).spec_tracks()[k]);
                            assert(clips_valid(old(self).spec_tracks()[k].clips@));
                        } else {
                            assert(removed[k] == old(self).spec_tracks()[k + 1]);
                            assert(clips_valid(old(self).spec_tracks()[k + 1].clips@));
                        }
                    }
                }
                let mut i: usize = 0;
                while i < self.tracks.len()
                    invariant
                        forall|k: int|
                            0 <= k < removed.len() ==> clips_valid((#[trigger] removed[k]).clips@),
                        self.tracks@.len() == removed.len(),
                        0 <= i <= removed.len(),
                        forall|k: int|
                            0 <= k < i ==> #[trigger] self.tracks@[k] == (TimelineTrack {
                                index: k as usize,
                                ..removed[k]
                            }),
                        forall|k: int|
                            i <= k < removed.len() ==> #[trigger] self.tracks@[k] == removed[k],
                        self.next_track_id == old(self).next_track_id,
                        self.duration == old(self).duration,
                    decreases removed.len() - i,
                {
                    let mut t = self.tracks.remove(i);
                    t.index = i;
                    self.tracks.insert(i, t);
                    i = i + 1;
                }
                proof {
                    assert(self.tracks@ =~= spec_reindexed(removed));
                    assert(forall|k: int|
                        0 <= k < self.tracks@.len() ==> (#[trigger] self.tracks@[k]).clips
                            == removed[k].clips);
                    assert(self.spec_tracks_valid());
                }
                self.recalculate_duration();
                return true;
            }
            pos = pos + 1;
        }
        false
    }

    /// Returns all tracks.
    pub fn tracks(&self) -> (r: &Vec<TimelineTrack>)
        ensures
            r@ == self.spec_tracks(),
    {
        &self.tracks
    }

    /// Returns mutable access to the tracks.
    pub fn tracks_mut(&mut self) -> (r: &mut Vec<TimelineTrack>)
        ensures
            r@ == old(self).spec_tracks(),
            final(self).spec_tracks() == final(r)@,
            final(self).spec_next_track_id() == old(self).spec_next_track_id(),
            final(self).spec_duration() == old(self).spec_duration(),
    {
        &mut self.tracks
    }

    /// Returns the cached timeline duration.
    pub fn duration(&self) -> (r: TimePosition)
        ensures
            r.ms == self.spec_duration(),
    {
        self.duration
    }

    /// Returns the cached timeline duration in milliseconds.
    pub fn duration_ms(&self) -> (r: u64)
        ensures
            r == self.spec_duration(),
    {
        self.duration.ms
    }

    /// Recomputes the cached duration as the maximum of the tracks'
    /// durations. Callers must invoke this after structural changes; it is
    /// not maintained incrementally.
    pub fn recalculate_duration(&mut self)
        requires
            old(self).spec_tracks_valid(),
        ensures
            final(self).spec_tracks() == old(self).spec_tracks(),
            final(self).spec_next_track_id() == old(self).spec_next_track_id(),
            final(self).spec_duration() == spec_max_duration(old(self).spec_tracks()),
    {
        let mut best: u64 = 0;
        let mut i: usize = 0;
        while i < self.tracks.len()
            invariant
                old(self).spec_tracks_valid(),
                0 <= i <= self.tracks@.len(),
                self.tracks@ == old(self).tracks@,
                self.next_track_id == old(self).next_track_id,
                best == spec_max_duration(self.tracks@.take(i as int)),
            decreases self.tracks@.len() - i,
        {
            let d = self.tracks[i].duration();
            if d.ms > best {
                best = d.ms;
            }
            proof {
                let pre = self.tracks@.take(i as int);
                let cur = self.tracks@.take(i + 1);
                assert(cur.drop_last() =~= pre);
                assert(cur.last() == self.tracks@[i as int]);
            }
            i = i + 1;
        }
        proof {
            assert(self.tracks@.take(self.tracks@.len() as int) =~= self.tracks@);
        }
        self.duration = TimePosition::from_ms(best);
    }

    /// Returns a track by id, or `None` when no track has the id.
    pub fn get_track(&self, track_id: u64) -> (r: Option<&TimelineTrack>)
        ensures
            r is None ==> forall|i: int|
                0 <= i < self.spec_tracks().len() ==> (#[trigger] self.spec_tracks()[i]).id
                    != track_id,
            r is Some ==> exists|k: int|
                0 <= k < self.spec_tracks().len() && self.spec_tracks()[k].id == track_id && *r->Some_0
                    == self.spec_tracks()[k],
    {
        let mut i: usize = 0;
        while i < self.tracks.len()
            invariant
                0 <= i <= self.tracks@.len(),
                forall|k: int| 0 <= k < i ==> (#[trigger] self.tracks@[k]).id != track_id,
            decreases self.tracks@.len() - i,
        {
            if self.tracks[i].id == track_id {
                return Some(&self.tracks[i]);
            }
            i = i + 1;
        }
        None
    }

    /// Returns a mutable track by id, or `None`, leaving the timeline
    /// unchanged, when no track has the id.
    pub fn get_track_mut(&mut self, track_id: u64) -> (r: Option<&mut TimelineTrack>)
        ensures
            r is None ==> *final(self) == *old(self) && forall|i: int|
                0 <= i < old(self).spec_tracks().len() ==> (#[trigger] old(self).spec_tracks()[i]).id
                    != track_id,
            r is Some ==> exists|k: int|
                0 <= k < old(self).spec_tracks().len() && old(self).spec_tracks()[k].id == track_id
                    && *r->Some_0 == old(self).spec_tracks()[k] && final(self).spec_tracks() == old(
                    self,
                ).spec_tracks().update(k, *final(r->Some_0)) && final(self).spec_next_track_id()
                    == old(self).spec_next_track_id() && final(self).spec_duration() == old(
                    self,
                ).spec_duration(),
    {
        let mut i: usize = 0;
        while i < self.tracks.len()
            invariant
                0 <= i <= self.tracks@.len(),
                forall|k: int| 0 <= k < i ==> (#[trigger] self.tracks@[k]).id != track_id,
                self == old(self),
            decreases self.tracks@.len() - i,
        {
            if self.tracks[i].id == track_id {
                let r = &mut self.tracks[i];
                return Some(r);
            }
            i = i + 1;
        }
        None
    }
}

impl Default for TimelineManager {
    /// The default timeline is empty.
    fn default() -> (r: Self)
        ensures
            r.spec_tracks().len() == 0,
            r.spec_next_track_id() == 1,
            r.spec_duration() == 0,
    {
        TimelineManager::new()
    }
}

} // verus!
