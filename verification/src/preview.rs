//! Real-time preview: playback state, in/out points, frame cache and the
//! playback position machine. Playback speed is stored in thousandths
//! (1000 = normal forward speed).

use crate::core_types::{FrameRate, Resolution, TimePosition};
use vstd::prelude::*;

verus! {

/// Playback state.
#[derive(Debug, Clone, Copy, PartialEq, Eq, Structural, Hash)]
pub enum PlaybackState {
    /// Stopped (at start).
    Stopped,
    /// Playing forward.
    Playing,
    /// Paused at the current position.
    Paused,
    /// Scrubbing (the playhead is being dragged).
    Scrubbing,
    /// Shuttle forward.
    ShuttleForward,
    /// Shuttle backward.
    ShuttleBackward,
    /// Frame-by-frame stepping.
    Stepping,
    /// Rendering (non-real-time preview).
    Rendering,
}

impl Default for PlaybackState {
    /// The default playback state is stopped.
    fn default() -> (r: Self)
        ensures
            r is Stopped,
    {
        PlaybackState::Stopped
    }
}

/// Playback speed in thousandths; negative plays in reverse. Clamped to
/// sixteen times speed either way.
#[derive(Debug, Clone, Copy, PartialEq, Eq, Structural, Hash)]
pub struct PlaybackSpeed(pub i64);

impl PlaybackSpeed {
    /// Normal forward speed.
    pub fn normal() -> (r: Self)
        ensures
            r.0 == 1000,
    {
        PlaybackSpeed(1000)
    }

    /// Half speed.
    pub fn half() -> (r: Self)
        ensures
            r.0 == 500,
    {
        PlaybackSpeed(500)
    }

    /// Double speed.
    pub fn double() -> (r: Self)
        ensures
            r.0 == 2000,
    {
        PlaybackSpeed(2000)
    }

    /// Creates a speed clamped to sixteen times either way.
    pub fn new(speed_permille: i64) -> (r: Self)
        ensures
            speed_permille > 16000 ==> r.0 == 16000,
            speed_permille < -16000 ==> r.0 == -16000,
            -16000 <= speed_permille <= 16000 ==> r.0 == speed_permille,
    {
        if speed_permille > 16000 {
            PlaybackSpeed(16000)
        } else if speed_permille < -16000 {
            PlaybackSpeed(-16000)
        } else {
            PlaybackSpeed(speed_permille)
        }
    }

    /// Returns the speed in thousandths.
    pub fn value_permille(&self) -> (r: i64)
        ensures
            r == self.0,
    {
        self.0
    }

    /// Returns whether playback runs in reverse.
    pub fn is_reverse(&self) -> (r: bool)
        ensures
            r == (self.0 < 0),
    {
        self.0 < 0
    }

    /// Returns the absolute speed in thousandths.
    pub fn abs_permille(&self) -> (r: i64)
        requires
            self.0 > i64::MIN,
        ensures
            self.0 >= 0 ==> r == self.0,
            self.0 < 0 ==> r == -self.0,
    {
        if self.0 >= 0 {
            self.0
        } else {
            -self.0
        }
    }
}

impl Default for PlaybackSpeed {
    /// The default speed is normal forward speed.
    fn default() -> (r: Self)
        ensures
            r.0 == 1000,
    {
        PlaybackSpeed(1000)
    }
}

/// Preview quality setting.
#[derive(Debug, Clone, Copy, PartialEq, Eq, Structural, Hash)]
pub enum PreviewQuality {
    /// Full resolution.
    Full,
    /// Half resolution.
    Half,
    /// Quarter resolution.
    Quarter,
    /// Eighth resolution.
    Eighth,
    /// Adaptive, based on performance.
    Auto,
    /// Fastest, lowest quality.
    Draft,
}

impl PreviewQuality {
    /// The divisor this quality scales each dimension by.
    pub open spec fn spec_divisor(self) -> int {
        match self {
            PreviewQuality::Full => 1,
            PreviewQuality::Half => 2,
            PreviewQuality::Quarter => 4,
            PreviewQuality::Eighth => 8,
            PreviewQuality::Auto => 1,
            PreviewQuality::Draft => 8,
        }
    }

    /// Scales a source resolution down by the quality's divisor, keeping
    /// each dimension at least one pixel.
    pub fn calculate_resolution(&self, source: Resolution) -> (r: Resolution)
        ensures
            r.width == if source.width as int / self.spec_divisor() >= 1 {
                source.width as int / self.spec_divisor()
            } else {
                1int
            },
            r.height == if source.height as int / self.spec_divisor() >= 1 {
                source.height as int / self.spec_divisor()
            } else {
                1int
            },
    {
        let div: u32 = match self {
            PreviewQuality::Full => 1,
            PreviewQuality::Half => 2,
            PreviewQuality::Quarter => 4,
            PreviewQuality::Eighth => 8,
            PreviewQuality::Auto => 1,
            PreviewQuality::Draft => 8,
        };
        let w = source.width / div;
        let h = source.height / div;
        Resolution::new(if w >= 1 { w } else { 1 }, if h >= 1 { h } else { 1 })
    }
}

impl Default for PreviewQuality {
    /// The default preview quality is half resolution.
    fn default() -> (r: Self)
        ensures
            r is Half,
    {
        PreviewQuality::Half
    }
}

/// Loop mode for playback.
#[derive(Debug, Clone, Copy, PartialEq, Eq, Structural, Hash)]
pub enum LoopMode {
    /// No looping.
    Off,
    /// Loop the entire timeline.
    All,
    /// Loop the in/out range.
    InOut,
    /// Ping-pong: forward then reverse.
    PingPong,
}

impl Default for LoopMode {
    /// The default loop mode is off.
    fn default() -> (r: Self)
        ensures
            r is Off,
    {
        LoopMode::Off
    }
}

/// In/out point markers for range playback.
#[derive(Debug, Clone, Copy, PartialEq, Eq, Structural)]
pub struct InOutPoints {
    /// In point.
    pub in_point: Option<TimePosition>,
    /// Out point.
    pub out_point: Option<TimePosition>,
    /// Whether the range is active.
    pub active: bool,
}

impl InOutPoints {
    /// Creates empty in/out points.
    pub fn new() -> (r: Self)
        ensures
            r.in_point is None,
            r.out_point is None,
            !r.active,
    {
        InOutPoints { in_point: None, out_point: None, active: false }
    }

    /// Sets the in point.
    pub fn set_in(&mut self, position: TimePosition)
        ensures
            *final(self) == (InOutPoints { in_point: Some(position), ..*old(self) }),
    {
        self.in_point = Some(position);
    }

    /// Sets the out point.
    pub fn set_out(&mut self, position: TimePosition)
        ensures
            *final(self) == (InOutPoints { out_point: Some(position), ..*old(self) }),
    {
        self.out_point = Some(position);
    }

    /// Clears the in point.
    pub fn clear_in(&mut self)
        ensures
            *final(self) == (InOutPoints { in_point: None, ..*old(self) }),
    {
        self.in_point = None;
    }

    /// Clears the out point.
    pub fn clear_out(&mut self)
        ensures
            *final(self) == (InOutPoints { out_point: None, ..*old(self) }),
    {
        self.out_point = None;
    }

    /// Clears both points and deactivates the range.
    pub fn clear_all(&mut self)
        ensures
            final(self).in_point is None,
            final(self).out_point is None,
            !final(self).active,
    {
        self.in_point = None;
        self.out_point = None;
        self.active = false;
    }

    /// Returns the duration of the range, when both points are set and
    /// the out point is strictly later.
    pub fn duration(&self) -> (r: Option<TimePosition>)
        ensures
            (self.in_point is Some && self.out_point is Some && self.out_point->0.ms
                > self.in_point->0.ms) <==> r is Some,
            r is Some ==> r->0.ms == self.out_point->0.ms - self.in_point->0.ms,
    {
        match (self.in_point, self.out_point) {
            (Some(in_p), Some(out_p)) => {
                if out_p.ms > in_p.ms {
                    Some(TimePosition::from_ms(out_p.ms - in_p.ms))
                } else {
                    None
                }
            },
            _ => None,
        }
    }

    /// Checks whether a position lies within the range; a missing point
    /// leaves that side unbounded.
    pub fn contains(&self, position: TimePosition) -> (r: bool)
        ensures
            r == ((self.in_point is Some ==> position.ms >= self.in_point->0.ms) && (
            self.out_point is Some ==> position.ms <= self.out_point->0.ms)),
    {
        let in_ok = match self.in_point {
            Some(p) => position.ms >= p.ms,
            None => true,
        };
        let out_ok = match self.out_point {
            Some(p) => position.ms <= p.ms,
            None => true,
        };
        in_ok && out_ok
    }
}

impl Default for InOutPoints {
    /// The default in/out points are empty and inactive.
    fn default() -> (r: Self)
        ensures
            r.in_point is None,
            r.out_point is None,
            !r.active,
    {
        InOutPoints::new()
    }
}

/// A cached decoded frame.
#[derive(Debug)]
pub struct CachedFrame {
    /// Frame number.
    pub frame: u64,
    /// Frame data (raw pixels).
    pub data: Vec<u8>,
    /// Frame resolution.
    pub resolution: Resolution,
    /// Last access tick.
    pub last_access: u64,
}

/// Frame cache bounded by a byte budget; the least recently used entry is
/// evicted to make room.
#[derive(Debug)]
pub struct FrameCache {
    max_size: usize,
    current_size: usize,
    entries: Vec<CachedFrame>,
    hits: u64,
    misses: u64,
}

/// The total byte size of the cached frames.
pub open spec fn spec_entries_size(s: Seq<CachedFrame>) -> int
    decreases s.len(),
{
    if s.len() == 0 {
        0
    } else {
        spec_entries_size(s.drop_last()) + s.last().data@.len()
    }
}

/// The byte sizes of cached frames never sum below zero.
proof fn lemma_entries_size_nonneg(s: Seq<CachedFrame>)
    ensures
        spec_entries_size(s) >= 0,
    decreases s.len(),
{
    if s.len() > 0 {
        lemma_entries_size_nonneg(s.drop_last());
    }
}

/// Removing a frame subtracts exactly its byte size from the sum.
proof fn lemma_entries_size_remove(s: Seq<CachedFrame>, k: int)
    requires
        0 <= k < s.len(),
    ensures
        spec_entries_size(s.remove(k)) == spec_entries_size(s) - s[k].data@.len(),
    decreases s.len(),
{
    let t = s.remove(k);
    if k == s.len() - 1 {
        assert(t =~= s.drop_last());
    } else {
        assert(t.drop_last() =~= s.drop_last().remove(k));
        assert(t.last() == s.last());
        lemma_entries_size_remove(s.drop_last(), k);
    }
}

/// Replacing a frame with one of the same byte size keeps the sum.
proof fn lemma_entries_size_update_same(s: Seq<CachedFrame>, k: int, e: CachedFrame)
    requires
        0 <= k < s.len(),
        e.data@.len() == s[k].data@.len(),
    ensures
        spec_entries_size(s.update(k, e)) == spec_entries_size(s),
    decreases s.len(),
{
    let t = s.update(k, e);
    if k == s.len() - 1 {
        assert(t.drop_last() =~= s.drop_last());
        assert(t.last() == e);
    } else {
        assert(t.drop_last() =~= s.drop_last().update(k, e));
        assert(t.last() == s.last());
        lemma_entries_size_update_same(s.drop_last(), k, e);
    }
}

/// No single cached frame is larger than the sum.
proof fn lemma_entries_size_element(s: Seq<CachedFrame>, k: int)
    requires
        0 <= k < s.len(),
    ensures
        s[k].data@.len() <= spec_entries_size(s),
{
    lemma_entries_size_remove(s, k);
    lemma_entries_size_nonneg(s.remove(k));
}

impl FrameCache {
    /// The cached entries.
    pub closed spec fn spec_entries(self) -> Seq<CachedFrame> {
        self.entries@
    }

    /// The byte budget.
    pub closed spec fn spec_max_size(self) -> usize {
        self.max_size
    }

    /// The bookkept current size in bytes.
    pub closed spec fn spec_current_size(self) -> usize {
        self.current_size
    }

    /// The hit count.
    pub closed spec fn spec_hits(self) -> u64 {
        self.hits
    }

    /// The miss count.
    pub closed spec fn spec_misses(self) -> u64 {
        self.misses
    }

    /// A well-formed cache: the bookkept byte count is the exact sum of
    /// the cached frames' sizes and stays within the budget, and no frame
    /// number is cached twice.
    pub open spec fn spec_cache_wf(self) -> bool {
        &&& self.spec_current_size() == spec_entries_size(self.spec_entries())
        &&& self.spec_current_size() <= self.spec_max_size()
        &&& forall|i: int, j: int|
            0 <= i < self.spec_entries().len() && 0 <= j < self.spec_entries().len() && i != j
                ==> (#[trigger] self.spec_entries()[i]).frame != (
            #[trigger] self.spec_entries()[j]).frame
    }

    /// Creates a cache with a budget given in whole megabytes.
    pub fn new(max_size_mb: usize) -> (r: Self)
        requires
            max_size_mb * 1024 * 1024 <= usize::MAX,
        ensures
            r.spec_max_size() == max_size_mb * 1024 * 1024,
            r.spec_current_size() == 0,
            r.spec_entries().len() == 0,
            r.spec_hits() == 0,
            r.spec_misses() == 0,
            r.spec_cache_wf(),
    {
        FrameCache {
            max_size: max_size_mb * 1024 * 1024,
            current_size: 0,
            entries: Vec::new(),
            hits: 0,
            misses: 0,
        }
    }

    /// Looks a frame up: a hit bumps the hit count and refreshes the
    /// entry's access tick; a miss bumps the miss count. Nothing else
    /// changes.
    pub fn get(&mut self, frame: u64) -> (r: Option<&CachedFrame>)
        requires
            old(self).spec_hits() + old(self).spec_misses() < u64::MAX,
        ensures
            r is None ==> final(self).spec_misses() == old(self).spec_misses() + 1 && final(self).spec_hits() == old(self).spec_hits() && final(self).spec_entries() == old(self).spec_entries() && forall|i: int|
                0 <= i < old(self).spec_entries().len() ==> (#[trigger] old(self).spec_entries()[i]).frame != frame,
            r is Some ==> final(self).spec_hits() == old(self).spec_hits() + 1 && final(self).spec_misses() == old(self).spec_misses() && r->0.frame == frame,
            r is Some ==> exists|k: int|
                #![trigger old(self).spec_entries()[k]]
                0 <= k < old(self).spec_entries().len() && old(self).spec_entries()[k].frame
                    == frame && final(self).spec_entries() == old(self).spec_entries().update(
                    k,
                    CachedFrame {
                        last_access: (old(self).spec_hits() + 1 + old(self).spec_misses()) as u64,
                        ..old(self).spec_entries()[k]
                    },
                ),
            final(self).spec_max_size() == old(self).spec_max_size(),
            final(self).spec_current_size() == old(self).spec_current_size(),
            old(self).spec_cache_wf() ==> final(self).spec_cache_wf(),
    {
        let mut i: usize = 0;
        while i < self.entries.len()
            invariant
                0 <= i <= self.entries@.len(),
                forall|k: int| 0 <= k < i ==> (#[trigger] self.entries@[k]).frame != frame,
                self == old(self),
                old(self).spec_hits() + old(self).spec_misses() < u64::MAX,
            decreases self.entries@.len() - i,
        {
            if self.entries[i].frame == frame {
                self.hits = self.hits + 1;
                let tick = self.hits + self.misses;
                let entry = &mut self.entries[i];
                entry.last_access = tick;
                proof {
                    let s = old(self).spec_entries();
                    let t = self.spec_entries();
                    assert(t == s.update(
                        i as int,
                        CachedFrame { last_access: tick, ..s[i as int] },
                    ));
                    if old(self).spec_cache_wf() {
                        lemma_entries_size_update_same(
                            s,
                            i as int,
                            CachedFrame { last_access: tick, ..s[i as int] },
                        );
                        assert(forall|a: int|
                            0 <= a < t.len() ==> (#[trigger] t[a]).frame == s[a].frame);
                    }
                }
                let result = &self.entries[i];
                return Some(result);
            }
            i = i + 1;
        }
        self.misses = self.misses + 1;
        None
    }

    /// Inserts a frame. Entries are evicted, least recently used first,
    /// until the new frame fits; a frame larger than the whole budget is
    /// not cached. An existing entry for the same frame number is
    /// replaced. The byte count stays exact and within the budget, and
    /// frame numbers stay unique.
    #[verifier::spinoff_prover]
    #[verifier::rlimit(100)]
    pub fn put(&mut self, frame: u64, data: Vec<u8>, resolution: Resolution)
        requires
            old(self).spec_hits() + old(self).spec_misses() <= u64::MAX,
            old(self).spec_cache_wf(),
        ensures
            final(self).spec_cache_wf(),
            final(self).spec_current_size() <= final(self).spec_max_size(),
            data@.len() > old(self).spec_max_size() ==> final(self).spec_entries().len() <= old(self).spec_entries().len(),
            final(self).spec_max_size() == old(self).spec_max_size(),
            final(self).spec_hits() == old(self).spec_hits(),
            final(self).spec_misses() == old(self).spec_misses(),
            data@.len() <= old(self).spec_max_size() ==> final(self).spec_entries().len() >= 1
                && final(self).spec_entries().last() == (CachedFrame {
                frame,
                data,
                resolution,
                last_access: (old(self).spec_hits() + old(self).spec_misses()) as u64,
            }),
    {
        let frame_size = data.len();
        while self.current_size as u128 + frame_size as u128 > self.max_size as u128
            && self.entries.len() > 0
            invariant
                self.spec_cache_wf(),
                self.max_size == old(self).spec_max_size(),
                self.hits == old(self).spec_hits(),
                self.misses == old(self).spec_misses(),
                self.entries@.len() <= old(self).spec_entries().len(),
                frame_size == data@.len(),
            decreases self.entries@.len(),
        {
            self.evict_oldest();
        }
        if frame_size > self.max_size {
            return ;
        }
        proof {
            if self.entries@.len() == 0 {
                assert(spec_entries_size(self.spec_entries()) == 0);
            }
            assert(self.current_size + frame_size <= self.max_size);
        }
        let ghost mid = *self;
        let mut i: usize = 0;
        while i < self.entries.len()
            invariant_except_break
                *self == mid,
            invariant
                0 <= i <= self.entries@.len(),
                forall|k: int| 0 <= k < i ==> (#[trigger] self.entries@[k]).frame != frame,
                mid.spec_cache_wf(),
                mid.spec_current_size() + frame_size <= mid.spec_max_size(),
            ensures
                self.spec_cache_wf(),
                forall|k: int|
                    0 <= k < self.entries@.len() ==> (#[trigger] self.entries@[k]).frame != frame,
                self.spec_current_size() + frame_size <= self.spec_max_size(),
                self.max_size == mid.spec_max_size(),
                self.hits == mid.spec_hits(),
                self.misses == mid.spec_misses(),
            decreases self.entries@.len() - i,
        {
            if self.entries[i].frame == frame {
                proof {
                    lemma_entries_size_remove(self.spec_entries(), i as int);
                    lemma_entries_size_element(self.spec_entries(), i as int);
                }
                let entry = self.entries.remove(i);
                self.current_size = self.current_size - entry.data.len();
                proof {
                    let s = mid.spec_entries();
                    let t = self.spec_entries();
                    assert(forall|x: int| 0 <= x < i ==> #[trigger] t[x] == s[x]);
                    assert(forall|x: int| i <= x < t.len() ==> #[trigger] t[x] == s[x + 1]);
                    assert forall|x: int|
                        0 <= x < t.len() implies (#[trigger] t[x]).frame != frame by {
                        if x >= i {
                            assert(t[x] == s[x + 1]);
                            assert(s[x + 1].frame != s[i as int].frame);
                        }
                    }
                    assert forall|a: int, b: int|
                        0 <= a < t.len() && 0 <= b < t.len() && a != b implies (
                    #[trigger] t[a]).frame != (#[trigger] t[b]).frame by {
                        let oa = if a < i { a } else { a + 1 };
                        let ob = if b < i { b } else { b + 1 };
                        assert(t[a] == s[oa] && t[b] == s[ob]);
                    }
                }
                break ;
            }
            i = i + 1;
        }
        let ghost d = data@;
        let tick = self.hits.saturating_add(self.misses);
        let ghost before_push = self.spec_entries();
        self.entries.push(CachedFrame { frame, data, resolution, last_access: tick });
        self.current_size = self.current_size + frame_size;
        proof {
            let t = self.spec_entries();
            assert(t.drop_last() =~= before_push);
            assert(spec_entries_size(t) == spec_entries_size(before_push) + d.len());
            assert forall|a: int, b: int|
                0 <= a < t.len() && 0 <= b < t.len() && a != b implies (#[trigger] t[a]).frame
                != (#[trigger] t[b]).frame by {
                if a < t.len() - 1 && b < t.len() - 1 {
                    assert(t[a] == before_push[a] && t[b] == before_push[b]);
                } else if b == t.len() - 1 {
                    assert(t[a] == before_push[a]);
                } else {
                    assert(t[b] == before_push[b]);
                }
            }
            assert(self.spec_entries().last().frame == frame);
            assert(self.spec_entries().last().data@ == d);
        }
    }

    /// Evicts the least recently used entry: one whose access tick is no
    /// later than any other's. Does nothing on an empty cache.
    fn evict_oldest(&mut self)
        ensures
            old(self).spec_entries().len() == 0 ==> *final(self) == *old(self),
            old(self).spec_entries().len() > 0 ==> exists|k: int|
                #![trigger old(self).spec_entries()[k]]
                0 <= k < old(self).spec_entries().len() && final(self).spec_entries() == old(self).spec_entries().remove(k) && (forall|j: int|
                    0 <= j < old(self).spec_entries().len() ==> (#[trigger] old(self).spec_entries()[j]).last_access >= old(self).spec_entries()[k].last_access),
            old(self).spec_entries().len() > 0 ==> final(self).spec_entries().len() == old(self).spec_entries().len() - 1,
            final(self).spec_max_size() == old(self).spec_max_size(),
            final(self).spec_hits() == old(self).spec_hits(),
            final(self).spec_misses() == old(self).spec_misses(),
            old(self).spec_cache_wf() ==> final(self).spec_cache_wf(),
    {
        if self.entries.len() == 0 {
            return ;
        }
        let mut oldest: usize = 0;
        let mut i: usize = 1;
        while i < self.entries.len()
            invariant
                0 <= oldest < i <= self.entries@.len(),
                self == old(self),
                forall|k: int|
                    0 <= k < i ==> (#[trigger] self.entries@[k]).last_access
                        >= self.entries@[oldest as int].last_access,
            decreases self.entries@.len() - i,
        {
            if self.entries[i].last_access < self.entries[oldest].last_access {
                oldest = i;
            }
            i = i + 1;
        }
        proof {
            if old(self).spec_cache_wf() {
                lemma_entries_size_remove(self.spec_entries(), oldest as int);
                lemma_entries_size_element(self.spec_entries(), oldest as int);
            }
        }
        let entry = self.entries.remove(oldest);
        self.current_size = self.current_size.saturating_sub(entry.data.len());
        proof {
            if old(self).spec_cache_wf() {
                let s = old(self).spec_entries();
                let t = self.spec_entries();
                assert forall|a: int, b: int|
                    0 <= a < t.len() && 0 <= b < t.len() && a != b implies (
                #[trigger] t[a]).frame != (#[trigger] t[b]).frame by {
                    let oa = if a < oldest { a } else { a + 1 };
                    let ob = if b < oldest { b } else { b + 1 };
                    assert(t[a] == s[oa] && t[b] == s[ob]);
                }
            }
        }
    }

    /// Clears the cache.
    pub fn clear(&mut self)
        ensures
            final(self).spec_entries().len() == 0,
            final(self).spec_current_size() == 0,
            final(self).spec_max_size() == old(self).spec_max_size(),
            final(self).spec_cache_wf(),
    {
        self.entries.clear();
        self.current_size = 0;
    }

    /// Returns the bookkept cache size in bytes.
    pub fn size(&self) -> (r: usize)
        ensures
            r == self.spec_current_size(),
    {
        self.current_size
    }
}

/// The main preview manager: playback state machine over a timeline
/// duration, with seeking, stepping, an in/out range and a frame cache.
pub struct PreviewManager {
    state: PlaybackState,
    speed: PlaybackSpeed,
    position: TimePosition,
    duration: TimePosition,
    frame_rate: FrameRate,
    quality: PreviewQuality,
    loop_mode: LoopMode,
    in_out: InOutPoints,
    cache: FrameCache,
    source_resolution: Resolution,
    preview_resolution: Resolution,
}

impl PreviewManager {
    /// The current playback state.
    pub closed spec fn spec_state(self) -> PlaybackState {
        self.state
    }

    /// The playback speed.
    pub closed spec fn spec_speed(self) -> PlaybackSpeed {
        self.speed
    }

    /// The current position.
    pub closed spec fn spec_position(self) -> TimePosition {
        self.position
    }

    /// The timeline duration.
    pub closed spec fn spec_duration(self) -> TimePosition {
        self.duration
    }

    /// The preview quality.
    pub closed spec fn spec_quality(self) -> PreviewQuality {
        self.quality
    }

    /// The loop mode.
    pub closed spec fn spec_loop_mode(self) -> LoopMode {
        self.loop_mode
    }

    /// The in/out points.
    pub closed spec fn spec_in_out(self) -> InOutPoints {
        self.in_out
    }

    /// Creates a stopped preview at the start of the timeline, at half
    /// quality with a 512 MB frame cache.
    pub fn new(duration: TimePosition, frame_rate: FrameRate, resolution: Resolution) -> (r: Self)
        ensures
            r.spec_state() is Stopped,
            r.spec_speed().0 == 1000,
            r.spec_position().ms == 0,
            r.spec_duration() == duration,
            r.spec_quality() is Half,
            r.spec_loop_mode() is Off,
            r.spec_in_out().in_point is None,
            r.spec_in_out().out_point is None,
    {
        let quality = PreviewQuality::Half;
        let preview_res = quality.calculate_resolution(resolution);
        PreviewManager {
            state: PlaybackState::Stopped,
            speed: PlaybackSpeed::default(),
            position: TimePosition::from_ms(0),
            duration,
            frame_rate,
            quality,
            loop_mode: LoopMode::Off,
            in_out: InOutPoints::new(),
            cache: FrameCache::new(512),
            source_resolution: resolution,
            preview_resolution: preview_res,
        }
    }

    /// Returns the current playback state.
    pub fn state(&self) -> (r: PlaybackState)
        ensures
            r == self.spec_state(),
    {
        self.state
    }

    /// Returns whether playback is running in some direction.
    pub fn is_playing(&self) -> (r: bool)
        ensures
            r == (self.spec_state() is Playing || self.spec_state() is ShuttleForward
                || self.spec_state() is ShuttleBackward),
    {
        matches!(
            self.state,
            PlaybackState::Playing | PlaybackState::ShuttleForward | PlaybackState::ShuttleBackward
        )
    }

    /// Returns the current position.
    pub fn position(&self) -> (r: TimePosition)
        ensures
            r == self.spec_position(),
    {
        self.position
    }

    /// Returns the timeline duration.
    pub fn duration(&self) -> (r: TimePosition)
        ensures
            r == self.spec_duration(),
    {
        self.duration
    }

    /// Changes the timeline duration, clamping the position to it.
    pub fn set_duration(&mut self, duration: TimePosition)
        ensures
            final(self).spec_duration() == duration,
            old(self).spec_position().ms > duration.ms ==> final(self).spec_position() == duration,
            old(self).spec_position().ms <= duration.ms ==> final(self).spec_position() == old(self).spec_position(),
            final(self).spec_state() == old(self).spec_state(),
    {
        self.duration = duration;
        if self.position.ms > duration.ms {
            self.position = duration;
        }
    }

    /// Starts playback at normal speed.
    pub fn play(&mut self)
        ensures
            final(self).spec_state() is Playing,
            final(self).spec_speed().0 == 1000,
            final(self).spec_position() == old(self).spec_position(),
            final(self).spec_duration() == old(self).spec_duration(),
    {
        self.state = PlaybackState::Playing;
        self.speed = PlaybackSpeed::normal();
    }

    /// Pauses playback at the current position.
    pub fn pause(&mut self)
        ensures
            final(self).spec_state() is Paused,
            final(self).spec_position() == old(self).spec_position(),
            final(self).spec_duration() == old(self).spec_duration(),
    {
        self.state = PlaybackState::Paused;
    }

    /// Stops playback and returns to the in point, or to zero without
    /// one.
    pub fn stop(&mut self)
        ensures
            final(self).spec_state() is Stopped,
            old(self).spec_in_out().in_point is Some ==> final(self).spec_position() == old(self).spec_in_out().in_point->0,
            old(self).spec_in_out().in_point is None ==> final(self).spec_position().ms == 0,
            final(self).spec_duration() == old(self).spec_duration(),
    {
        self.state = PlaybackState::Stopped;
        self.position = match self.in_out.in_point {
            Some(p) => p,
            None => TimePosition::from_ms(0),
        };
    }

    /// Toggles between playing and pausing: playing pauses, anything else
    /// plays.
    pub fn toggle_playback(&mut self)
        ensures
            old(self).spec_state() is Playing ==> final(self).spec_state() is Paused,
            !(old(self).spec_state() is Playing) ==> final(self).spec_state() is Playing,
            final(self).spec_position() == old(self).spec_position(),
    {
        if matches!(self.state, PlaybackState::Playing) {
            self.pause();
        } else {
            self.play();
        }
    }

    /// Seeks to a position, clamped to the timeline duration.
    pub fn seek(&mut self, position: TimePosition)
        ensures
            final(self).spec_position().ms == if position.ms <= old(self).spec_duration().ms {
                position.ms
            } else {
                old(self).spec_duration().ms
            },
            final(self).spec_state() == old(self).spec_state(),
            final(self).spec_duration() == old(self).spec_duration(),
    {
        self.position = TimePosition::from_ms(
            if position.ms <= self.duration.ms {
                position.ms
            } else {
                self.duration.ms
            },
        );
    }

    /// Starts scrubbing.
    pub fn start_scrub(&mut self)
        ensures
            final(self).spec_state() is Scrubbing,
            final(self).spec_position() == old(self).spec_position(),
    {
        self.state = PlaybackState::Scrubbing;
    }

    /// Ends scrubbing, pausing; does nothing when not scrubbing.
    pub fn end_scrub(&mut self)
        ensures
            old(self).spec_state() is Scrubbing ==> final(self).spec_state() is Paused,
            !(old(self).spec_state() is Scrubbing) ==> *final(self) == *old(self),
            final(self).spec_position() == old(self).spec_position(),
    {
        if matches!(self.state, PlaybackState::Scrubbing) {
            self.state = PlaybackState::Paused;
        }
    }

    /// Seeks while scrubbing; does nothing when not scrubbing.
    pub fn scrub_to(&mut self, position: TimePosition)
        ensures
            !(old(self).spec_state() is Scrubbing) ==> *final(self) == *old(self),
            old(self).spec_state() is Scrubbing ==> final(self).spec_position().ms == if position.ms
                <= old(self).spec_duration().ms {
                position.ms
            } else {
                old(self).spec_duration().ms
            } && final(self).spec_state() is Scrubbing,
    {
        if matches!(self.state, PlaybackState::Scrubbing) {
            self.seek(position);
        }
    }

    /// Changes the playback speed: reverse speeds shuttle backward, more
    /// than normal forward speed shuttles forward, and anything else
    /// keeps the state.
    pub fn set_speed(&mut self, speed: PlaybackSpeed)
        requires
            speed.0 > i64::MIN,
        ensures
            final(self).spec_speed() == speed,
            speed.0 < 0 ==> final(self).spec_state() is ShuttleBackward,
            speed.0 > 1000 ==> final(self).spec_state() is ShuttleForward,
            0 <= speed.0 <= 1000 ==> final(self).spec_state() == old(self).spec_state(),
            final(self).spec_position() == old(self).spec_position(),
    {
        self.speed = speed;
        if speed.is_reverse() {
            self.state = PlaybackState::ShuttleBackward;
        } else if speed.abs_permille() > 1000 {
            self.state = PlaybackState::ShuttleForward;
        }
    }

    /// Returns the playback speed.
    pub fn speed(&self) -> (r: PlaybackSpeed)
        ensures
            r == self.spec_speed(),
    {
        self.speed
    }

    /// Changes the preview quality, recomputes the preview resolution and
    /// clears the frame cache.
    pub fn set_quality(&mut self, quality: PreviewQuality)
        ensures
            final(self).spec_quality() == quality,
            final(self).spec_position() == old(self).spec_position(),
            final(self).spec_state() == old(self).spec_state(),
    {
        self.quality = quality;
        self.preview_resolution = quality.calculate_resolution(self.source_resolution);
        self.cache.clear();
    }

    /// Returns the preview quality.
    pub fn quality(&self) -> (r: PreviewQuality)
        ensures
            r == self.spec_quality(),
    {
        self.quality
    }

    /// Returns the preview resolution.
    pub fn preview_resolution(&self) -> Resolution {
        self.preview_resolution
    }

    /// Sets the loop mode.
    pub fn set_loop_mode(&mut self, mode: LoopMode)
        ensures
            final(self).spec_loop_mode() == mode,
            final(self).spec_position() == old(self).spec_position(),
            final(self).spec_state() == old(self).spec_state(),
    {
        self.loop_mode = mode;
    }

    /// Returns the loop mode.
    pub fn loop_mode(&self) -> (r: LoopMode)
        ensures
            r == self.spec_loop_mode(),
    {
        self.loop_mode
    }

    /// Returns the in/out points.
    pub fn in_out(&self) -> (r: &InOutPoints)
        ensures
            *r == self.spec_in_out(),
    {
        &self.in_out
    }

    /// Sets the in point at the current position and activates the range.
    pub fn mark_in(&mut self)
        ensures
            final(self).spec_in_out().in_point == Some(old(self).spec_position()),
            final(self).spec_in_out().out_point == old(self).spec_in_out().out_point,
            final(self).spec_in_out().active,
            final(self).spec_position() == old(self).spec_position(),
    {
        self.in_out.set_in(self.position);
        self.in_out.active = true;
    }

    /// Sets the out point at the current position and activates the
    /// range.
    pub fn mark_out(&mut self)
        ensures
            final(self).spec_in_out().out_point == Some(old(self).spec_position()),
            final(self).spec_in_out().in_point == old(self).spec_in_out().in_point,
            final(self).spec_in_out().active,
            final(self).spec_position() == old(self).spec_position(),
    {
        self.in_out.set_out(self.position);
        self.in_out.active = true;
    }

    /// Returns the frame cache.
    pub fn cache(&self) -> (r: &FrameCache) {
        &self.cache
    }

    /// Returns mutable access to the frame cache.
    pub fn cache_mut(&mut self) -> (r: &mut FrameCache)
        ensures
            final(self).spec_position() == old(self).spec_position(),
            final(self).spec_state() == old(self).spec_state(),
            final(self).spec_duration() == old(self).spec_duration(),
    {
        &mut self.cache
    }

    /// The playback bounds: the out point or the timeline end above, the
    /// in point or zero below.
    pub open spec fn spec_bounds(self) -> (int, int) {
        (
            (if self.spec_in_out().in_point is Some {
                self.spec_in_out().in_point->0.ms as int
            } else {
                0
            }),
            (if self.spec_in_out().out_point is Some {
                self.spec_in_out().out_point->0.ms as int
            } else {
                self.spec_duration().ms as int
            }),
        )
    }

    /// Advances the playback position by a signed millisecond delta,
    /// already scaled by the playback speed. Does nothing when not
    /// playing. The new position is clamped to the playback bounds; with
    /// a loop mode other than off, running past either bound wraps to the
    /// other (or reflects, for ping-pong, which also reverses the speed).
    pub fn advance(&mut self, delta_ms: i64)
        requires
            old(self).spec_speed().0 > i64::MIN,
        ensures
            !(old(self).spec_state() is Playing || old(self).spec_state() is ShuttleForward || old(self).spec_state() is ShuttleBackward) ==> *final(self) == *old(self),
            (old(self).spec_state() is Playing || old(self).spec_state() is ShuttleForward || old(self).spec_state() is ShuttleBackward) ==> ({
                let (lo, hi) = old(self).spec_bounds();
                let new_pos = old(self).spec_position().ms + delta_ms;
                &&& (old(self).spec_loop_mode() is Off ==> final(self).spec_position().ms == (
                if new_pos >= hi {
                    hi
                } else if new_pos <= lo {
                    lo
                } else {
                    new_pos
                }))
                &&& ((old(self).spec_loop_mode() is All || old(self).spec_loop_mode() is InOut) ==> final(self).spec_position().ms == (if new_pos
                    >= hi {
                    lo
                } else if new_pos <= lo {
                    hi
                } else {
                    new_pos
                }))
                &&& (old(self).spec_loop_mode() is PingPong ==> final(self).spec_position().ms == (
                if new_pos >= hi {
                    hi
                } else if new_pos <= lo {
                    lo
                } else {
                    new_pos
                }) && ((new_pos >= hi || new_pos <= lo) ==> final(self).spec_speed().0 == -old(self).spec_speed().0))
                &&& final(self).spec_state() == old(self).spec_state()
                &&& final(self).spec_duration() == old(self).spec_duration()
            }),
    {
        if !self.is_playing() {
            return ;
        }
        let lo: i128 = match self.in_out.in_point {
            Some(p) => p.ms as i128,
            None => 0,
        };
        let hi: i128 = match self.in_out.out_point {
            Some(p) => p.ms as i128,
            None => self.duration.ms as i128,
        };
        let new_pos: i128 = self.position.ms as i128 + delta_ms as i128;
        match self.loop_mode {
            LoopMode::Off => {
                let clamped: i128 = if new_pos >= hi {
                    hi
                } else if new_pos <= lo {
                    lo
                } else {
                    new_pos
                };
                self.position = TimePosition::from_ms(clamped as u64);
            },
            LoopMode::All | LoopMode::InOut => {
                let wrapped: i128 = if new_pos >= hi {
                    lo
                } else if new_pos <= lo {
                    hi
                } else {
                    new_pos
                };
                self.position = TimePosition::from_ms(wrapped as u64);
            },
            LoopMode::PingPong => {
                let clamped: i128 = if new_pos >= hi {
                    hi
                } else if new_pos <= lo {
                    lo
                } else {
                    new_pos
                };
                self.position = TimePosition::from_ms(clamped as u64);
                if new_pos >= hi || new_pos <= lo {
                    self.speed = PlaybackSpeed(-self.speed.0);
                }
            },
        }
    }
}

impl Default for PreviewManager {
    /// The default preview covers one minute of Full HD at 30 fps.
    fn default() -> (r: Self)
        ensures
            r.spec_state() is Stopped,
            r.spec_position().ms == 0,
            r.spec_duration().ms == 60000,
    {
        PreviewManager::new(
            TimePosition::from_ms(60000),
            FrameRate::fps_30(),
            Resolution::fhd(),
        )
    }
}

} // verus!
