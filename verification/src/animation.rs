//! Keyframe animation engine.
//!
//! A track owns keyframes kept strictly sorted by time; inserting at an
//! existing timestamp replaces in place. Evaluation locates the bracketing
//! keyframe pair and reports either a settled value or the pair to blend,
//! with the interpolation factor as an exact millisecond ratio; turning
//! that ratio into an eased, interpolated value is the caller's business,
//! so the payload type is generic and the engine never looks inside it.

use crate::core_types::TimePosition;
use vstd::prelude::*;

verus! {

/// Unique identifier for an animation track.
#[derive(Debug, Clone, Copy, PartialEq, Eq, Structural, Hash)]
pub struct AnimationTrackId(pub u64);

impl AnimationTrackId {
    /// Creates a new animation track id.
    pub fn new(id: u64) -> (r: Self)
        ensures
            r.0 == id,
    {
        AnimationTrackId(id)
    }

    /// Returns the inner id value.
    pub fn inner(&self) -> (r: u64)
        ensures
            r == self.0,
    {
        self.0
    }
}

/// Interpolation kind applied between a keyframe and its successor.
#[derive(Debug, Clone, Copy, PartialEq, Eq, Structural, Hash)]
pub enum InterpolationType {
    /// No interpolation: freeze at the earlier keyframe's value.
    Hold,
    /// Linear interpolation.
    Linear,
    /// Bezier curve interpolation, using per-keyframe handles.
    Bezier,
    /// Ease in (slow start).
    EaseIn,
    /// Ease out (slow end).
    EaseOut,
    /// Ease in and out.
    EaseInOut,
    /// Cubic ease in.
    CubicIn,
    /// Cubic ease out.
    CubicOut,
    /// Cubic ease in-out.
    CubicInOut,
    /// Exponential ease in.
    ExponentialIn,
    /// Exponential ease out.
    ExponentialOut,
    /// Bounce effect.
    Bounce,
    /// Elastic effect.
    Elastic,
}

impl Default for InterpolationType {
    /// The default interpolation is linear.
    fn default() -> (r: Self)
        ensures
            r is Linear,
    {
        InterpolationType::Linear
    }
}

/// Loop mode for animation tracks.
#[derive(Debug, Clone, Copy, PartialEq, Eq, Structural, Hash)]
pub enum AnimationLoopMode {
    /// No looping (clamp to the last value).
    Off,
    /// Loop from end to start.
    Loop,
    /// Ping-pong (reverse at the ends).
    PingPong,
    /// Continue with a cycle offset.
    Cycle,
}

impl Default for AnimationLoopMode {
    /// The default loop mode is off.
    fn default() -> (r: Self)
        ensures
            r is Off,
    {
        AnimationLoopMode::Off
    }
}

/// A timestamped value anchor in a track.
#[derive(Debug, Clone)]
pub struct Keyframe<V> {
    /// Time position of the keyframe.
    pub time: TimePosition,
    /// Value at this keyframe.
    pub value: V,
    /// Interpolation toward the next keyframe.
    pub interpolation: InterpolationType,
    /// Whether the keyframe is selected, for display.
    pub selected: bool,
}

impl<V> Keyframe<V> {
    /// Creates a new unselected keyframe with linear interpolation.
    pub fn new(time: TimePosition, value: V) -> (r: Self)
        ensures
            r.time == time,
            r.value == value,
            r.interpolation is Linear,
            !r.selected,
    {
        Keyframe { time, value, interpolation: InterpolationType::Linear, selected: false }
    }
}

/// What a track evaluates to at a query time.
#[derive(Debug)]
pub enum TrackSample<'a, V> {
    /// The value is settled: a boundary value, a hold, or the default.
    Settled(&'a V),
    /// The value lies between two keyframes: blend `from` toward `to` at
    /// the factor `elapsed_ms / span_ms`, shaped by the interpolation kind
    /// of the earlier keyframe.
    Blend {
        /// The earlier keyframe's value.
        from: &'a V,
        /// The later keyframe's value.
        to: &'a V,
        /// Milliseconds from the earlier keyframe to the query time.
        elapsed_ms: u64,
        /// Milliseconds between the two keyframes.
        span_ms: u64,
        /// The earlier keyframe's interpolation kind.
        interpolation: InterpolationType,
    },
}

/// The sample blends `from_v` toward `to_v` at `e / sp`, shaped by `it`.
pub open spec fn spec_blend_sample<V>(
    r: TrackSample<V>,
    from_v: V,
    to_v: V,
    e: u64,
    sp: u64,
    it: InterpolationType,
) -> bool {
    &&& r matches TrackSample::Blend { from, to, elapsed_ms, span_ms, interpolation }
    &&& *from == from_v
    &&& *to == to_v
    &&& elapsed_ms == e
    &&& span_ms == sp
    &&& interpolation == it
}

/// Keyframe times are strictly increasing: no duplicate timestamps.
pub open spec fn keyframes_strictly_sorted<V>(s: Seq<Keyframe<V>>) -> bool {
    forall|i: int, j: int|
        0 <= i < j < s.len() ==> (#[trigger] s[i]).time.ms < (#[trigger] s[j]).time.ms
}

/// What a correct sample for a track at a query time looks like: the
/// value is settled at the default for a disabled or empty track, at the
/// first keyframe for a muted track or a time at or before the first, at
/// the last keyframe for a time after the last, and frozen at the earlier
/// keyframe of the bracketing pair under `Hold`; otherwise the sample
/// blends the bracketing pair at the exact elapsed/span millisecond
/// ratio under the earlier keyframe's interpolation kind.
pub open spec fn spec_track_sample_ok<V>(
    track: AnimationTrack<V>,
    time: TimePosition,
    r: TrackSample<V>,
) -> bool {
    let s = track.keyframes@;
    &&& (!track.enabled || s.len() == 0) ==> (r is Settled && *r->Settled_0
        == track.default_value)
    &&& (track.enabled && s.len() > 0 && track.muted) ==> (r is Settled && *r->Settled_0 == s[
        0
    ].value)
    &&& (track.enabled && s.len() > 0 && !track.muted && time.ms <= s[0].time.ms) ==> (
    r is Settled && *r->Settled_0 == s[0].value)
    &&& (track.enabled && s.len() > 0 && !track.muted && time.ms > s.last().time.ms) ==> (
    r is Settled && *r->Settled_0 == s.last().value)
    &&& (track.enabled && s.len() > 0 && !track.muted && s[0].time.ms < time.ms && time.ms
        <= s.last().time.ms) ==> exists|i: int|
        #![trigger s[i]]
        {
            &&& 0 < i < s.len()
            &&& (#[trigger] s[i]).time.ms >= time.ms
            &&& s[i - 1].time.ms < time.ms
            &&& (s[i - 1].interpolation is Hold ==> r is Settled && *r->Settled_0 == s[
                i - 1].value)
            &&& (!(s[i - 1].interpolation is Hold) ==> spec_blend_sample(
                r,
                s[i - 1].value,
                s[i].value,
                (time.ms - s[i - 1].time.ms) as u64,
                (s[i].time.ms - s[i - 1].time.ms) as u64,
                s[i - 1].interpolation,
            ))
        }
}

/// An animation track for one property of a target.
#[derive(Debug, Clone)]
pub struct AnimationTrack<V> {
    /// Track identifier.
    pub id: AnimationTrackId,
    /// Property name being animated.
    pub property: String,
    /// Keyframes, kept strictly sorted by time.
    pub keyframes: Vec<Keyframe<V>>,
    /// Whether the track contributes a value at all.
    pub enabled: bool,
    /// Whether the track is frozen at its first keyframe's value.
    pub muted: bool,
    /// Value when there are no keyframes or the track is disabled.
    pub default_value: V,
    /// Loop mode.
    pub loop_mode: AnimationLoopMode,
}

impl<V> AnimationTrack<V> {
    /// The track's keyframes are strictly sorted by time.
    pub open spec fn spec_sorted(self) -> bool {
        keyframes_strictly_sorted(self.keyframes@)
    }

    /// Creates a new enabled, unmuted track with no keyframes.
    pub fn new(id: AnimationTrackId, property: String, default_value: V) -> (r: Self)
        ensures
            r.id == id,
            r.property == property,
            r.keyframes@.len() == 0,
            r.enabled,
            !r.muted,
            r.default_value == default_value,
            r.loop_mode is Off,
            r.spec_sorted(),
    {
        AnimationTrack {
            id,
            property,
            keyframes: Vec::new(),
            enabled: true,
            muted: false,
            default_value,
            loop_mode: AnimationLoopMode::Off,
        }
    }

    /// Returns the number of keyframes.
    pub fn keyframe_count(&self) -> (r: usize)
        ensures
            r == self.keyframes@.len(),
    {
        self.keyframes.len()
    }

    /// Adds a keyframe at the given time: on a sorted track, a keyframe
    /// already at that timestamp is replaced in place, and otherwise the
    /// new keyframe is inserted at its sorted position; either way the
    /// keyframes stay strictly sorted with no duplicate timestamps, and
    /// the new keyframe's index is returned.
    pub fn add_keyframe(&mut self, time: TimePosition, value: V) -> (r: usize)
        requires
            old(self).spec_sorted(),
        ensures
            final(self).spec_sorted(),
            final(self).id == old(self).id,
            final(self).property == old(self).property,
            final(self).enabled == old(self).enabled,
            final(self).muted == old(self).muted,
            final(self).default_value == old(self).default_value,
            final(self).loop_mode == old(self).loop_mode,
            r < final(self).keyframes@.len(),
            final(self).keyframes@[r as int] == (Keyframe {
                time,
                value,
                interpolation: InterpolationType::Linear,
                selected: false,
            }),
            (exists|k: int|
                0 <= k < old(self).keyframes@.len() && (#[trigger] old(self).keyframes@[k]).time.ms == time.ms) ==> (r < old(self).keyframes@.len() && old(self).keyframes@[r as int].time.ms
                == time.ms && final(self).keyframes@.len() == old(self).keyframes@.len() && final(self).keyframes@ == old(self).keyframes@.update(
                r as int,
                final(self).keyframes@[r as int],
            )),
            (forall|k: int|
                0 <= k < old(self).keyframes@.len() ==> (#[trigger] old(self).keyframes@[k]).time.ms != time.ms) ==> (r <= old(self).keyframes@.len() && final(self).keyframes@.len() == old(self).keyframes@.len() + 1 && final(self).keyframes@ == old(self).keyframes@.insert(r as int, final(self).keyframes@[r as int])),
    {
        let kf = Keyframe::new(time, value);
        let mut pos: usize = 0;
        while pos < self.keyframes.len() && self.keyframes[pos].time.ms <= time.ms
            invariant
                0 <= pos <= self.keyframes@.len(),
                forall|i: int|
                    0 <= i < pos ==> (#[trigger] self.keyframes@[i]).time.ms <= time.ms,
                self == old(self),
                old(self).spec_sorted(),
            decreases self.keyframes@.len() - pos,
        {
            pos = pos + 1;
        }
        // pos is the first index whose time is strictly greater
        if pos > 0 && self.keyframes[pos - 1].time.ms == time.ms {
            proof {
                assert forall|k: int|
                    0 <= k < self.keyframes@.len() && (#[trigger] self.keyframes@[k]).time.ms
                        == time.ms implies k == pos - 1 by {
                    if k < pos - 1 {
                        assert(self.keyframes@[k].time.ms < self.keyframes@[pos - 1].time.ms);
                    } else if k > pos - 1 {
                        assert(self.keyframes@[pos - 1].time.ms < self.keyframes@[k].time.ms);
                    }
                }
            }
            self.keyframes.set(pos - 1, kf);
            proof {
                let s = old(self).keyframes@;
                let t = self.keyframes@;
                assert(t == s.update(pos - 1, kf));
                assert forall|i: int, j: int| 0 <= i < j < t.len() implies (
                #[trigger] t[i]).time.ms < (#[trigger] t[j]).time.ms by {
                    if i != pos - 1 && j != pos - 1 {
                        assert(t[i] == s[i] && t[j] == s[j]);
                    } else if i == pos - 1 {
                        assert(t[j] == s[j] && s[i].time.ms == time.ms);
                    } else {
                        assert(t[i] == s[i] && s[j].time.ms == time.ms);
                    }
                }
            }
            pos - 1
        } else {
            proof {
                let s = self.keyframes@;
                assert forall|k: int|
                    0 <= k < s.len() implies (#[trigger] s[k]).time.ms != time.ms by {
                    if k < pos {
                        if k < pos - 1 {
                            assert(s[k].time.ms < s[pos - 1].time.ms);
                            assert(s[pos - 1].time.ms <= time.ms);
                        }
                    } else {
                        assert(s[k].time.ms > time.ms || pos == s.len());
                        if pos < s.len() && k > pos {
                            assert(s[pos as int].time.ms < s[k].time.ms);
                        }
                        if pos < s.len() && k == pos {
                            assert(s[pos as int].time.ms > time.ms);
                        }
                    }
                }
            }
            self.keyframes.insert(pos, kf);
            proof {
                let s = old(self).keyframes@;
                let t = self.keyframes@;
                assert(t == s.insert(pos as int, kf));
                assert(forall|x: int| 0 <= x < pos ==> #[trigger] t[x] == s[x]);
                assert(forall|x: int| pos < x < t.len() ==> #[trigger] t[x] == s[x - 1]);
                assert(t[pos as int] == kf);
                assert forall|i: int, j: int| 0 <= i < j < t.len() implies (
                #[trigger] t[i]).time.ms < (#[trigger] t[j]).time.ms by {
                    if i < pos && j == pos {
                        assert(t[i] == s[i]);
                        assert(s[i].time.ms <= time.ms);
                        assert(s[i].time.ms != time.ms);
                    } else if i == pos && j > pos {
                        assert(t[j] == s[j - 1]);
                        assert(s[j - 1].time.ms > time.ms || j - 1 < pos);
                    } else if i < pos && j > pos {
                        assert(t[i] == s[i] && t[j] == s[j - 1]);
                        assert(s[i].time.ms <= time.ms);
                        assert(s[j - 1].time.ms > time.ms);
                    } else if j < pos {
                        assert(t[i] == s[i] && t[j] == s[j]);
                    } else if i > pos {
                        assert(t[i] == s[i - 1] && t[j] == s[j - 1]);
                    }
                }
            }
            pos
        }
    }

    /// Removes the keyframe at an index, returning it, or `None`, changing
    /// nothing, when the index is out of bounds.
    pub fn remove_keyframe(&mut self, index: usize) -> (r: Option<Keyframe<V>>)
        ensures
            index >= old(self).keyframes@.len() ==> r is None && *final(self) == *old(self),
            index < old(self).keyframes@.len() ==> r == Some(old(self).keyframes@[index as int])
                && final(self).keyframes@ == old(self).keyframes@.remove(index as int) && *final(self)
                == (AnimationTrack { keyframes: final(self).keyframes, ..*old(self) }),
            old(self).spec_sorted() ==> final(self).spec_sorted(),
    {
        if index < self.keyframes.len() {
            let kf = self.keyframes.remove(index);
            proof {
                if old(self).spec_sorted() {
                    let s = old(self).keyframes@;
                    let t = self.keyframes@;
                    assert forall|i: int, j: int| 0 <= i < j < t.len() implies (
                    #[trigger] t[i]).time.ms < (#[trigger] t[j]).time.ms by {
                        let oi = if i < index { i } else { i + 1 };
                        let oj = if j < index { j } else { j + 1 };
                        assert(t[i] == s[oi] && t[j] == s[oj]);
                    }
                }
            }
            Some(kf)
        } else {
            None
        }
    }

    /// Returns the keyframe at an index, if any.
    pub fn get_keyframe(&self, index: usize) -> (r: Option<&Keyframe<V>>)
        ensures
            index < self.keyframes@.len() ==> r == Some(&self.keyframes@[index as int]),
            index >= self.keyframes@.len() ==> r is None,
    {
        if index < self.keyframes.len() {
            Some(&self.keyframes[index])
        } else {
            None
        }
    }

    /// Evaluates the track at a time position.
    ///
    /// A disabled or empty track settles to the default value; a muted
    /// track freezes at its first keyframe's value; a time at or before
    /// the first keyframe settles to the first value; a time after the
    /// last keyframe settles to the last value. Otherwise the bracketing
    /// pair is found, a `Hold` on the earlier keyframe freezes at its
    /// value, and any other kind yields the pair with the exact
    /// elapsed/span millisecond ratio to blend by.
    #[verifier::spinoff_prover]
    #[verifier::rlimit(100)]
    pub fn evaluate(&self, time: TimePosition) -> (r: TrackSample<V>)
        requires
            self.spec_sorted(),
        ensures
            spec_track_sample_ok(*self, time, r),
    {
        if !self.enabled || self.keyframes.len() == 0 {
            return TrackSample::Settled(&self.default_value);
        }
        if self.muted {
            return TrackSample::Settled(&self.keyframes[0].value);
        }
        // find the first keyframe at or after the query time
        let mut next_idx: usize = 0;
        while next_idx < self.keyframes.len() && self.keyframes[next_idx].time.ms < time.ms
            invariant
                0 <= next_idx <= self.keyframes@.len(),
                forall|k: int|
                    0 <= k < next_idx ==> (#[trigger] self.keyframes@[k]).time.ms < time.ms,
                self.spec_sorted(),
                self.keyframes@.len() > 0,
            decreases self.keyframes@.len() - next_idx,
        {
            next_idx = next_idx + 1;
        }
        if next_idx == self.keyframes.len() {
            // after all keyframes
            let last = self.keyframes.len() - 1;
            proof {
                assert(self.keyframes@[0].time.ms < time.ms);
                assert(self.keyframes@.last().time.ms < time.ms);
            }
            return TrackSample::Settled(&self.keyframes[last].value);
        }
        if next_idx == 0 {
            // at or before the first keyframe
            proof {
                assert(self.keyframes@[0].time.ms >= time.ms);
            }
            return TrackSample::Settled(&self.keyframes[0].value);
        }
        proof {
            let s = self.keyframes@;
            assert(0 < next_idx < s.len());
            assert(s[next_idx - 1].time.ms < time.ms);
            assert(s[next_idx as int].time.ms >= time.ms);
            assert(s[0].time.ms < time.ms);
            if next_idx < s.len() - 1 {
                assert(s[next_idx as int].time.ms < s.last().time.ms);
            }
            assert(time.ms <= s.last().time.ms);
        }
        self.evaluate_bracketed(time, next_idx)
    }

    /// Evaluates between the bracketing pair `next_idx - 1` and
    /// `next_idx`: a `Hold` on the earlier keyframe freezes at its value,
    /// and any other kind yields the pair with the exact elapsed/span
    /// ratio to blend by.
    fn evaluate_bracketed(&self, time: TimePosition, next_idx: usize) -> (r: TrackSample<V>)
        requires
            0 < next_idx < self.keyframes@.len(),
            self.keyframes@[next_idx - 1].time.ms < time.ms,
            self.keyframes@[next_idx as int].time.ms >= time.ms,
        ensures
            self.keyframes@[next_idx - 1].interpolation is Hold ==> (r is Settled && *r->Settled_0
                == self.keyframes@[next_idx - 1].value),
            !(self.keyframes@[next_idx - 1].interpolation is Hold) ==> spec_blend_sample(
                r,
                self.keyframes@[next_idx - 1].value,
                self.keyframes@[next_idx as int].value,
                (time.ms - self.keyframes@[next_idx - 1].time.ms) as u64,
                (self.keyframes@[next_idx as int].time.ms - self.keyframes@[next_idx
                    - 1].time.ms) as u64,
                self.keyframes@[next_idx - 1].interpolation,
            ),
    {
        let prev = &self.keyframes[next_idx - 1];
        let next = &self.keyframes[next_idx];
        if matches!(prev.interpolation, InterpolationType::Hold) {
            return TrackSample::Settled(&prev.value);
        }
        TrackSample::Blend {
            from: &prev.value,
            to: &next.value,
            elapsed_ms: time.ms - prev.time.ms,
            span_ms: next.time.ms - prev.time.ms,
            interpolation: prev.interpolation,
        }
    }

    /// Returns the time of the last keyframe, or zero with none.
    pub fn duration(&self) -> (r: TimePosition)
        ensures
            self.keyframes@.len() == 0 ==> r.ms == 0,
            self.keyframes@.len() > 0 ==> r == self.keyframes@.last().time,
    {
        if self.keyframes.len() == 0 {
            TimePosition::from_ms(0)
        } else {
            let last = self.keyframes.len() - 1;
            self.keyframes[last].time
        }
    }

    /// Removes all keyframes.
    pub fn clear(&mut self)
        ensures
            final(self).keyframes@.len() == 0,
            *final(self) == (AnimationTrack { keyframes: final(self).keyframes, ..*old(self) }),
    {
        self.keyframes.clear();
    }

    /// Selects exactly the keyframes whose time lies in the closed range.
    pub fn select_range(&mut self, start: TimePosition, end: TimePosition)
        ensures
            final(self).keyframes@.len() == old(self).keyframes@.len(),
            forall|i: int|
                0 <= i < old(self).keyframes@.len() ==> #[trigger] final(self).keyframes@[i] == (
                Keyframe {
                    selected: start.ms <= old(self).keyframes@[i].time.ms <= end.ms,
                    ..old(self).keyframes@[i]
                }),
            *final(self) == (AnimationTrack { keyframes: final(self).keyframes, ..*old(self) }),
    {
        let mut i: usize = 0;
        while i < self.keyframes.len()
            invariant
                0 <= i <= self.keyframes@.len(),
                self.keyframes@.len() == old(self).keyframes@.len(),
                forall|k: int|
                    0 <= k < i ==> #[trigger] self.keyframes@[k] == (Keyframe {
                        selected: start.ms <= old(self).keyframes@[k].time.ms <= end.ms,
                        ..old(self).keyframes@[k]
                    }),
                forall|k: int|
                    i <= k < self.keyframes@.len() ==> #[trigger] self.keyframes@[k] == old(self).keyframes@[k],
                self.id == old(self).id,
                self.property == old(self).property,
                self.enabled == old(self).enabled,
                self.muted == old(self).muted,
                self.default_value == old(self).default_value,
                self.loop_mode == old(self).loop_mode,
            decreases self.keyframes@.len() - i,
        {
            let sel = self.keyframes[i].time.ms >= start.ms && self.keyframes[i].time.ms <= end.ms;
            let kf = &mut self.keyframes[i];
            kf.selected = sel;
            i = i + 1;
        }
    }

    /// Clears all keyframe selections.
    pub fn clear_selection(&mut self)
        ensures
            final(self).keyframes@.len() == old(self).keyframes@.len(),
            forall|i: int|
                0 <= i < old(self).keyframes@.len() ==> #[trigger] final(self).keyframes@[i] == (
                Keyframe { selected: false, ..old(self).keyframes@[i] }),
            *final(self) == (AnimationTrack { keyframes: final(self).keyframes, ..*old(self) }),
    {
        let mut i: usize = 0;
        while i < self.keyframes.len()
            invariant
                0 <= i <= self.keyframes@.len(),
                self.keyframes@.len() == old(self).keyframes@.len(),
                forall|k: int|
                    0 <= k < i ==> #[trigger] self.keyframes@[k] == (Keyframe {
                        selected: false,
                        ..old(self).keyframes@[k]
                    }),
                forall|k: int|
                    i <= k < self.keyframes@.len() ==> #[trigger] self.keyframes@[k] == old(self).keyframes@[k],
                self.id == old(self).id,
                self.property == old(self).property,
                self.enabled == old(self).enabled,
                self.muted == old(self).muted,
                self.default_value == old(self).default_value,
                self.loop_mode == old(self).loop_mode,
            decreases self.keyframes@.len() - i,
        {
            let kf = &mut self.keyframes[i];
            kf.selected = false;
            i = i + 1;
        }
    }

    /// Returns the indices of the selected keyframes, in increasing order.
    pub fn selected_indices(&self) -> (r: Vec<usize>)
        ensures
            forall|a: int|
                0 <= a < r@.len() ==> (#[trigger] r@[a]) < self.keyframes@.len()
                    && self.keyframes@[r@[a] as int].selected,
            forall|a: int, b: int| 0 <= a < b < r@.len() ==> r@[a] < r@[b],
    {
        let mut out: Vec<usize> = Vec::new();
        let mut i: usize = 0;
        while i < self.keyframes.len()
            invariant
                0 <= i <= self.keyframes@.len(),
                forall|a: int|
                    0 <= a < out@.len() ==> (#[trigger] out@[a]) < i
                        && self.keyframes@[out@[a] as int].selected,
                forall|a: int, b: int| 0 <= a < b < out@.len() ==> out@[a] < out@[b],
            decreases self.keyframes@.len() - i,
        {
            if self.keyframes[i].selected {
                out.push(i);
            }
            i = i + 1;
        }
        out
    }
}

/// A named group of tracks animating one target entity.
#[derive(Debug)]
pub struct AnimationLayer<V> {
    /// Layer name.
    pub name: String,
    /// Animation tracks.
    pub tracks: Vec<AnimationTrack<V>>,
    /// Next track id.
    pub next_id: u64,
    /// Target object id.
    pub target_id: u64,
    /// Whether the layer is enabled.
    pub enabled: bool,
}

impl<V> AnimationLayer<V> {
    /// Every track in the layer is strictly sorted.
    pub open spec fn spec_wf(self) -> bool {
        forall|i: int|
            0 <= i < self.tracks@.len() ==> (#[trigger] self.tracks@[i]).spec_sorted()
    }

    /// Creates a new enabled layer with no tracks.
    pub fn new(name: String, target_id: u64) -> (r: Self)
        ensures
            r.name == name,
            r.tracks@.len() == 0,
            r.next_id == 1,
            r.target_id == target_id,
            r.enabled,
            r.spec_wf(),
    {
        AnimationLayer { name, tracks: Vec::new(), next_id: 1, target_id, enabled: true }
    }

    /// Creates a new track for a property with the given default value and
    /// returns its fresh id.
    pub fn create_track(&mut self, property: String, default_value: V) -> (r: AnimationTrackId)
        requires
            old(self).next_id < u64::MAX,
        ensures
            r.0 == old(self).next_id,
            final(self).next_id == old(self).next_id + 1,
            final(self).tracks@ == old(self).tracks@.push(final(self).tracks@.last()),
            final(self).tracks@.last().id == r,
            final(self).tracks@.last().property == property,
            final(self).tracks@.last().default_value == default_value,
            final(self).tracks@.last().keyframes@.len() == 0,
            final(self).name == old(self).name,
            final(self).target_id == old(self).target_id,
            final(self).enabled == old(self).enabled,
            old(self).spec_wf() ==> final(self).spec_wf(),
    {
        let id = AnimationTrackId::new(self.next_id);
        self.next_id = self.next_id + 1;
        let track = AnimationTrack::new(id, property, default_value);
        self.tracks.push(track);
        proof {
            if old(self).spec_wf() {
                assert forall|i: int|
                    0 <= i < self.tracks@.len() implies (#[trigger] self.tracks@[i]).spec_sorted()
                by {
                    if i < self.tracks@.len() - 1 {
                        assert(self.tracks@[i] == old(self).tracks@[i]);
                    }
                }
            }
        }
        id
    }

    /// Returns the track with the given id, or `None` when there is none.
    pub fn get_track(&self, id: AnimationTrackId) -> (r: Option<&AnimationTrack<V>>)
        ensures
            r is None ==> forall|i: int|
                0 <= i < self.tracks@.len() ==> (#[trigger] self.tracks@[i]).id != id,
            r is Some ==> exists|k: int|
                0 <= k < self.tracks@.len() && self.tracks@[k].id == id && *r->Some_0
                    == self.tracks@[k],
    {
        let mut i: usize = 0;
        while i < self.tracks.len()
            invariant
                0 <= i <= self.tracks@.len(),
                forall|k: int| 0 <= k < i ==> (#[trigger] self.tracks@[k]).id != id,
            decreases self.tracks@.len() - i,
        {
            if self.tracks[i].id.0 == id.0 {
                return Some(&self.tracks[i]);
            }
            i = i + 1;
        }
        None
    }

    /// Returns mutable access to the track with the given id, or `None`,
    /// changing nothing, when there is none.
    pub fn get_track_mut(&mut self, id: AnimationTrackId) -> (r: Option<&mut AnimationTrack<V>>)
        ensures
            r is None ==> *final(self) == *old(self) && forall|i: int|
                0 <= i < old(self).tracks@.len() ==> (#[trigger] old(self).tracks@[i]).id != id,
            r is Some ==> exists|k: int|
                0 <= k < old(self).tracks@.len() && old(self).tracks@[k].id == id && *r->Some_0
                    == old(self).tracks@[k] && final(self).tracks@ == old(self).tracks@.update(
                    k,
                    *final(r->Some_0),
                ) && final(self).name == old(self).name && final(self).next_id == old(self).next_id
                    && final(self).target_id == old(self).target_id && final(self).enabled == old(self).enabled,
    {
        let mut i: usize = 0;
        while i < self.tracks.len()
            invariant
                0 <= i <= self.tracks@.len(),
                forall|k: int| 0 <= k < i ==> (#[trigger] self.tracks@[k]).id != id,
                self == old(self),
            decreases self.tracks@.len() - i,
        {
            if self.tracks[i].id.0 == id.0 {
                return Some(&mut self.tracks[i]);
            }
            i = i + 1;
        }
        None
    }

    /// Removes the track with the given id; returns whether one was
    /// removed.
    pub fn remove_track(&mut self, id: AnimationTrackId) -> (r: bool)
        ensures
            !r ==> *final(self) == *old(self) && forall|i: int|
                0 <= i < old(self).tracks@.len() ==> (#[trigger] old(self).tracks@[i]).id != id,
            r ==> exists|k: int|
                0 <= k < old(self).tracks@.len() && old(self).tracks@[k].id == id && final(self).tracks@ == old(self).tracks@.remove(k),
            final(self).next_id == old(self).next_id,
    {
        let mut i: usize = 0;
        while i < self.tracks.len()
            invariant
                0 <= i <= self.tracks@.len(),
                forall|k: int| 0 <= k < i ==> (#[trigger] self.tracks@[k]).id != id,
                self == old(self),
            decreases self.tracks@.len() - i,
        {
            if self.tracks[i].id.0 == id.0 {
                self.tracks.remove(i);
                return true;
            }
            i = i + 1;
        }
        false
    }

    /// Evaluates every track at a time position, pairing each track index
    /// with its sample. A disabled layer yields nothing.
    pub fn evaluate_all(&self, time: TimePosition) -> (r: Vec<(usize, TrackSample<V>)>)
        requires
            self.spec_wf(),
        ensures
            !self.enabled ==> r@.len() == 0,
            self.enabled ==> r@.len() == self.tracks@.len(),
            forall|a: int| 0 <= a < r@.len() ==> (#[trigger] r@[a]).0 == a,
            forall|a: int|
                0 <= a < r@.len() ==> spec_track_sample_ok(
                    self.tracks@[a],
                    time,
                    (#[trigger] r@[a]).1,
                ),
    {
        let mut out: Vec<(usize, TrackSample<V>)> = Vec::new();
        if !self.enabled {
            return out;
        }
        let mut i: usize = 0;
        while i < self.tracks.len()
            invariant
                0 <= i <= self.tracks@.len(),
                out@.len() == i,
                forall|a: int| 0 <= a < out@.len() ==> (#[trigger] out@[a]).0 == a,
                forall|a: int|
                    0 <= a < out@.len() ==> spec_track_sample_ok(
                        self.tracks@[a],
                        time,
                        (#[trigger] out@[a]).1,
                    ),
                self.spec_wf(),
            decreases self.tracks@.len() - i,
        {
            let sample = self.tracks[i].evaluate(time);
            let ghost gs = sample;
            let ghost out0 = out@;
            out.push((i, sample));
            proof {
                assert(forall|a: int| 0 <= a < out0.len() ==> #[trigger] out@[a] == out0[a]);
                assert(out@[out@.len() - 1].1 == gs);
                assert(spec_track_sample_ok(self.tracks@[i as int], time, gs));
            }
            i = i + 1;
        }
        out
    }

    /// Returns the maximum duration across all tracks.
    pub fn duration(&self) -> (r: TimePosition)
        ensures
            forall|i: int|
                0 <= i < self.tracks@.len() ==> ((#[trigger] self.tracks@[i]).keyframes@.len() > 0
                    ==> self.tracks@[i].keyframes@.last().time.ms <= r.ms),
    {
        let mut best: u64 = 0;
        let mut i: usize = 0;
        while i < self.tracks.len()
            invariant
                0 <= i <= self.tracks@.len(),
                forall|k: int|
                    0 <= k < i ==> ((#[trigger] self.tracks@[k]).keyframes@.len() > 0
                        ==> self.tracks@[k].keyframes@.last().time.ms <= best),
            decreases self.tracks@.len() - i,
        {
            let d = self.tracks[i].duration();
            if d.ms > best {
                best = d.ms;
            }
            i = i + 1;
        }
        TimePosition::from_ms(best)
    }
}

/// Global animation settings.
#[derive(Debug, Clone, Copy, PartialEq, Eq, Structural)]
pub struct AnimationSettings {
    /// Default interpolation type for new keyframes.
    pub default_interpolation: InterpolationType,
    /// Auto-keyframe mode.
    pub auto_keyframe: bool,
    /// Keyframe snapping enabled.
    pub snap_keyframes: bool,
    /// Snap threshold in frames.
    pub snap_threshold: u32,
}

impl Default for AnimationSettings {
    /// Default: linear interpolation, no auto-keyframe, snapping on with a
    /// two-frame threshold.
    fn default() -> (r: Self)
        ensures
            r == (AnimationSettings {
                default_interpolation: InterpolationType::Linear,
                auto_keyframe: false,
                snap_keyframes: true,
                snap_threshold: 2u32,
            }),
    {
        AnimationSettings {
            default_interpolation: InterpolationType::Linear,
            auto_keyframe: false,
            snap_keyframes: true,
            snap_threshold: 2,
        }
    }
}

/// Animation layers for a whole project, looked up by target id.
pub struct AnimationManager<V> {
    layers: Vec<AnimationLayer<V>>,
    settings: AnimationSettings,
}

impl<V> AnimationManager<V> {
    /// The layers held.
    pub closed spec fn spec_layers(self) -> Seq<AnimationLayer<V>> {
        self.layers@
    }

    /// The global settings.
    pub closed spec fn spec_settings(self) -> AnimationSettings {
        self.settings
    }

    /// Creates an empty manager with default settings.
    pub fn new() -> (r: Self)
        ensures
            r.spec_layers().len() == 0,
            r.spec_settings() == (AnimationSettings {
                default_interpolation: InterpolationType::Linear,
                auto_keyframe: false,
                snap_keyframes: true,
                snap_threshold: 2u32,
            }),
    {
        AnimationManager { layers: Vec::new(), settings: AnimationSettings::default() }
    }

    /// Appends a new layer for a target.
    pub fn create_layer(&mut self, name: String, target_id: u64)
        ensures
            final(self).spec_layers() == old(self).spec_layers().push(
                final(self).spec_layers().last(),
            ),
            final(self).spec_layers().last().name == name,
            final(self).spec_layers().last().target_id == target_id,
            final(self).spec_layers().last().tracks@.len() == 0,
            final(self).spec_settings() == old(self).spec_settings(),
    {
        self.layers.push(AnimationLayer::new(name, target_id));
    }

    /// Returns the first layer for a target id, or `None` when there is
    /// none.
    pub fn get_layer(&self, target_id: u64) -> (r: Option<&AnimationLayer<V>>)
        ensures
            r is None ==> forall|i: int|
                0 <= i < self.spec_layers().len() ==> (#[trigger] self.spec_layers()[i]).target_id
                    != target_id,
            r is Some ==> exists|k: int|
                #![trigger self.spec_layers()[k]]
                0 <= k < self.spec_layers().len() && self.spec_layers()[k].target_id == target_id
                    && *r->Some_0 == self.spec_layers()[k],
    {
        let mut i: usize = 0;
        while i < self.layers.len()
            invariant
                0 <= i <= self.layers@.len(),
                forall|k: int| 0 <= k < i ==> (#[trigger] self.spec_layers()[k]).target_id != target_id,
            decreases self.layers@.len() - i,
        {
            if self.layers[i].target_id == target_id {
                let res = &self.layers[i];
                proof {
                    assert(self.spec_layers()[i as int].target_id == target_id);
                    assert(*res == self.spec_layers()[i as int]);
                }
                return Some(res);
            }
            i = i + 1;
        }
        None
    }

    /// Returns mutable access to the first layer for a target id, or
    /// `None`, changing nothing, when there is none.
    pub fn get_layer_mut(&mut self, target_id: u64) -> (r: Option<&mut AnimationLayer<V>>)
        ensures
            r is None ==> *final(self) == *old(self) && forall|i: int|
                0 <= i < old(self).spec_layers().len() ==> (#[trigger] old(self).spec_layers()[i]).target_id != target_id,
            r is Some ==> exists|k: int|
                #![trigger old(self).spec_layers()[k]]
                0 <= k < old(self).spec_layers().len() && old(self).spec_layers()[k].target_id
                    == target_id && *r->Some_0 == old(self).spec_layers()[k] && final(self).spec_layers() == old(self).spec_layers().update(k, *final(r->Some_0)) && final(self).spec_settings() == old(self).spec_settings(),
    {
        let mut i: usize = 0;
        while i < self.layers.len()
            invariant
                0 <= i <= self.layers@.len(),
                forall|k: int| 0 <= k < i ==> (#[trigger] self.spec_layers()[k]).target_id != target_id,
                self == old(self),
            decreases self.layers@.len() - i,
        {
            if self.layers[i].target_id == target_id {
                proof {
                    assert(0 <= i < old(self).spec_layers().len());
                    assert(old(self).spec_layers()[i as int].target_id == target_id);
                }
                return Some(&mut self.layers[i]);
            }
            i = i + 1;
        }
        None
    }

    /// Returns all layers.
    pub fn layers(&self) -> (r: &Vec<AnimationLayer<V>>)
        ensures
            r@ == self.spec_layers(),
    {
        &self.layers
    }

    /// Removes the first layer for a target id; returns whether one was
    /// removed.
    pub fn remove_layer(&mut self, target_id: u64) -> (r: bool)
        ensures
            !r ==> *final(self) == *old(self) && forall|i: int|
                0 <= i < old(self).spec_layers().len() ==> (#[trigger] old(self).spec_layers()[i]).target_id != target_id,
            r ==> exists|k: int|
                #![trigger old(self).spec_layers()[k]]
                0 <= k < old(self).spec_layers().len() && old(self).spec_layers()[k].target_id
                    == target_id && final(self).spec_layers() == old(self).spec_layers().remove(k),
            final(self).spec_settings() == old(self).spec_settings(),
    {
        let mut i: usize = 0;
        while i < self.layers.len()
            invariant
                0 <= i <= self.layers@.len(),
                forall|k: int| 0 <= k < i ==> (#[trigger] self.spec_layers()[k]).target_id != target_id,
                self == old(self),
            decreases self.layers@.len() - i,
        {
            if self.layers[i].target_id == target_id {
                proof {
                    assert(old(self).spec_layers()[i as int].target_id == target_id);
                }
                self.layers.remove(i);
                return true;
            }
            i = i + 1;
        }
        false
    }

    /// Returns the animation settings.
    pub fn settings(&self) -> (r: &AnimationSettings)
        ensures
            *r == self.spec_settings(),
    {
        &self.settings
    }

    /// Returns mutable access to the animation settings.
    pub fn settings_mut(&mut self) -> (r: &mut AnimationSettings)
        ensures
            *r == old(self).spec_settings(),
            final(self).spec_settings() == *final(r),
            final(self).spec_layers() == old(self).spec_layers(),
    {
        &mut self.settings
    }
}

impl<V> Default for AnimationManager<V> {
    /// The default manager has no layers and default settings.
    fn default() -> (r: Self)
        ensures
            r.spec_layers().len() == 0,
    {
        AnimationManager::new()
    }
}

} // verus!
