//! Video transitions between adjacent clips. Progress runs in thousandths
//! from 0 to 1000 and is derived deterministically from the current time,
//! the placement's start time and the transition's duration.

use crate::core_types::TimePosition;
use crate::errors::{VideoEditorError, VideoEditorResult};
use crate::text::str_eq;
use vstd::prelude::*;

verus! {

/// Unique identifier for a transition.
#[derive(Debug, Clone, Copy, PartialEq, Eq, Structural, Hash)]
pub struct TransitionId(pub u64);

impl TransitionId {
    /// Creates a new transition id.
    pub fn new(id: u64) -> (r: Self)
        ensures
            r.0 == id,
    {
        TransitionId(id)
    }

    /// Returns the inner id value.
    pub fn inner(&self) -> (r: u64)
        ensures
            r == self.0,
    {
        self.0
    }
}

/// Wipe direction.
#[derive(Debug, Clone, Copy, PartialEq, Eq, Structural, Hash)]
pub enum WipeDirection {
    /// Left to right.
    LeftToRight,
    /// Right to left.
    RightToLeft,
    /// Top to bottom.
    TopToBottom,
    /// Bottom to top.
    BottomToTop,
    /// Diagonal top-left to bottom-right.
    DiagonalTLBR,
    /// Diagonal top-right to bottom-left.
    DiagonalTRBL,
    /// Center outward.
    CenterOut,
    /// Outside inward.
    OutsideIn,
}

impl Default for WipeDirection {
    /// The default wipe runs left to right.
    fn default() -> (r: Self)
        ensures
            r is LeftToRight,
    {
        WipeDirection::LeftToRight
    }
}

/// Push direction.
#[derive(Debug, Clone, Copy, PartialEq, Eq, Structural, Hash)]
pub enum PushDirection {
    /// Push from the left.
    Left,
    /// Push from the right.
    Right,
    /// Push from the top.
    Top,
    /// Push from the bottom.
    Bottom,
}

/// Slide direction.
#[derive(Debug, Clone, Copy, PartialEq, Eq, Structural, Hash)]
pub enum SlideDirection {
    /// Slide from the left.
    Left,
    /// Slide from the right.
    Right,
    /// Slide from the top.
    Top,
    /// Slide from the bottom.
    Bottom,
}

/// Zoom kind.
#[derive(Debug, Clone, Copy, PartialEq, Eq, Structural, Hash)]
pub enum ZoomType {
    /// Zoom in to the center.
    ZoomIn,
    /// Zoom out from the center.
    ZoomOut,
    /// Cross zoom (both clips).
    CrossZoom,
}

/// Iris shape.
#[derive(Debug, Clone, Copy, PartialEq, Eq, Structural, Hash)]
pub enum IrisShape {
    /// Circular iris.
    Circle,
    /// Rectangular iris.
    Rectangle,
    /// Diamond iris.
    Diamond,
    /// Star iris.
    Star,
    /// Heart iris.
    Heart,
}

/// Clock wipe direction.
#[derive(Debug, Clone, Copy, PartialEq, Eq, Structural, Hash)]
pub enum ClockDirection {
    /// Clockwise from twelve.
    Clockwise,
    /// Counter-clockwise from twelve.
    CounterClockwise,
}

/// Page turn direction.
#[derive(Debug, Clone, Copy, PartialEq, Eq, Structural, Hash)]
pub enum PageTurnDirection {
    /// Turn from the right.
    Right,
    /// Turn from the left.
    Left,
    /// Turn from the top.
    Top,
    /// Turn from the bottom.
    Bottom,
}

/// Cube rotation axis.
#[derive(Debug, Clone, Copy, PartialEq, Eq, Structural, Hash)]
pub enum CubeAxis {
    /// Rotate around the horizontal axis.
    Horizontal,
    /// Rotate around the vertical axis.
    Vertical,
}

/// Transition kind, some with a direction or shape parameter.
#[derive(Debug, Clone, Copy, PartialEq, Eq, Structural, Hash)]
pub enum TransitionType {
    /// Cross-fade between clips.
    CrossFade,
    /// Cross-dissolve with luminance blending.
    CrossDissolve,
    /// Fade to black, then to the next clip.
    FadeToBlack,
    /// Fade to white, then to the next clip.
    FadeToWhite,
    /// Wipe in a direction.
    Wipe(WipeDirection),
    /// Push transition.
    Push(PushDirection),
    /// Slide transition.
    Slide(SlideDirection),
    /// Zoom transition.
    Zoom(ZoomType),
    /// Iris transition.
    Iris(IrisShape),
    /// Clock wipe.
    ClockWipe(ClockDirection),
    /// Page turn effect.
    PageTurn(PageTurnDirection),
    /// Cube rotation.
    CubeRotate(CubeAxis),
    /// Custom shader transition, by shader id.
    CustomShader(u64),
}

impl Default for TransitionType {
    /// The default transition is a cross-fade.
    fn default() -> (r: Self)
        ensures
            r is CrossFade,
    {
        TransitionType::CrossFade
    }
}

/// Easing function for transition timing.
#[derive(Debug, Clone, Copy, PartialEq, Eq, Structural, Hash)]
pub enum TransitionEasing {
    /// Linear interpolation.
    Linear,
    /// Ease in (slow start).
    EaseIn,
    /// Ease out (slow end).
    EaseOut,
    /// Ease in and out.
    EaseInOut,
    /// Quadratic ease in.
    QuadIn,
    /// Quadratic ease out.
    QuadOut,
    /// Quadratic ease in-out.
    QuadInOut,
    /// Cubic ease in.
    CubicIn,
    /// Cubic ease out.
    CubicOut,
    /// Cubic ease in-out.
    CubicInOut,
    /// Exponential ease in.
    ExpoIn,
    /// Exponential ease out.
    ExpoOut,
    /// Elastic bounce.
    Elastic,
    /// Bounce effect.
    Bounce,
}

impl Default for TransitionEasing {
    /// The default easing is linear.
    fn default() -> (r: Self)
        ensures
            r is Linear,
    {
        TransitionEasing::Linear
    }
}

/// Parameters for transition rendering, fixed-point in thousandths.
#[derive(Debug, Clone, Copy)]
pub struct TransitionParameters {
    /// Edge softness in thousandths (0 = hard, 1000 = soft).
    pub edge_softness_permille: u32,
    /// Blur amount in thousandths.
    pub blur_permille: u32,
    /// Feather size in thousandths of a pixel.
    pub feather_permille: u32,
    /// Border width in thousandths of a pixel.
    pub border_width_permille: u32,
    /// Border color as RGBA in thousandths.
    pub border_color: [u16; 4],
    /// Center point for iris/zoom, normalized in thousandths.
    pub center: [u32; 2],
    /// Rotation angle in thousandths of a degree.
    pub rotation_millideg: i64,
    /// Custom shader id, if applicable.
    pub custom_shader: Option<u64>,
    /// Audio crossfade enabled.
    pub audio_crossfade: bool,
}

impl Default for TransitionParameters {
    /// The default parameters are all zero with audio crossfade off and a
    /// centered center point.
    fn default() -> (r: Self)
        ensures
            r == (TransitionParameters {
                edge_softness_permille: 0u32,
                blur_permille: 0u32,
                feather_permille: 0u32,
                border_width_permille: 0u32,
                border_color: [0u16, 0u16, 0u16, 0u16],
                center: [500u32, 500u32],
                rotation_millideg: 0i64,
                custom_shader: None,
                audio_crossfade: false,
            }),
    {
        TransitionParameters {
            edge_softness_permille: 0,
            blur_permille: 0,
            feather_permille: 0,
            border_width_permille: 0,
            border_color: [0, 0, 0, 0],
            center: [500, 500],
            rotation_millideg: 0,
            custom_shader: None,
            audio_crossfade: false,
        }
    }
}

/// A transition between two clips. Progress runs from 0 to 1000
/// thousandths.
#[derive(Debug, Clone, Copy)]
pub struct Transition {
    /// Unique transition identifier.
    pub id: TransitionId,
    /// Transition type.
    pub transition_type: TransitionType,
    /// Transition duration.
    pub duration: TimePosition,
    /// Easing function.
    pub easing: TransitionEasing,
    /// Progress in thousandths (0 to 1000).
    pub progress_permille: u32,
    /// Rendering parameters.
    pub parameters: TransitionParameters,
    /// Whether the transition is enabled.
    pub enabled: bool,
}

/// The progress in thousandths at `current` of a transition starting at
/// `start` with the given duration: the elapsed share of the duration,
/// clamped to [0, 1000]; a zero duration is immediately complete.
pub open spec fn spec_progress_permille(duration_ms: int, start_ms: int, current_ms: int) -> int {
    if duration_ms == 0 {
        1000
    } else {
        let elapsed = if current_ms >= start_ms {
            current_ms - start_ms
        } else {
            0
        };
        if elapsed * 1000 / duration_ms >= 1000 {
            1000
        } else {
            elapsed * 1000 / duration_ms
        }
    }
}

impl Transition {
    /// Creates a new enabled transition at zero progress with linear
    /// easing and default parameters.
    pub fn new(id: TransitionId, transition_type: TransitionType, duration: TimePosition) -> (r:
        Self)
        ensures
            r.id == id,
            r.transition_type == transition_type,
            r.duration == duration,
            r.easing is Linear,
            r.progress_permille == 0,
            r.enabled,
    {
        Transition {
            id,
            transition_type,
            duration,
            easing: TransitionEasing::Linear,
            progress_permille: 0,
            parameters: TransitionParameters::default(),
            enabled: true,
        }
    }

    /// Creates a cross-fade transition.
    pub fn crossfade(id: TransitionId, duration: TimePosition) -> (r: Self)
        ensures
            r.id == id,
            r.transition_type is CrossFade,
            r.duration == duration,
            r.progress_permille == 0,
            r.enabled,
    {
        Transition::new(id, TransitionType::CrossFade, duration)
    }

    /// Creates a wipe transition in a direction.
    pub fn wipe(id: TransitionId, duration: TimePosition, direction: WipeDirection) -> (r: Self)
        ensures
            r.id == id,
            r.transition_type == TransitionType::Wipe(direction),
            r.duration == duration,
            r.progress_permille == 0,
            r.enabled,
    {
        Transition::new(id, TransitionType::Wipe(direction), duration)
    }

    /// Sets the progress, clamped to 1000 thousandths.
    pub fn set_progress(&mut self, progress_permille: u32)
        ensures
            final(self).progress_permille == if progress_permille <= 1000 {
                progress_permille
            } else {
                1000
            },
            *final(self) == (Transition {
                progress_permille: final(self).progress_permille,
                ..*old(self)
            }),
    {
        self.progress_permille = if progress_permille <= 1000 {
            progress_permille
        } else {
            1000
        };
    }

    /// Recomputes the progress from the current time and the placement's
    /// start time: the elapsed share of the duration, clamped to [0,
    /// 1000]; a zero duration completes at once.
    pub fn update(&mut self, current_time: TimePosition, start_time: TimePosition)
        ensures
            final(self).progress_permille == spec_progress_permille(
                old(self).duration.ms as int,
                start_time.ms as int,
                current_time.ms as int,
            ),
            *final(self) == (Transition {
                progress_permille: final(self).progress_permille,
                ..*old(self)
            }),
    {
        if self.duration.ms == 0 {
            self.progress_permille = 1000;
            return ;
        }
        let elapsed: u64 = current_time.ms.saturating_sub(start_time.ms);
        let scaled: u128 = (elapsed as u128) * 1000 / (self.duration.ms as u128);
        if scaled >= 1000 {
            self.progress_permille = 1000;
        } else {
            self.progress_permille = scaled as u32;
        }
    }

    /// Returns whether the transition has completed.
    pub fn is_complete(&self) -> (r: bool)
        ensures
            r == (self.progress_permille >= 1000),
    {
        self.progress_permille >= 1000
    }

    /// Resets the transition to the beginning.
    pub fn reset(&mut self)
        ensures
            *final(self) == (Transition { progress_permille: 0u32, ..*old(self) }),
    {
        self.progress_permille = 0;
    }
}

/// A transition placed between two adjacent clips on a track.
#[derive(Debug, Clone, Copy)]
pub struct TransitionPlacement {
    /// The transition.
    pub transition: Transition,
    /// Track the transition is placed on.
    pub track_id: u64,
    /// Outgoing clip id.
    pub clip_a_id: u64,
    /// Incoming clip id.
    pub clip_b_id: u64,
    /// Start time of the transition.
    pub start_time: TimePosition,
}

/// A saved transition preset.
#[derive(Debug, Clone)]
pub struct TransitionPreset {
    /// Preset name.
    pub name: String,
    /// Transition type.
    pub transition_type: TransitionType,
    /// Duration.
    pub duration: TimePosition,
    /// Easing.
    pub easing: TransitionEasing,
    /// Parameters.
    pub parameters: TransitionParameters,
}

/// Manager for the transitions of a project.
pub struct TransitionManager {
    transitions: Vec<TransitionPlacement>,
    next_id: u64,
    default_type: TransitionType,
    default_duration: TimePosition,
    presets: Vec<TransitionPreset>,
}

impl TransitionManager {
    /// The transition placements.
    pub closed spec fn spec_transitions(self) -> Seq<TransitionPlacement> {
        self.transitions@
    }

    /// The next transition id to be handed out.
    pub closed spec fn spec_next_id(self) -> u64 {
        self.next_id
    }

    /// The default transition type.
    pub closed spec fn spec_default_type(self) -> TransitionType {
        self.default_type
    }

    /// The default transition duration.
    pub closed spec fn spec_default_duration(self) -> TimePosition {
        self.default_duration
    }

    /// The saved presets.
    pub closed spec fn spec_presets(self) -> Seq<TransitionPreset> {
        self.presets@
    }

    /// Creates a manager with no placements, a half-second cross-fade as
    /// the default, and five built-in presets.
    pub fn new() -> (r: Self)
        ensures
            r.spec_transitions().len() == 0,
            r.spec_next_id() == 1,
            r.spec_default_type() is CrossFade,
            r.spec_default_duration().ms == 500,
            r.spec_presets().len() == 5,
    {
        TransitionManager {
            transitions: Vec::new(),
            next_id: 1,
            default_type: TransitionType::CrossFade,
            default_duration: TimePosition::from_ms(500),
            presets: TransitionManager::create_default_presets(),
        }
    }

    /// Builds the five built-in presets: a quick fade, a smooth dissolve,
    /// a wipe, a push and a zoom.
    fn create_default_presets() -> (r: Vec<TransitionPreset>)
        ensures
            r@.len() == 5,
            r@[0].name@ == "Quick Fade"@,
            r@[0].transition_type is CrossFade,
            r@[0].duration.ms == 250,
            r@[1].name@ == "Smooth Dissolve"@,
            r@[1].transition_type is CrossDissolve,
            r@[1].duration.ms == 1000,
            r@[2].name@ == "Wipe Left"@,
            r@[2].transition_type == TransitionType::Wipe(WipeDirection::LeftToRight),
            r@[3].name@ == "Push Right"@,
            r@[3].transition_type == TransitionType::Push(PushDirection::Right),
            r@[4].name@ == "Zoom Blur"@,
            r@[4].transition_type == TransitionType::Zoom(ZoomType::CrossZoom),
    {
        let mut presets: Vec<TransitionPreset> = Vec::new();
        presets.push(
            TransitionPreset {
                name: String::from_str("Quick Fade"),
                transition_type: TransitionType::CrossFade,
                duration: TimePosition::from_ms(250),
                easing: TransitionEasing::Linear,
                parameters: TransitionParameters::default(),
            },
        );
        presets.push(
            TransitionPreset {
                name: String::from_str("Smooth Dissolve"),
                transition_type: TransitionType::CrossDissolve,
                duration: TimePosition::from_ms(1000),
                easing: TransitionEasing::EaseInOut,
                parameters: TransitionParameters::default(),
            },
        );
        presets.push(
            TransitionPreset {
                name: String::from_str("Wipe Left"),
                transition_type: TransitionType::Wipe(WipeDirection::LeftToRight),
                duration: TimePosition::from_ms(500),
                easing: TransitionEasing::EaseOut,
                parameters: TransitionParameters {
                    edge_softness_permille: 100,
                    ..TransitionParameters::default()
                },
            },
        );
        presets.push(
            TransitionPreset {
                name: String::from_str("Push Right"),
                transition_type: TransitionType::Push(PushDirection::Right),
                duration: TimePosition::from_ms(500),
                easing: TransitionEasing::CubicOut,
                parameters: TransitionParameters::default(),
            },
        );
        presets.push(
            TransitionPreset {
                name: String::from_str("Zoom Blur"),
                transition_type: TransitionType::Zoom(ZoomType::CrossZoom),
                duration: TimePosition::from_ms(750),
                easing: TransitionEasing::QuadInOut,
                parameters: TransitionParameters {
                    blur_permille: 300,
                    ..TransitionParameters::default()
                },
            },
        );
        presets
    }

    /// Places a transition between two clips at a start time, with the
    /// given type and duration or the manager's defaults, under a fresh
    /// id, which is returned.
    pub fn add_transition(
        &mut self,
        track_id: u64,
        clip_a_id: u64,
        clip_b_id: u64,
        start_time: TimePosition,
        transition_type: Option<TransitionType>,
        duration: Option<TimePosition>,
    ) -> (r: TransitionId)
        requires
            old(self).spec_next_id() < u64::MAX,
        ensures
            r.0 == old(self).spec_next_id(),
            final(self).spec_next_id() == old(self).spec_next_id() + 1,
            final(self).spec_transitions() == old(self).spec_transitions().push(
                final(self).spec_transitions().last(),
            ),
            ({
                let p = final(self).spec_transitions().last();
                &&& p.transition.id == r
                &&& p.transition.transition_type == (if transition_type is Some {
                    transition_type->0
                } else {
                    old(self).spec_default_type()
                })
                &&& p.transition.duration == (if duration is Some {
                    duration->0
                } else {
                    old(self).spec_default_duration()
                })
                &&& p.transition.progress_permille == 0
                &&& p.track_id == track_id
                &&& p.clip_a_id == clip_a_id
                &&& p.clip_b_id == clip_b_id
                &&& p.start_time == start_time
            }),
            final(self).spec_presets() == old(self).spec_presets(),
    {
        let id = TransitionId::new(self.next_id);
        self.next_id = self.next_id + 1;
        let trans_type = match transition_type {
            Some(t) => t,
            None => self.default_type,
        };
        let dur = match duration {
            Some(d) => d,
            None => self.default_duration,
        };
        let transition = Transition::new(id, trans_type, dur);
        let placement = TransitionPlacement {
            transition,
            track_id,
            clip_a_id,
            clip_b_id,
            start_time,
        };
        self.transitions.push(placement);
        id
    }

    /// Places a transition from a named preset, copying its type,
    /// duration, easing and parameters; an unknown preset name is refused
    /// with an effect error, changing nothing.
    pub fn add_from_preset(
        &mut self,
        track_id: u64,
        clip_a_id: u64,
        clip_b_id: u64,
        start_time: TimePosition,
        preset_name: &str,
    ) -> (r: VideoEditorResult<TransitionId>)
        requires
            old(self).spec_next_id() < u64::MAX,
        ensures
            r is Err ==> *final(self) == *old(self) && forall|i: int|
                0 <= i < old(self).spec_presets().len() ==> (#[trigger] old(self).spec_presets()[i]).name@ != preset_name@,
            r is Ok ==> r->Ok_0.0 == old(self).spec_next_id() && final(self).spec_next_id() == old(self).spec_next_id() + 1 && exists|k: int|
                #![trigger old(self).spec_presets()[k]]
                0 <= k < old(self).spec_presets().len() && old(self).spec_presets()[k].name@
                    == preset_name@ && final(self).spec_transitions() == old(self).spec_transitions().push(final(self).spec_transitions().last()) && ({
                    let p = final(self).spec_transitions().last();
                    let preset = old(self).spec_presets()[k];
                    &&& p.transition.id == r->Ok_0
                    &&& p.transition.transition_type == preset.transition_type
                    &&& p.transition.duration == preset.duration
                    &&& p.transition.easing == preset.easing
                    &&& p.transition.parameters == preset.parameters
                    &&& p.transition.progress_permille == 0
                    &&& p.track_id == track_id
                    &&& p.clip_a_id == clip_a_id
                    &&& p.clip_b_id == clip_b_id
                    &&& p.start_time == start_time
                }),
    {
        let mut i: usize = 0;
        while i < self.presets.len()
            invariant
                0 <= i <= self.presets@.len(),
                forall|k: int| 0 <= k < i ==> (#[trigger] self.spec_presets()[k]).name@ != preset_name@,
                self == old(self),
                old(self).spec_next_id() < u64::MAX,
            decreases self.presets@.len() - i,
        {
            if str_eq(self.presets[i].name.as_str(), preset_name) {
                let transition_type = self.presets[i].transition_type;
                let duration = self.presets[i].duration;
                let easing = self.presets[i].easing;
                let parameters = self.presets[i].parameters;
                let id = TransitionId::new(self.next_id);
                self.next_id = self.next_id + 1;
                let mut transition = Transition::new(id, transition_type, duration);
                transition.easing = easing;
                transition.parameters = parameters;
                let placement = TransitionPlacement {
                    transition,
                    track_id,
                    clip_a_id,
                    clip_b_id,
                    start_time,
                };
                self.transitions.push(placement);
                proof {
                    assert(old(self).spec_presets()[i as int].name@ == preset_name@);
                    assert(self.spec_transitions().last() == placement);
                }
                return Ok(id);
            }
            i = i + 1;
        }
        Err(VideoEditorError::Effect(String::from_str("Preset not found")))
    }

    /// Removes a transition by id; returns whether one was removed.
    pub fn remove_transition(&mut self, id: TransitionId) -> (r: bool)
        ensures
            !r ==> *final(self) == *old(self) && forall|i: int|
                0 <= i < old(self).spec_transitions().len() ==> (#[trigger] old(self).spec_transitions()[i]).transition.id != id,
            r ==> exists|k: int|
                #![trigger old(self).spec_transitions()[k]]
                0 <= k < old(self).spec_transitions().len() && old(self).spec_transitions()[k].transition.id == id && final(self).spec_transitions()
                    == old(self).spec_transitions().remove(k),
            final(self).spec_next_id() == old(self).spec_next_id(),
    {
        let mut i: usize = 0;
        while i < self.transitions.len()
            invariant
                0 <= i <= self.transitions@.len(),
                forall|k: int|
                    0 <= k < i ==> (#[trigger] self.spec_transitions()[k]).transition.id != id,
                self == old(self),
            decreases self.transitions@.len() - i,
        {
            if self.transitions[i].transition.id.0 == id.0 {
                proof {
                    assert(old(self).spec_transitions()[i as int].transition.id == id);
                }
                self.transitions.remove(i);
                return true;
            }
            i = i + 1;
        }
        false
    }

    /// Returns the placement with the given transition id, or `None`.
    pub fn get_transition(&self, id: TransitionId) -> (r: Option<&TransitionPlacement>)
        ensures
            r is None ==> forall|i: int|
                0 <= i < self.spec_transitions().len() ==> (
                #[trigger] self.spec_transitions()[i]).transition.id != id,
            r is Some ==> exists|k: int|
                #![trigger self.spec_transitions()[k]]
                0 <= k < self.spec_transitions().len() && self.spec_transitions()[k].transition.id
                    == id && *r->Some_0 == self.spec_transitions()[k],
    {
        let mut i: usize = 0;
        while i < self.transitions.len()
            invariant
                0 <= i <= self.transitions@.len(),
                forall|k: int|
                    0 <= k < i ==> (#[trigger] self.spec_transitions()[k]).transition.id != id,
            decreases self.transitions@.len() - i,
        {
            if self.transitions[i].transition.id.0 == id.0 {
                let res = &self.transitions[i];
                proof {
                    assert(*res == self.spec_transitions()[i as int]);
                }
                return Some(res);
            }
            i = i + 1;
        }
        None
    }

    /// Returns mutable access to the placement with the given transition
    /// id, or `None`, changing nothing.
    pub fn get_transition_mut(&mut self, id: TransitionId) -> (r: Option<&mut TransitionPlacement>)
        ensures
            r is None ==> *final(self) == *old(self) && forall|i: int|
                0 <= i < old(self).spec_transitions().len() ==> (#[trigger] old(self).spec_transitions()[i]).transition.id != id,
            r is Some ==> exists|k: int|
                #![trigger old(self).spec_transitions()[k]]
                0 <= k < old(self).spec_transitions().len() && old(self).spec_transitions()[k].transition.id == id && *r->Some_0 == old(self).spec_transitions()[k] && final(self).spec_transitions() == old(self).spec_transitions().update(k, *final(r->Some_0)) && final(self).spec_next_id()
                    == old(self).spec_next_id(),
    {
        let mut i: usize = 0;
        while i < self.transitions.len()
            invariant
                0 <= i <= self.transitions@.len(),
                forall|k: int|
                    0 <= k < i ==> (#[trigger] self.spec_transitions()[k]).transition.id != id,
                self == old(self),
            decreases self.transitions@.len() - i,
        {
            if self.transitions[i].transition.id.0 == id.0 {
                proof {
                    assert(old(self).spec_transitions()[i as int].transition.id == id);
                }
                return Some(&mut self.transitions[i]);
            }
            i = i + 1;
        }
        None
    }

    /// Returns the first placement on a track whose half-open time span
    /// covers the given time, or `None`.
    pub fn transition_at_time(&self, track_id: u64, time: TimePosition) -> (r: Option<
        &TransitionPlacement,
    >)
        requires
            forall|i: int|
                0 <= i < self.spec_transitions().len() ==> (
                #[trigger] self.spec_transitions()[i]).start_time.ms
                    + self.spec_transitions()[i].transition.duration.ms <= u64::MAX,
        ensures
            r is Some ==> exists|k: int|
                #![trigger self.spec_transitions()[k]]
                0 <= k < self.spec_transitions().len() && *r->Some_0 == self.spec_transitions()[k]
                    && self.spec_transitions()[k].track_id == track_id
                    && self.spec_transitions()[k].start_time.ms <= time.ms
                    < self.spec_transitions()[k].start_time.ms
                    + self.spec_transitions()[k].transition.duration.ms,
            r is None ==> forall|i: int|
                0 <= i < self.spec_transitions().len() ==> !((
                #[trigger] self.spec_transitions()[i]).track_id == track_id
                    && self.spec_transitions()[i].start_time.ms <= time.ms
                    < self.spec_transitions()[i].start_time.ms
                    + self.spec_transitions()[i].transition.duration.ms),
    {
        let mut i: usize = 0;
        while i < self.transitions.len()
            invariant
                0 <= i <= self.transitions@.len(),
                forall|k: int|
                    0 <= k < self.spec_transitions().len() ==> (
                    #[trigger] self.spec_transitions()[k]).start_time.ms
                        + self.spec_transitions()[k].transition.duration.ms <= u64::MAX,
                forall|k: int|
                    0 <= k < i ==> !((#[trigger] self.spec_transitions()[k]).track_id == track_id
                        && self.spec_transitions()[k].start_time.ms <= time.ms
                        < self.spec_transitions()[k].start_time.ms
                        + self.spec_transitions()[k].transition.duration.ms),
            decreases self.transitions@.len() - i,
        {
            let t = &self.transitions[i];
            if t.track_id == track_id && time.ms >= t.start_time.ms && time.ms < t.start_time.ms
                + t.transition.duration.ms {
                proof {
                    assert(*t == self.spec_transitions()[i as int]);
                }
                return Some(t);
            }
            i = i + 1;
        }
        None
    }

    /// Recomputes every placement's progress for the current time in one
    /// pass; completion does not remove a transition.
    pub fn update_all(&mut self, current_time: TimePosition)
        ensures
            final(self).spec_transitions().len() == old(self).spec_transitions().len(),
            forall|i: int|
                0 <= i < old(self).spec_transitions().len() ==> #[trigger] final(self).spec_transitions()[i] == (TransitionPlacement {
                    transition: Transition {
                        progress_permille: (spec_progress_permille(
                            old(self).spec_transitions()[i].transition.duration.ms as int,
                            old(self).spec_transitions()[i].start_time.ms as int,
                            current_time.ms as int,
                        )) as u32,
                        ..old(self).spec_transitions()[i].transition
                    },
                    ..old(self).spec_transitions()[i]
                }),
            final(self).spec_next_id() == old(self).spec_next_id(),
            final(self).spec_presets() == old(self).spec_presets(),
    {
        let mut i: usize = 0;
        while i < self.transitions.len()
            invariant
                0 <= i <= self.transitions@.len(),
                self.transitions@.len() == old(self).spec_transitions().len(),
                forall|k: int|
                    0 <= k < i ==> #[trigger] self.spec_transitions()[k] == (TransitionPlacement {
                        transition: Transition {
                            progress_permille: (spec_progress_permille(
                                old(self).spec_transitions()[k].transition.duration.ms as int,
                                old(self).spec_transitions()[k].start_time.ms as int,
                                current_time.ms as int,
                            )) as u32,
                            ..old(self).spec_transitions()[k].transition
                        },
                        ..old(self).spec_transitions()[k]
                    }),
                forall|k: int|
                    i <= k < self.transitions@.len() ==> #[trigger] self.spec_transitions()[k]
                        == old(self).spec_transitions()[k],
                self.next_id == old(self).spec_next_id(),
                self.presets == old(self).presets,
            decreases self.transitions@.len() - i,
        {
            let ghost pre = self.transitions@;
            proof {
                assert(self.spec_transitions()[i as int] == old(self).spec_transitions()[
                    i as int
                ]);
            }
            let mut p = self.transitions[i];
            let start_time = p.start_time;
            p.transition.update(current_time, start_time);
            self.transitions.set(i, p);
            proof {
                assert(self.transitions@ == pre.update(i as int, p));
                assert(self.spec_transitions()[i as int] == p);
                assert(forall|k: int|
                    0 <= k < pre.len() && k != i ==> #[trigger] self.spec_transitions()[k]
                        == pre[k]);
                let o = old(self).spec_transitions()[i as int];
                assert(pre[i as int] == o);
                assert(p.transition.progress_permille == spec_progress_permille(
                    o.transition.duration.ms as int,
                    o.start_time.ms as int,
                    current_time.ms as int,
                ));
                assert(p == (TransitionPlacement {
                    transition: Transition {
                        progress_permille: (spec_progress_permille(
                            o.transition.duration.ms as int,
                            o.start_time.ms as int,
                            current_time.ms as int,
                        )) as u32,
                        ..o.transition
                    },
                    ..o
                }));
            }
            i = i + 1;
        }
    }

    /// Returns all transition placements.
    pub fn all_transitions(&self) -> (r: &Vec<TransitionPlacement>)
        ensures
            r@ == self.spec_transitions(),
    {
        &self.transitions
    }

    /// Returns the available presets.
    pub fn presets(&self) -> (r: &Vec<TransitionPreset>)
        ensures
            r@ == self.spec_presets(),
    {
        &self.presets
    }

    /// Adds a custom preset.
    pub fn add_preset(&mut self, preset: TransitionPreset)
        ensures
            final(self).spec_presets() == old(self).spec_presets().push(preset),
            final(self).spec_transitions() == old(self).spec_transitions(),
            final(self).spec_next_id() == old(self).spec_next_id(),
    {
        self.presets.push(preset);
    }

    /// Sets the default transition type.
    pub fn set_default_type(&mut self, transition_type: TransitionType)
        ensures
            final(self).spec_default_type() == transition_type,
            final(self).spec_transitions() == old(self).spec_transitions(),
            final(self).spec_next_id() == old(self).spec_next_id(),
            final(self).spec_default_duration() == old(self).spec_default_duration(),
    {
        self.default_type = transition_type;
    }

    /// Sets the default transition duration.
    pub fn set_default_duration(&mut self, duration: TimePosition)
        ensures
            final(self).spec_default_duration() == duration,
            final(self).spec_transitions() == old(self).spec_transitions(),
            final(self).spec_next_id() == old(self).spec_next_id(),
            final(self).spec_default_type() == old(self).spec_default_type(),
    {
        self.default_duration = duration;
    }
}

impl Default for TransitionManager {
    /// The default manager has no placements and the built-in presets.
    fn default() -> (r: Self)
        ensures
            r.spec_transitions().len() == 0,
            r.spec_next_id() == 1,
    {
        TransitionManager::new()
    }
}

} // verus!
