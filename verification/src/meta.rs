//! Drill-down frame metadata: object detections with bounding boxes,
//! scene classification, annotations and the lookup index. Normalized
//! coordinates and confidences are stored in thousandths.

use vstd::prelude::*;

verus! {

/// Axis-aligned bounding box in normalized thousandths of the frame.
#[derive(Debug, Clone, Copy, PartialEq, Eq, Structural, Hash)]
pub struct BoundingBox {
    /// Left edge in thousandths.
    pub x: u32,
    /// Top edge in thousandths.
    pub y: u32,
    /// Width in thousandths.
    pub width: u32,
    /// Height in thousandths.
    pub height: u32,
}

/// The overlap of two intervals `[a, a+aw)` and `[b, b+bw)`.
pub open spec fn spec_overlap(a: int, aw: int, b: int, bw: int) -> int {
    let lo = if a >= b {
        a
    } else {
        b
    };
    let hi = if a + aw <= b + bw {
        a + aw
    } else {
        b + bw
    };
    if hi >= lo {
        hi - lo
    } else {
        0
    }
}

impl BoundingBox {
    /// The box's area in squared thousandths.
    pub open spec fn spec_area(self) -> int {
        self.width * self.height
    }

    /// The intersection area of two boxes in squared thousandths.
    pub open spec fn spec_intersection(self, other: BoundingBox) -> int {
        spec_overlap(self.x as int, self.width as int, other.x as int, other.width as int)
            * spec_overlap(self.y as int, self.height as int, other.y as int, other.height as int)
    }

    /// Creates a new bounding box from thousandths.
    pub fn new(x: u32, y: u32, width: u32, height: u32) -> (r: Self)
        ensures
            r == (BoundingBox { x, y, width, height }),
    {
        BoundingBox { x, y, width, height }
    }

    /// Creates a box from pixel coordinates, normalized against an image
    /// geometry.
    pub fn from_pixels(x: u32, y: u32, w: u32, h: u32, img_w: u32, img_h: u32) -> (r: Self)
        requires
            img_w > 0,
            img_h > 0,
            x <= img_w,
            y <= img_h,
            w <= img_w,
            h <= img_h,
        ensures
            r.x == x * 1000 / (img_w as int),
            r.y == y * 1000 / (img_h as int),
            r.width == w * 1000 / (img_w as int),
            r.height == h * 1000 / (img_h as int),
    {
        proof {
            assert(x * 1000 / (img_w as int) <= 1000 && y * 1000 / (img_h as int) <= 1000 && w
                * 1000 / (img_w as int) <= 1000 && h * 1000 / (img_h as int)
                <= 1000) by (nonlinear_arith)
                requires
                    img_w >= 1,
                    img_h >= 1,
                    0 <= x <= img_w,
                    0 <= y <= img_h,
                    0 <= w <= img_w,
                    0 <= h <= img_h,
            ;
        }
        BoundingBox {
            x: ((x as u64) * 1000 / (img_w as u64)) as u32,
            y: ((y as u64) * 1000 / (img_h as u64)) as u32,
            width: ((w as u64) * 1000 / (img_w as u64)) as u32,
            height: ((h as u64) * 1000 / (img_h as u64)) as u32,
        }
    }

    /// Converts the box back to pixel coordinates for an image geometry.
    pub fn to_pixels(&self, img_w: u32, img_h: u32) -> (r: (u32, u32, u32, u32))
        requires
            self.x <= 1000,
            self.y <= 1000,
            self.width <= 1000,
            self.height <= 1000,
        ensures
            r.0 == self.x * img_w / 1000,
            r.1 == self.y * img_h / 1000,
            r.2 == self.width * img_w / 1000,
            r.3 == self.height * img_h / 1000,
    {
        proof {
            assert(self.x * img_w / 1000 <= img_w && self.y * img_h / 1000 <= img_h && self.width
                * img_w / 1000 <= img_w && self.height * img_h / 1000
                <= img_h) by (nonlinear_arith)
                requires
                    0 <= self.x <= 1000,
                    0 <= self.y <= 1000,
                    0 <= self.width <= 1000,
                    0 <= self.height <= 1000,
                    img_w >= 0,
                    img_h >= 0,
            ;
        }
        (
            ((self.x as u64) * (img_w as u64) / 1000) as u32,
            ((self.y as u64) * (img_h as u64) / 1000) as u32,
            ((self.width as u64) * (img_w as u64) / 1000) as u32,
            ((self.height as u64) * (img_h as u64) / 1000) as u32,
        )
    }

    /// Returns the center point in thousandths.
    pub fn center(&self) -> (r: (u32, u32))
        requires
            self.x + self.width / 2 <= u32::MAX,
            self.y + self.height / 2 <= u32::MAX,
        ensures
            r.0 == self.x + self.width / 2,
            r.1 == self.y + self.height / 2,
    {
        (self.x + self.width / 2, self.y + self.height / 2)
    }

    /// Returns the area in squared thousandths.
    pub fn area(&self) -> (r: u64)
        ensures
            r == self.spec_area(),
    {
        proof {
            assert(self.width * self.height <= u64::MAX) by (nonlinear_arith)
                requires
                    self.width <= u32::MAX,
                    self.height <= u32::MAX,
            ;
        }
        (self.width as u64) * (self.height as u64)
    }

    /// Returns the intersection-over-union of two boxes in thousandths:
    /// the intersection area times one thousand over the union area, or
    /// zero for an empty union.
    pub fn iou_permille(&self, other: &BoundingBox) -> (r: u32)
        requires
            self.x + self.width <= 1000,
            self.y + self.height <= 1000,
            other.x + other.width <= 1000,
            other.y + other.height <= 1000,
        ensures
            ({
                let inter = self.spec_intersection(*other);
                let union_area = self.spec_area() + other.spec_area() - inter;
                &&& (union_area > 0 ==> r == inter * 1000 / union_area)
                &&& (union_area <= 0 ==> r == 0)
            }),
    {
        let x1: u32 = if self.x >= other.x {
            self.x
        } else {
            other.x
        };
        let y1: u32 = if self.y >= other.y {
            self.y
        } else {
            other.y
        };
        let x2: u32 = if self.x + self.width <= other.x + other.width {
            self.x + self.width
        } else {
            other.x + other.width
        };
        let y2: u32 = if self.y + self.height <= other.y + other.height {
            self.y + self.height
        } else {
            other.y + other.height
        };
        let ox: u64 = if x2 >= x1 {
            (x2 - x1) as u64
        } else {
            0
        };
        let oy: u64 = if y2 >= y1 {
            (y2 - y1) as u64
        } else {
            0
        };
        proof {
            assert(ox <= 1000 && oy <= 1000);
            assert(ox * oy <= 1000000) by (nonlinear_arith)
                requires
                    0 <= ox <= 1000,
                    0 <= oy <= 1000,
            ;
        }
        let inter: u64 = ox * oy;
        let a1 = self.area();
        let a2 = other.area();
        proof {
            assert(inter == self.spec_intersection(*other));
            assert(ox <= self.width && oy <= self.height);
            assert(inter <= a1) by (nonlinear_arith)
                requires
                    0 <= ox <= self.width,
                    0 <= oy <= self.height,
                    a1 == self.width * self.height,
                    inter == ox * oy,
            ;
        }
        proof {
            assert(a1 <= 1000000 && a2 <= 1000000) by (nonlinear_arith)
                requires
                    a1 == self.width * self.height,
                    a2 == other.width * other.height,
                    0 <= self.width <= 1000,
                    0 <= self.height <= 1000,
                    0 <= other.width <= 1000,
                    0 <= other.height <= 1000,
            ;
        }
        let union_area: u64 = a1 + a2 - inter;
        if union_area > 0 {
            let scaled: u64 = inter * 1000 / union_area;
            proof {
                assert(inter * 1000 / (union_area as int) <= 1000000000) by (nonlinear_arith)
                    requires
                        union_area >= 1,
                        inter <= 1000000,
                ;
            }
            scaled as u32
        } else {
            0
        }
    }
}

impl Default for BoundingBox {
    /// The default box is empty at the origin.
    fn default() -> (r: Self)
        ensures
            r == (BoundingBox { x: 0u32, y: 0u32, width: 0u32, height: 0u32 }),
    {
        BoundingBox { x: 0, y: 0, width: 0, height: 0 }
    }
}

/// Object tracking state across frames. Velocities are in thousandths of
/// the frame per frame.
#[derive(Debug, Clone, Copy, PartialEq, Eq, Structural)]
pub struct TrackingState {
    /// Horizontal velocity in thousandths per frame.
    pub velocity_x_permille: i64,
    /// Vertical velocity in thousandths per frame.
    pub velocity_y_permille: i64,
    /// Frames tracked so far.
    pub tracked_frames: u32,
    /// First appearance frame.
    pub first_frame: u64,
    /// Last seen frame.
    pub last_frame: u64,
}

impl TrackingState {
    /// Creates a fresh tracking state at a first appearance.
    pub fn new(first_frame: u64) -> (r: Self)
        ensures
            r.velocity_x_permille == 0,
            r.velocity_y_permille == 0,
            r.tracked_frames == 1,
            r.first_frame == first_frame,
            r.last_frame == first_frame,
    {
        TrackingState {
            velocity_x_permille: 0,
            velocity_y_permille: 0,
            tracked_frames: 1,
            first_frame,
            last_frame: first_frame,
        }
    }

    /// Updates the track with a new center position: the velocity becomes
    /// the displacement over the elapsed frames (unchanged when no frames
    /// elapsed), the tracked count grows and the last frame advances.
    pub fn update(&mut self, current_frame: u64, prev_center: (u32, u32), curr_center: (u32, u32))
        requires
            current_frame >= old(self).last_frame,
            old(self).tracked_frames < u32::MAX,
            prev_center.0 <= 1000 && prev_center.1 <= 1000,
            curr_center.0 <= 1000 && curr_center.1 <= 1000,
        ensures
            ({
                let dt = current_frame - old(self).last_frame;
                &&& (dt > 0 ==> final(self).velocity_x_permille == (
                if curr_center.0 >= prev_center.0 {
                    (curr_center.0 - prev_center.0) / dt
                } else {
                    -((prev_center.0 - curr_center.0) / dt)
                }) && final(self).velocity_y_permille == (if curr_center.1 >= prev_center.1 {
                    (curr_center.1 - prev_center.1) / dt
                } else {
                    -((prev_center.1 - curr_center.1) / dt)
                }))
                &&& (dt == 0 ==> final(self).velocity_x_permille == old(self).velocity_x_permille && final(self).velocity_y_permille == old(self).velocity_y_permille)
            }),
            final(self).tracked_frames == old(self).tracked_frames + 1,
            final(self).last_frame == current_frame,
            final(self).first_frame == old(self).first_frame,
    {
        let dt = current_frame - self.last_frame;
        if dt > 0 {
            self.velocity_x_permille = if curr_center.0 >= prev_center.0 {
                (((curr_center.0 - prev_center.0) as u64) / dt) as i64
            } else {
                -((((prev_center.0 - curr_center.0) as u64) / dt) as i64)
            };
            self.velocity_y_permille = if curr_center.1 >= prev_center.1 {
                (((curr_center.1 - prev_center.1) as u64) / dt) as i64
            } else {
                -((((prev_center.1 - curr_center.1) as u64) / dt) as i64)
            };
        }
        self.tracked_frames = self.tracked_frames + 1;
        self.last_frame = current_frame;
    }
}

/// Object detection result.
#[derive(Debug, Clone)]
pub struct ObjectDetection {
    /// Object id, stable across frames for tracking.
    pub object_id: u64,
    /// Object class.
    pub class: String,
    /// Confidence in thousandths.
    pub confidence_permille: u32,
    /// Bounding box.
    pub bbox: BoundingBox,
    /// Tracking state, if tracked.
    pub tracking: Option<TrackingState>,
    /// Object attributes.
    pub attributes: Vec<(String, String)>,
}

impl ObjectDetection {
    /// Creates a new untracked detection with no attributes.
    pub fn new(object_id: u64, class: String, confidence_permille: u32, bbox: BoundingBox) -> (r:
        Self)
        ensures
            r.object_id == object_id,
            r.class == class,
            r.confidence_permille == confidence_permille,
            r.bbox == bbox,
            r.tracking is None,
            r.attributes@.len() == 0,
    {
        ObjectDetection {
            object_id,
            class,
            confidence_permille,
            bbox,
            tracking: None,
            attributes: Vec::new(),
        }
    }

    /// Appends an attribute.
    pub fn with_attribute(self, key: String, value: String) -> (r: Self)
        ensures
            r.attributes@ == self.attributes@.push((key, value)),
            r.object_id == self.object_id,
            r.class == self.class,
            r.bbox == self.bbox,
    {
        let mut d = self;
        d.attributes.push((key, value));
        d
    }

    /// Sets the tracking state.
    pub fn with_tracking(self, tracking: TrackingState) -> (r: Self)
        ensures
            r == (ObjectDetection { tracking: Some(tracking), ..self }),
    {
        ObjectDetection { tracking: Some(tracking), ..self }
    }
}

/// Scene classification with alternatives. Confidences are in
/// thousandths.
#[derive(Debug, Clone)]
pub struct SceneClassification {
    /// Primary scene type.
    pub primary: String,
    /// Confidence in thousandths.
    pub confidence_permille: u32,
    /// Alternative classifications with their confidences.
    pub alternatives: Vec<(String, u32)>,
    /// Scene attributes.
    pub attributes: Vec<String>,
}

impl SceneClassification {
    /// Creates a classification with no alternatives or attributes.
    pub fn new(primary: String, confidence_permille: u32) -> (r: Self)
        ensures
            r.primary == primary,
            r.confidence_permille == confidence_permille,
            r.alternatives@.len() == 0,
            r.attributes@.len() == 0,
    {
        SceneClassification {
            primary,
            confidence_permille,
            alternatives: Vec::new(),
            attributes: Vec::new(),
        }
    }

    /// Appends an alternative classification.
    pub fn with_alternative(self, class: String, confidence_permille: u32) -> (r: Self)
        ensures
            r.alternatives@ == self.alternatives@.push((class, confidence_permille)),
            r.primary == self.primary,
    {
        let mut c = self;
        c.alternatives.push((class, confidence_permille));
        c
    }

    /// Appends a scene attribute.
    pub fn with_attribute(self, attribute: String) -> (r: Self)
        ensures
            r.attributes@ == self.attributes@.push(attribute),
            r.primary == self.primary,
    {
        let mut c = self;
        c.attributes.push(attribute);
        c
    }
}

/// Annotation kind.
#[derive(Debug, Clone, Copy, PartialEq, Eq, Structural, Hash)]
pub enum AnnotationType {
    /// Text note.
    Note,
    /// Label/tag.
    Label,
    /// Marker.
    Marker,
    /// Review comment.
    Comment,
    /// AI-generated.
    AIGenerated,
    /// Quality issue.
    Issue,
    /// Approval.
    Approval,
}

/// A custom annotation attached to a frame.
#[derive(Debug, Clone)]
pub struct Annotation {
    /// Annotation kind.
    pub annotation_type: AnnotationType,
    /// Annotation value.
    pub value: String,
    /// Optional region the annotation refers to.
    pub region: Option<BoundingBox>,
    /// Author/source.
    pub author: String,
    /// Timestamp in milliseconds from the start.
    pub timestamp_ms: u64,
}

/// A semantic region of a frame, as a polygon in thousandths.
#[derive(Debug, Clone)]
pub struct SemanticRegion {
    /// Region id.
    pub region_id: u32,
    /// Region type (sky, ground, water and similar).
    pub region_type: String,
    /// Polygon vertices in thousandths.
    pub polygon: Vec<(u32, u32)>,
    /// Relative depth estimate in thousandths (0 near, 1000 far).
    pub depth_permille: u32,
}

impl SemanticRegion {
    /// Creates a region with no vertices at middle depth.
    pub fn new(region_id: u32, region_type: String) -> (r: Self)
        ensures
            r.region_id == region_id,
            r.region_type == region_type,
            r.polygon@.len() == 0,
            r.depth_permille == 500,
    {
        SemanticRegion { region_id, region_type, polygon: Vec::new(), depth_permille: 500 }
    }

    /// Appends a polygon vertex.
    pub fn add_vertex(&mut self, x: u32, y: u32)
        ensures
            final(self).polygon@ == old(self).polygon@.push((x, y)),
            *final(self) == (SemanticRegion { polygon: final(self).polygon, ..*old(self) }),
    {
        self.polygon.push((x, y));
    }

    /// Sets the depth estimate.
    pub fn with_depth(self, depth_permille: u32) -> (r: Self)
        ensures
            r == (SemanticRegion { depth_permille, ..self }),
    {
        SemanticRegion { depth_permille, ..self }
    }
}

/// Frame-level drill-down metadata.
#[derive(Debug, Clone)]
pub struct FrameMetadata {
    /// Frame number.
    pub frame_number: u64,
    /// Object detections.
    pub objects: Vec<ObjectDetection>,
    /// Scene classification.
    pub scene: SceneClassification,
    /// Generated description, if any.
    pub description: Option<String>,
    /// Custom annotations.
    pub annotations: Vec<Annotation>,
    /// Semantic regions.
    pub regions: Vec<SemanticRegion>,
}

impl FrameMetadata {
    /// Creates empty metadata for a frame.
    pub fn new(frame_number: u64) -> (r: Self)
        ensures
            r.frame_number == frame_number,
            r.objects@.len() == 0,
            r.description is None,
            r.annotations@.len() == 0,
            r.regions@.len() == 0,
    {
        FrameMetadata {
            frame_number,
            objects: Vec::new(),
            scene: SceneClassification::new(String::new(), 0),
            description: None,
            annotations: Vec::new(),
            regions: Vec::new(),
        }
    }

    /// Appends an object detection.
    pub fn add_object(&mut self, object: ObjectDetection)
        ensures
            final(self).objects@ == old(self).objects@.push(object),
            *final(self) == (FrameMetadata { objects: final(self).objects, ..*old(self) }),
    {
        self.objects.push(object);
    }

    /// Replaces the scene classification.
    pub fn set_scene(&mut self, scene: SceneClassification)
        ensures
            *final(self) == (FrameMetadata { scene, ..*old(self) }),
    {
        self.scene = scene;
    }

    /// Appends an annotation.
    pub fn add_annotation(&mut self, annotation: Annotation)
        ensures
            final(self).annotations@ == old(self).annotations@.push(annotation),
            *final(self) == (FrameMetadata { annotations: final(self).annotations, ..*old(self) }),
    {
        self.annotations.push(annotation);
    }
}

/// Index over frame metadata: frame byte offsets, per-object frame lists
/// and scene transitions.
#[derive(Debug, Clone)]
pub struct MetadataIndex {
    frame_offsets: Vec<(u64, u64)>,
    object_index: Vec<(u64, Vec<u64>)>,
    scene_transitions: Vec<(u64, String)>,
}

impl MetadataIndex {
    /// The frame-to-offset pairs.
    pub closed spec fn spec_frame_offsets(self) -> Seq<(u64, u64)> {
        self.frame_offsets@
    }

    /// The per-object frame lists.
    pub closed spec fn spec_object_index(self) -> Seq<(u64, Vec<u64>)> {
        self.object_index@
    }

    /// The scene transitions.
    pub closed spec fn spec_scene_transitions(self) -> Seq<(u64, String)> {
        self.scene_transitions@
    }

    /// Creates an empty index.
    pub fn new() -> (r: Self)
        ensures
            r.spec_frame_offsets().len() == 0,
            r.spec_object_index().len() == 0,
            r.spec_scene_transitions().len() == 0,
    {
        MetadataIndex {
            frame_offsets: Vec::new(),
            object_index: Vec::new(),
            scene_transitions: Vec::new(),
        }
    }

    /// Records the byte offset of a frame's metadata.
    pub fn add_frame(&mut self, frame: u64, offset: u64)
        ensures
            final(self).spec_frame_offsets() == old(self).spec_frame_offsets().push(
                (frame, offset),
            ),
            final(self).spec_object_index() == old(self).spec_object_index(),
            final(self).spec_scene_transitions() == old(self).spec_scene_transitions(),
    {
        self.frame_offsets.push((frame, offset));
    }

    /// Records that an object appears in a frame: the frame is appended
    /// to the object's existing list, or a fresh entry is made for a new
    /// object id.
    pub fn track_object(&mut self, object_id: u64, frame: u64)
        ensures
            final(self).spec_frame_offsets() == old(self).spec_frame_offsets(),
            final(self).spec_scene_transitions() == old(self).spec_scene_transitions(),
            (exists|i: int|
                0 <= i < old(self).spec_object_index().len() && (#[trigger] old(self).spec_object_index()[i]).0 == object_id) ==> exists|k: int|
                #![trigger old(self).spec_object_index()[k]]
                0 <= k < old(self).spec_object_index().len() && old(self).spec_object_index()[k].0
                    == object_id && final(self).spec_object_index().len() == old(self).spec_object_index().len() && final(self).spec_object_index()[k].0 == object_id
                    && final(self).spec_object_index()[k].1@ == old(self).spec_object_index()[k].1@.push(frame),
            (forall|i: int|
                0 <= i < old(self).spec_object_index().len() ==> (#[trigger] old(self).spec_object_index()[i]).0 != object_id) ==> final(self).spec_object_index().len()
                == old(self).spec_object_index().len() + 1 && final(self).spec_object_index().last().0 == object_id && final(self).spec_object_index().last().1@ == seq![frame],
    {
        let mut i: usize = 0;
        while i < self.object_index.len()
            invariant
                0 <= i <= self.object_index@.len(),
                forall|k: int| 0 <= k < i ==> (#[trigger] self.object_index@[k]).0 != object_id,
                self == old(self),
            decreases self.object_index@.len() - i,
        {
            if self.object_index[i].0 == object_id {
                let entry = &mut self.object_index[i];
                entry.1.push(frame);
                proof {
                    assert(old(self).spec_object_index()[i as int].0 == object_id);
                    assert(self.spec_object_index()[i as int].0 == object_id);
                }
                return ;
            }
            i = i + 1;
        }
        let mut frames: Vec<u64> = Vec::new();
        frames.push(frame);
        proof {
            assert(frames@ =~= seq![frame]);
        }
        self.object_index.push((object_id, frames));
    }

    /// Records a scene transition at a frame.
    pub fn add_scene_transition(&mut self, frame: u64, scene: String)
        ensures
            final(self).spec_scene_transitions() == old(self).spec_scene_transitions().push(
                (frame, scene),
            ),
            final(self).spec_frame_offsets() == old(self).spec_frame_offsets(),
            final(self).spec_object_index() == old(self).spec_object_index(),
    {
        self.scene_transitions.push((frame, scene));
    }

    /// Returns the frames an object appears in, or `None` for an unknown
    /// object id.
    pub fn frames_with_object(&self, object_id: u64) -> (r: Option<&Vec<u64>>)
        ensures
            r is None ==> forall|i: int|
                0 <= i < self.spec_object_index().len() ==> (
                #[trigger] self.spec_object_index()[i]).0 != object_id,
            r is Some ==> exists|k: int|
                #![trigger self.spec_object_index()[k]]
                0 <= k < self.spec_object_index().len() && self.spec_object_index()[k].0
                    == object_id && r->0@ == self.spec_object_index()[k].1@,
    {
        let mut i: usize = 0;
        while i < self.object_index.len()
            invariant
                0 <= i <= self.object_index@.len(),
                forall|k: int| 0 <= k < i ==> (#[trigger] self.spec_object_index()[k]).0 != object_id,
            decreases self.object_index@.len() - i,
        {
            if self.object_index[i].0 == object_id {
                let res = &self.object_index[i].1;
                proof {
                    assert(self.spec_object_index()[i as int].0 == object_id);
                    assert(res@ == self.spec_object_index()[i as int].1@);
                }
                return Some(res);
            }
            i = i + 1;
        }
        None
    }

    /// Returns the scene transitions.
    pub fn scene_transitions(&self) -> (r: &Vec<(u64, String)>)
        ensures
            r@ == self.spec_scene_transitions(),
    {
        &self.scene_transitions
    }
}

impl Default for MetadataIndex {
    /// The default index is empty.
    fn default() -> (r: Self)
        ensures
            r.spec_frame_offsets().len() == 0,
            r.spec_object_index().len() == 0,
            r.spec_scene_transitions().len() == 0,
    {
        MetadataIndex::new()
    }
}

} // verus!
