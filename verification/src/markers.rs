//! Timeline markers and chapters: typed, taggable positions kept ordered,
//! with filtering and navigation.

use crate::core_types::{TimePosition, Timestamp};
use crate::errors::{VideoEditorError, VideoEditorResult};
use crate::text::{lower_of, lowercase, spec_contains_seq, str_contains, str_eq};
use vstd::prelude::*;

verus! {

/// Unique identifier for a marker.
#[derive(Debug, Clone, Copy, PartialEq, Eq, Structural, Hash)]
pub struct MarkerId(pub u64);

impl MarkerId {
    /// Creates a new marker id.
    pub fn new(id: u64) -> (r: Self)
        ensures
            r.0 == id,
    {
        MarkerId(id)
    }

    /// Returns the inner id value.
    pub fn inner(&self) -> (r: u64)
        ensures
            r == self.0,
    {
        self.0
    }
}

/// Marker kind.
#[derive(Debug, Clone, Copy, PartialEq, Eq, Structural, Hash)]
pub enum MarkerType {
    /// General marker.
    Standard,
    /// Chapter marker (for export).
    Chapter,
    /// Sync point (for audio sync).
    SyncPoint,
    /// Comment/note marker.
    Comment,
    /// To-do item.
    Todo,
    /// Approved marker.
    Approved,
    /// Needs-review marker.
    NeedsReview,
    /// In point marker.
    InPoint,
    /// Out point marker.
    OutPoint,
    /// Beat marker (for music sync).
    Beat,
    /// Cue point (for live events).
    Cue,
}

impl MarkerType {
    /// Returns the display name.
    pub fn display_name(&self) -> (r: &'static str)
        ensures
            self is Standard ==> r@ == "Marker"@,
            self is Chapter ==> r@ == "Chapter"@,
            self is SyncPoint ==> r@ == "Sync Point"@,
            self is Comment ==> r@ == "Comment"@,
            self is Todo ==> r@ == "To-Do"@,
            self is Approved ==> r@ == "Approved"@,
            self is NeedsReview ==> r@ == "Needs Review"@,
            self is InPoint ==> r@ == "In Point"@,
            self is OutPoint ==> r@ == "Out Point"@,
            self is Beat ==> r@ == "Beat"@,
            self is Cue ==> r@ == "Cue"@,
    {
        match self {
            MarkerType::Standard => "Marker",
            MarkerType::Chapter => "Chapter",
            MarkerType::SyncPoint => "Sync Point",
            MarkerType::Comment => "Comment",
            MarkerType::Todo => "To-Do",
            MarkerType::Approved => "Approved",
            MarkerType::NeedsReview => "Needs Review",
            MarkerType::InPoint => "In Point",
            MarkerType::OutPoint => "Out Point",
            MarkerType::Beat => "Beat",
            MarkerType::Cue => "Cue",
        }
    }

    /// Returns the default display color as RGBA in thousandths.
    pub fn default_color(&self) -> (r: [u16; 4])
        ensures
            self is Standard ==> r@ == seq![200u16, 600u16, 1000u16, 1000u16],
            self is Chapter ==> r@ == seq![200u16, 800u16, 200u16, 1000u16],
            self is SyncPoint ==> r@ == seq![1000u16, 500u16, 0u16, 1000u16],
            self is Comment ==> r@ == seq![1000u16, 1000u16, 200u16, 1000u16],
            self is Todo ==> r@ == seq![1000u16, 200u16, 200u16, 1000u16],
            self is Approved ==> r@ == seq![200u16, 900u16, 500u16, 1000u16],
            self is NeedsReview ==> r@ == seq![900u16, 600u16, 100u16, 1000u16],
            self is InPoint ==> r@ == seq![0u16, 1000u16, 500u16, 1000u16],
            self is OutPoint ==> r@ == seq![1000u16, 0u16, 500u16, 1000u16],
            self is Beat ==> r@ == seq![800u16, 200u16, 800u16, 1000u16],
            self is Cue ==> r@ == seq![500u16, 500u16, 1000u16, 1000u16],
    {
        match self {
            MarkerType::Standard => [200, 600, 1000, 1000],
            MarkerType::Chapter => [200, 800, 200, 1000],
            MarkerType::SyncPoint => [1000, 500, 0, 1000],
            MarkerType::Comment => [1000, 1000, 200, 1000],
            MarkerType::Todo => [1000, 200, 200, 1000],
            MarkerType::Approved => [200, 900, 500, 1000],
            MarkerType::NeedsReview => [900, 600, 100, 1000],
            MarkerType::InPoint => [0, 1000, 500, 1000],
            MarkerType::OutPoint => [1000, 0, 500, 1000],
            MarkerType::Beat => [800, 200, 800, 1000],
            MarkerType::Cue => [500, 500, 1000, 1000],
        }
    }
}

impl Default for MarkerType {
    /// The default marker type is standard.
    fn default() -> (r: Self)
        ensures
            r is Standard,
    {
        MarkerType::Standard
    }
}

/// A marker on the timeline. A zero duration makes a point marker; a
/// positive one makes a range marker.
#[derive(Debug, Clone)]
pub struct Marker {
    /// Unique identifier.
    pub id: MarkerId,
    /// Time position.
    pub position: TimePosition,
    /// Duration: zero for point markers.
    pub duration: TimePosition,
    /// Marker type.
    pub marker_type: MarkerType,
    /// Marker name/label.
    pub name: String,
    /// Comment/description.
    pub comment: String,
    /// Color override as RGBA in thousandths.
    pub color: Option<[u16; 4]>,
    /// Tags for filtering.
    pub tags: Vec<String>,
    /// Whether the marker is locked against editing.
    pub locked: bool,
    /// Creation timestamp.
    pub created_at: Timestamp,
    /// Last modified timestamp.
    pub modified_at: Timestamp,
    /// Author/creator.
    pub author: Option<String>,
}

/// Some tag of the marker reads exactly like the given text.
pub open spec fn spec_has_tag(tags: Seq<String>, tag: Seq<char>) -> bool {
    exists|i: int| 0 <= i < tags.len() && (#[trigger] tags[i])@ == tag
}

impl Marker {
    /// Creates an unlocked, untagged point marker with empty texts; the
    /// creation and modification times are read from the clock.
    pub fn new(id: MarkerId, position: TimePosition, marker_type: MarkerType) -> (r: Self)
        ensures
            r.id == id,
            r.position == position,
            r.duration.ms == 0,
            r.marker_type == marker_type,
            r.name@.len() == 0,
            r.comment@.len() == 0,
            r.color is None,
            r.tags@.len() == 0,
            !r.locked,
            r.author is None,
    {
        let now = Timestamp::now();
        Marker {
            id,
            position,
            duration: TimePosition::from_ms(0),
            marker_type,
            name: String::new(),
            comment: String::new(),
            color: None,
            tags: Vec::new(),
            locked: false,
            created_at: now,
            modified_at: now,
            author: None,
        }
    }

    /// Creates a chapter marker with the given name.
    pub fn chapter(id: MarkerId, position: TimePosition, name: String) -> (r: Self)
        ensures
            r.id == id,
            r.position == position,
            r.duration.ms == 0,
            r.marker_type is Chapter,
            r.name == name,
            r.tags@.len() == 0,
            !r.locked,
    {
        let mut marker = Marker::new(id, position, MarkerType::Chapter);
        marker.name = name;
        marker
    }

    /// Creates a comment marker with the given comment text.
    pub fn with_comment(id: MarkerId, position: TimePosition, comment: String) -> (r: Self)
        ensures
            r.id == id,
            r.position == position,
            r.marker_type is Comment,
            r.comment == comment,
            !r.locked,
    {
        let mut marker = Marker::new(id, position, MarkerType::Comment);
        marker.comment = comment;
        marker
    }

    /// Moves the marker, unless it is locked; moving touches the
    /// modification time.
    pub fn set_position(&mut self, position: TimePosition)
        ensures
            old(self).locked ==> *final(self) == *old(self),
            !old(self).locked ==> *final(self) == (Marker {
                position,
                modified_at: final(self).modified_at,
                ..*old(self)
            }),
    {
        if !self.locked {
            self.position = position;
            self.modified_at = Timestamp::now();
        }
    }

    /// Changes the duration, unless the marker is locked.
    pub fn set_duration(&mut self, duration: TimePosition)
        ensures
            old(self).locked ==> *final(self) == *old(self),
            !old(self).locked ==> *final(self) == (Marker {
                duration,
                modified_at: final(self).modified_at,
                ..*old(self)
            }),
    {
        if !self.locked {
            self.duration = duration;
            self.modified_at = Timestamp::now();
        }
    }

    /// Returns whether this is a range marker.
    pub fn is_range(&self) -> (r: bool)
        ensures
            r == (self.duration.ms > 0),
    {
        self.duration.ms > 0
    }

    /// Returns the end position of the range.
    pub fn end_position(&self) -> (r: TimePosition)
        requires
            self.position.ms + self.duration.ms <= u64::MAX,
        ensures
            r.ms == self.position.ms + self.duration.ms,
    {
        TimePosition::from_ms(self.position.ms + self.duration.ms)
    }

    /// Changes the marker type, touching the modification time.
    pub fn set_marker_type(&mut self, marker_type: MarkerType)
        ensures
            *final(self) == (Marker {
                marker_type,
                modified_at: final(self).modified_at,
                ..*old(self)
            }),
    {
        self.marker_type = marker_type;
        self.modified_at = Timestamp::now();
    }

    /// Changes the name, touching the modification time.
    pub fn set_name(&mut self, name: String)
        ensures
            *final(self) == (Marker { name, modified_at: final(self).modified_at, ..*old(self) }),
    {
        self.name = name;
        self.modified_at = Timestamp::now();
    }

    /// Changes the comment, touching the modification time.
    pub fn set_comment(&mut self, comment: String)
        ensures
            *final(self) == (Marker {
                comment,
                modified_at: final(self).modified_at,
                ..*old(self)
            }),
    {
        self.comment = comment;
        self.modified_at = Timestamp::now();
    }

    /// Returns the display color: the override if set, else the type's
    /// default.
    pub fn color(&self) -> (r: [u16; 4])
        ensures
            self.color is Some ==> r == self.color->0,
            self.color is None && self.marker_type is Standard ==> r@ == seq![
                200u16,
                600u16,
                1000u16,
                1000u16,
            ],
    {
        match self.color {
            Some(c) => c,
            None => self.marker_type.default_color(),
        }
    }

    /// Adds a tag unless an identical one is already present.
    pub fn add_tag(&mut self, tag: String)
        ensures
            spec_has_tag(old(self).tags@, tag@) ==> *final(self) == *old(self),
            !spec_has_tag(old(self).tags@, tag@) ==> final(self).tags@ == old(self).tags@.push(tag)
                && *final(self) == (Marker { tags: final(self).tags, ..*old(self) }),
    {
        let mut i: usize = 0;
        while i < self.tags.len()
            invariant
                0 <= i <= self.tags@.len(),
                forall|k: int| 0 <= k < i ==> (#[trigger] self.tags@[k])@ != tag@,
                self == old(self),
            decreases self.tags@.len() - i,
        {
            if str_eq(self.tags[i].as_str(), tag.as_str()) {
                return ;
            }
            i = i + 1;
        }
        self.tags.push(tag);
    }

    /// Removes the first tag reading like the given text; returns whether
    /// one was removed.
    pub fn remove_tag(&mut self, tag: &str) -> (r: bool)
        ensures
            !r ==> *final(self) == *old(self) && !spec_has_tag(old(self).tags@, tag@),
            r ==> exists|k: int|
                0 <= k < old(self).tags@.len() && (#[trigger] old(self).tags@[k])@ == tag@ && final(self).tags@ == old(self).tags@.remove(k),
    {
        let mut i: usize = 0;
        while i < self.tags.len()
            invariant
                0 <= i <= self.tags@.len(),
                forall|k: int| 0 <= k < i ==> (#[trigger] self.tags@[k])@ != tag@,
                self == old(self),
            decreases self.tags@.len() - i,
        {
            if str_eq(self.tags[i].as_str(), tag) {
                self.tags.remove(i);
                return true;
            }
            i = i + 1;
        }
        false
    }

    /// Returns whether the marker carries a tag reading like the given
    /// text.
    pub fn has_tag(&self, tag: &str) -> (r: bool)
        ensures
            r == spec_has_tag(self.tags@, tag@),
    {
        let mut i: usize = 0;
        while i < self.tags.len()
            invariant
                0 <= i <= self.tags@.len(),
                forall|k: int| 0 <= k < i ==> (#[trigger] self.tags@[k])@ != tag@,
            decreases self.tags@.len() - i,
        {
            if str_eq(self.tags[i].as_str(), tag) {
                return true;
            }
            i = i + 1;
        }
        false
    }

    /// Sets the locked state.
    pub fn set_locked(&mut self, locked: bool)
        ensures
            *final(self) == (Marker { locked, ..*old(self) }),
    {
        self.locked = locked;
    }

    /// A range marker contains positions in its half-open range; a point
    /// marker contains exactly its own position.
    pub fn contains(&self, position: TimePosition) -> (r: bool)
        requires
            self.position.ms + self.duration.ms <= u64::MAX,
        ensures
            self.duration.ms > 0 ==> r == (self.position.ms <= position.ms < self.position.ms
                + self.duration.ms),
            self.duration.ms == 0 ==> r == (position.ms == self.position.ms),
    {
        if self.duration.ms > 0 {
            position.ms >= self.position.ms && position.ms < self.end_position().ms
        } else {
            position.ms == self.position.ms
        }
    }
}

/// Filter criteria for markers.
#[derive(Debug, Clone)]
pub struct MarkerFilter {
    /// Keep only this marker type.
    pub marker_type: Option<MarkerType>,
    /// Keep only markers carrying this tag.
    pub tag: Option<String>,
    /// Keep only markers by this author.
    pub author: Option<String>,
    /// Keep only markers at or after this position.
    pub range_start: Option<TimePosition>,
    /// Keep only markers at or before this position.
    pub range_end: Option<TimePosition>,
    /// Include locked markers.
    pub include_locked: bool,
    /// Keep only markers whose lowercased name or comment contains this
    /// text, lowercased.
    pub search_text: Option<String>,
}

/// The filter accepts the marker: every set criterion holds of it.
pub open spec fn spec_marker_matches(f: MarkerFilter, m: Marker) -> bool {
    &&& (f.marker_type is Some ==> m.marker_type == f.marker_type->0)
    &&& (f.tag is Some ==> spec_has_tag(m.tags@, f.tag->0@))
    &&& (f.author is Some ==> m.author is Some && m.author->0@ == f.author->0@)
    &&& (f.range_start is Some ==> m.position.ms >= f.range_start->0.ms)
    &&& (f.range_end is Some ==> m.position.ms <= f.range_end->0.ms)
    &&& (!f.include_locked ==> !m.locked)
    &&& (f.search_text is Some ==> spec_contains_seq(
        lower_of(m.name@),
        lower_of(f.search_text->0@),
    ) || spec_contains_seq(lower_of(m.comment@), lower_of(f.search_text->0@)))
}

impl MarkerFilter {
    /// Creates a filter that accepts every marker, locked ones included.
    pub fn new() -> (r: Self)
        ensures
            r.marker_type is None,
            r.tag is None,
            r.author is None,
            r.range_start is None,
            r.range_end is None,
            r.include_locked,
            r.search_text is None,
    {
        MarkerFilter {
            marker_type: None,
            tag: None,
            author: None,
            range_start: None,
            range_end: None,
            include_locked: true,
            search_text: None,
        }
    }

    /// Restricts the filter to one marker type.
    pub fn with_type(self, marker_type: MarkerType) -> (r: Self)
        ensures
            r == (MarkerFilter { marker_type: Some(marker_type), ..self }),
    {
        MarkerFilter { marker_type: Some(marker_type), ..self }
    }

    /// Restricts the filter to markers carrying a tag.
    pub fn with_tag(self, tag: String) -> (r: Self)
        ensures
            r == (MarkerFilter { tag: Some(tag), ..self }),
    {
        MarkerFilter { tag: Some(tag), ..self }
    }

    /// Restricts the filter to a closed time range.
    pub fn with_range(self, start: TimePosition, end: TimePosition) -> (r: Self)
        ensures
            r == (MarkerFilter { range_start: Some(start), range_end: Some(end), ..self }),
    {
        MarkerFilter { range_start: Some(start), range_end: Some(end), ..self }
    }

    /// Checks whether a marker passes every set criterion of the filter.
    pub fn matches(&self, marker: &Marker) -> (r: bool)
        ensures
            r == spec_marker_matches(*self, *marker),
    {
        match &self.marker_type {
            Some(mt) => {
                if marker.marker_type != *mt {
                    return false;
                }
            },
            None => {},
        }
        match &self.tag {
            Some(tag) => {
                if !marker.has_tag(tag.as_str()) {
                    return false;
                }
            },
            None => {},
        }
        match &self.author {
            Some(author) => {
                match &marker.author {
                    Some(a) => {
                        if !str_eq(a.as_str(), author.as_str()) {
                            return false;
                        }
                    },
                    None => {
                        return false;
                    },
                }
            },
            None => {},
        }
        match self.range_start {
            Some(start) => {
                if marker.position.ms < start.ms {
                    return false;
                }
            },
            None => {},
        }
        match self.range_end {
            Some(end) => {
                if marker.position.ms > end.ms {
                    return false;
                }
            },
            None => {},
        }
        if !self.include_locked && marker.locked {
            return false;
        }
        match &self.search_text {
            Some(search) => {
                let search_lower = lowercase(search.as_str());
                let name_lower = lowercase(marker.name.as_str());
                let comment_lower = lowercase(marker.comment.as_str());
                let name_match = str_contains(name_lower.as_str(), search_lower.as_str());
                let comment_match = str_contains(comment_lower.as_str(), search_lower.as_str());
                if !name_match && !comment_match {
                    return false;
                }
            },
            None => {},
        }
        true
    }
}

impl Default for MarkerFilter {
    /// The default filter accepts unlocked markers of every kind and
    /// excludes none but locked ones.
    fn default() -> (r: Self)
        ensures
            r.marker_type is None,
            r.tag is None,
            r.author is None,
            r.range_start is None,
            r.range_end is None,
            !r.include_locked,
            r.search_text is None,
    {
        MarkerFilter {
            marker_type: None,
            tag: None,
            author: None,
            range_start: None,
            range_end: None,
            include_locked: false,
            search_text: None,
        }
    }
}

/// Markers are ordered by position.
pub open spec fn markers_sorted(s: Seq<Marker>) -> bool {
    forall|i: int, j: int|
        0 <= i < j < s.len() ==> (#[trigger] s[i]).position.ms <= (#[trigger] s[j]).position.ms
}

/// Manager for timeline markers, kept ordered by position.
pub struct MarkerManager {
    markers: Vec<Marker>,
    next_id: u64,
    known_tags: Vec<String>,
    selection: Vec<MarkerId>,
}

impl MarkerManager {
    /// The markers, ordered by position.
    pub closed spec fn spec_markers(self) -> Seq<Marker> {
        self.markers@
    }

    /// The next marker id to be handed out.
    pub closed spec fn spec_next_id(self) -> u64 {
        self.next_id
    }

    /// The registered tags.
    pub closed spec fn spec_known_tags(self) -> Seq<String> {
        self.known_tags@
    }

    /// The selected marker ids.
    pub closed spec fn spec_selection(self) -> Seq<MarkerId> {
        self.selection@
    }

    /// Creates an empty manager.
    pub fn new() -> (r: Self)
        ensures
            r.spec_markers().len() == 0,
            r.spec_next_id() == 1,
            r.spec_known_tags().len() == 0,
            r.spec_selection().len() == 0,
    {
        MarkerManager {
            markers: Vec::new(),
            next_id: 1,
            known_tags: Vec::new(),
            selection: Vec::new(),
        }
    }

    /// Inserts a marker at its sorted position: before the first marker
    /// that sits strictly later, hence after every marker at an equal
    /// position.
    fn insert_sorted(&mut self, marker: Marker)
        requires
            markers_sorted(old(self).spec_markers()),
        ensures
            exists|k: int|
                #![trigger old(self).spec_markers().insert(k, marker)]
                0 <= k <= old(self).spec_markers().len() && final(self).spec_markers() == old(self).spec_markers().insert(k, marker) && (forall|j: int|
                    0 <= j < k ==> (#[trigger] old(self).spec_markers()[j]).position.ms
                        <= marker.position.ms) && (k < old(self).spec_markers().len() ==> old(self).spec_markers()[k].position.ms > marker.position.ms),
            markers_sorted(final(self).spec_markers()),
            final(self).spec_next_id() == old(self).spec_next_id(),
            final(self).spec_known_tags() == old(self).spec_known_tags(),
            final(self).spec_selection() == old(self).spec_selection(),
    {
        let mut pos: usize = 0;
        while pos < self.markers.len() && self.markers[pos].position.ms <= marker.position.ms
            invariant
                0 <= pos <= self.markers@.len(),
                forall|i: int|
                    0 <= i < pos ==> (#[trigger] self.markers@[i]).position.ms
                        <= marker.position.ms,
                self == old(self),
                markers_sorted(old(self).spec_markers()),
            decreases self.markers@.len() - pos,
        {
            pos = pos + 1;
        }
        self.markers.insert(pos, marker);
        proof {
            let s = old(self).spec_markers();
            let t = self.markers@;
            assert(t == s.insert(pos as int, marker));
            assert(forall|x: int| 0 <= x < pos ==> #[trigger] t[x] == s[x]);
            assert(forall|x: int| pos < x < t.len() ==> #[trigger] t[x] == s[x - 1]);
            assert(t[pos as int] == marker);
            assert forall|i: int, j: int| 0 <= i < j < t.len() implies (
            #[trigger] t[i]).position.ms <= (#[trigger] t[j]).position.ms by {
                if i < pos && j == pos {
                } else if i == pos && j > pos {
                    assert(t[j] == s[j - 1]);
                    if s[j - 1].position.ms < marker.position.ms {
                        assert(pos < s.len() && s[pos as int].position.ms > marker.position.ms);
                        assert(s[pos as int].position.ms <= s[j - 1].position.ms);
                    }
                } else if i < pos && j > pos {
                    assert(t[i] == s[i] && t[j] == s[j - 1]);
                } else if j < pos {
                    assert(t[i] == s[i] && t[j] == s[j]);
                } else if i > pos {
                    assert(t[i] == s[i - 1] && t[j] == s[j - 1]);
                }
            }
            assert(t == s.insert(pos as int, marker) && (forall|j: int|
                0 <= j < pos ==> (#[trigger] s[j]).position.ms <= marker.position.ms) && (
            pos < s.len() ==> s[pos as int].position.ms > marker.position.ms));
        }
    }

    /// Adds a standard-or-other marker at a position under a fresh id,
    /// keeping the markers ordered, and returns the id.
    pub fn add_marker(&mut self, position: TimePosition, marker_type: MarkerType) -> (r: MarkerId)
        requires
            old(self).spec_next_id() < u64::MAX,
            markers_sorted(old(self).spec_markers()),
        ensures
            r.0 == old(self).spec_next_id(),
            final(self).spec_next_id() == old(self).spec_next_id() + 1,
            markers_sorted(final(self).spec_markers()),
            exists|k: int|
                #![trigger final(self).spec_markers()[k]]
                0 <= k <= old(self).spec_markers().len() && final(self).spec_markers() == old(self).spec_markers().insert(k, final(self).spec_markers()[k]) && (forall|j: int|
                    0 <= j < k ==> (#[trigger] old(self).spec_markers()[j]).position.ms
                        <= position.ms) && (k < old(self).spec_markers().len() ==> old(self).spec_markers()[k].position.ms > position.ms) && ({
                    let m = final(self).spec_markers()[k];
                    &&& m.id == r
                    &&& m.position == position
                    &&& m.marker_type == marker_type
                    &&& m.duration.ms == 0
                    &&& !m.locked
                }),
            final(self).spec_selection() == old(self).spec_selection(),
    {
        let id = MarkerId::new(self.next_id);
        self.next_id = self.next_id + 1;
        let marker = Marker::new(id, position, marker_type);
        let ghost m = marker;
        let ghost pre = self.spec_markers();
        self.insert_sorted(marker);
        proof {
            let k = choose|k: int|
                #![trigger pre.insert(k, m)]
                0 <= k <= pre.len() && self.spec_markers() == pre.insert(k, m) && (forall|j: int|
                    0 <= j < k ==> (#[trigger] pre[j]).position.ms <= m.position.ms) && (k
                    < pre.len() ==> pre[k].position.ms > m.position.ms);
            assert(self.spec_markers()[k] == m);
        }
        id
    }

    /// Adds a chapter marker with a name at a position under a fresh id,
    /// keeping the markers ordered, and returns the id.
    pub fn add_chapter(&mut self, position: TimePosition, name: String) -> (r: MarkerId)
        requires
            old(self).spec_next_id() < u64::MAX,
            markers_sorted(old(self).spec_markers()),
        ensures
            r.0 == old(self).spec_next_id(),
            final(self).spec_next_id() == old(self).spec_next_id() + 1,
            markers_sorted(final(self).spec_markers()),
            exists|k: int|
                #![trigger final(self).spec_markers()[k]]
                0 <= k <= old(self).spec_markers().len() && final(self).spec_markers() == old(self).spec_markers().insert(k, final(self).spec_markers()[k]) && (forall|j: int|
                    0 <= j < k ==> (#[trigger] old(self).spec_markers()[j]).position.ms
                        <= position.ms) && (k < old(self).spec_markers().len() ==> old(self).spec_markers()[k].position.ms > position.ms) && ({
                    let m = final(self).spec_markers()[k];
                    &&& m.id == r
                    &&& m.position == position
                    &&& m.marker_type is Chapter
                    &&& m.name == name
                }),
    {
        let id = MarkerId::new(self.next_id);
        self.next_id = self.next_id + 1;
        let marker = Marker::chapter(id, position, name);
        let ghost m = marker;
        let ghost pre = self.spec_markers();
        self.insert_sorted(marker);
        proof {
            let k = choose|k: int|
                #![trigger pre.insert(k, m)]
                0 <= k <= pre.len() && self.spec_markers() == pre.insert(k, m) && (forall|j: int|
                    0 <= j < k ==> (#[trigger] pre[j]).position.ms <= m.position.ms) && (k
                    < pre.len() ==> pre[k].position.ms > m.position.ms);
            assert(self.spec_markers()[k] == m);
        }
        id
    }

    /// Removes a marker by id; a locked marker and an unknown id are
    /// refused. Removal also deselects the marker. Returns whether the
    /// marker was removed.
    #[verifier::spinoff_prover]
    #[verifier::rlimit(100)]
    pub fn remove_marker(&mut self, id: MarkerId) -> (r: bool)
        ensures
            !r ==> *final(self) == *old(self),
            r <==> exists|k: int|
                #![trigger old(self).spec_markers()[k]]
                0 <= k < old(self).spec_markers().len() && old(self).spec_markers()[k].id == id
                    && !old(self).spec_markers()[k].locked && forall|j: int|
                    0 <= j < k ==> (#[trigger] old(self).spec_markers()[j]).id != id,
            r ==> exists|k: int|
                0 <= k < old(self).spec_markers().len() && (#[trigger] old(self).spec_markers()[k]).id == id && !old(self).spec_markers()[k].locked && final(self).spec_markers() == old(self).spec_markers().remove(k),
            final(self).spec_next_id() == old(self).spec_next_id(),
            markers_sorted(old(self).spec_markers()) ==> markers_sorted(final(self).spec_markers()),
    {
        let mut i: usize = 0;
        while i < self.markers.len()
            invariant
                0 <= i <= self.markers@.len(),
                forall|k: int| 0 <= k < i ==> (#[trigger] self.markers@[k]).id != id,
                self == old(self),
            decreases self.markers@.len() - i,
        {
            if self.markers[i].id.0 == id.0 {
                if self.markers[i].locked {
                    proof {
                        assert forall|k: int|
                            0 <= k < old(self).spec_markers().len() && old(self).spec_markers()[
                                k
                            ].id == id && (forall|j: int|
                                0 <= j < k ==> (#[trigger] old(self).spec_markers()[j]).id
                                    != id) implies old(self).spec_markers()[k].locked by {
                            if k < i {
                                assert(old(self).spec_markers()[k].id != id);
                            } else if k > i {
                                assert(old(self).spec_markers()[i as int].id != id);
                            }
                        }
                    }
                    return false;
                }
                proof {
                    assert(forall|j: int|
                        0 <= j < i ==> (#[trigger] old(self).spec_markers()[j]).id != id);
                }
                self.markers.remove(i);
                let mut j: usize = 0;
                while j < self.selection.len()
                    invariant
                        0 <= j <= self.selection@.len(),
                        forall|k: int| 0 <= k < j ==> (#[trigger] self.selection@[k]) != id,
                        self.markers@ == old(self).spec_markers().remove(i as int),
                        self.next_id == old(self).spec_next_id(),
                        self.known_tags == old(self).known_tags,
                    decreases self.selection@.len() - j,
                {
                    if self.selection[j].0 == id.0 {
                        self.selection.remove(j);
                    } else {
                        j = j + 1;
                    }
                }
                proof {
                    if markers_sorted(old(self).spec_markers()) {
                        let s = old(self).spec_markers();
                        let t = self.markers@;
                        assert forall|a: int, b: int| 0 <= a < b < t.len() implies (
                        #[trigger] t[a]).position.ms <= (#[trigger] t[b]).position.ms by {
                            let oa = if a < i { a } else { a + 1 };
                            let ob = if b < i { b } else { b + 1 };
                            assert(t[a] == s[oa] && t[b] == s[ob]);
                        }
                    }
                }
                return true;
            }
            i = i + 1;
        }
        false
    }

    /// Returns a marker by id, or `None` when no marker has the id.
    pub fn get_marker(&self, id: MarkerId) -> (r: Option<&Marker>)
        ensures
            r is None ==> forall|i: int|
                0 <= i < self.spec_markers().len() ==> (#[trigger] self.spec_markers()[i]).id != id,
            r is Some ==> exists|k: int|
                #![trigger self.spec_markers()[k]]
                0 <= k < self.spec_markers().len() && self.spec_markers()[k].id == id && *r->Some_0
                    == self.spec_markers()[k],
    {
        let mut i: usize = 0;
        while i < self.markers.len()
            invariant
                0 <= i <= self.markers@.len(),
                forall|k: int| 0 <= k < i ==> (#[trigger] self.spec_markers()[k]).id != id,
            decreases self.markers@.len() - i,
        {
            if self.markers[i].id.0 == id.0 {
                let res = &self.markers[i];
                proof {
                    assert(self.spec_markers()[i as int].id == id);
                    assert(*res == self.spec_markers()[i as int]);
                }
                return Some(res);
            }
            i = i + 1;
        }
        None
    }

    /// Returns mutable access to a marker by id, or `None`, changing
    /// nothing, when no marker has the id.
    pub fn get_marker_mut(&mut self, id: MarkerId) -> (r: Option<&mut Marker>)
        ensures
            r is None ==> *final(self) == *old(self) && forall|i: int|
                0 <= i < old(self).spec_markers().len() ==> (#[trigger] old(self).spec_markers()[i]).id != id,
            r is Some ==> exists|k: int|
                #![trigger old(self).spec_markers()[k]]
                0 <= k < old(self).spec_markers().len() && old(self).spec_markers()[k].id == id
                    && *r->Some_0 == old(self).spec_markers()[k] && final(self).spec_markers()
                    == old(self).spec_markers().update(k, *final(r->Some_0)) && final(self).spec_next_id() == old(self).spec_next_id() && final(self).spec_selection() == old(self).spec_selection(),
    {
        let mut i: usize = 0;
        while i < self.markers.len()
            invariant
                0 <= i <= self.markers@.len(),
                forall|k: int| 0 <= k < i ==> (#[trigger] self.spec_markers()[k]).id != id,
                self == old(self),
            decreases self.markers@.len() - i,
        {
            if self.markers[i].id.0 == id.0 {
                proof {
                    assert(0 <= i < old(self).spec_markers().len());
                    assert(old(self).spec_markers()[i as int].id == id);
                }
                return Some(&mut self.markers[i]);
            }
            i = i + 1;
        }
        None
    }

    /// Returns all markers in position order.
    pub fn markers(&self) -> (r: &Vec<Marker>)
        ensures
            r@ == self.spec_markers(),
    {
        &self.markers
    }

    /// Returns the markers accepted by a filter, in position order.
    pub fn filter(&self, filter: &MarkerFilter) -> (r: Vec<&Marker>)
        ensures
            forall|a: int| #![trigger r@[a]]
                0 <= a < r@.len() ==> spec_marker_matches(*filter, *r@[a]),
            forall|k: int|
                0 <= k < self.spec_markers().len() && spec_marker_matches(
                    *filter,
                    #[trigger] self.spec_markers()[k],
                ) ==> exists|a: int| 0 <= a < r@.len() && *r@[a] == self.spec_markers()[k],
    {
        let mut out: Vec<&Marker> = Vec::new();
        let mut i: usize = 0;
        while i < self.markers.len()
            invariant
                0 <= i <= self.markers@.len(),
                forall|a: int| #![trigger out@[a]]
                    0 <= a < out@.len() ==> spec_marker_matches(*filter, *out@[a]),
                forall|k: int|
                    0 <= k < i && spec_marker_matches(
                        *filter,
                        #[trigger] self.spec_markers()[k],
                    ) ==> exists|a: int| 0 <= a < out@.len() && *out@[a] == self.spec_markers()[k],
            decreases self.markers@.len() - i,
        {
            let ghost out0 = out@;
            if filter.matches(&self.markers[i]) {
                out.push(&self.markers[i]);
                proof {
                    assert(forall|a: int| 0 <= a < out0.len() ==> #[trigger] out@[a] == out0[a]);
                    assert(*out@[out@.len() - 1] == self.spec_markers()[i as int]);
                    assert forall|a: int| #![trigger out@[a]]
                        0 <= a < out@.len() implies spec_marker_matches(*filter, *out@[a]) by {
                        if a < out@.len() - 1 {
                            assert(out@[a] == out0[a]);
                        } else {
                            assert(*out@[a] == self.spec_markers()[i as int]);
                        }
                    }
                    assert forall|k: int|
                        0 <= k < i + 1 && spec_marker_matches(
                            *filter,
                            #[trigger] self.spec_markers()[k],
                        ) implies exists|a: int|
                        0 <= a < out@.len() && *out@[a] == self.spec_markers()[k] by {
                        if k < i {
                            let a0 = choose|a: int|
                                0 <= a < out0.len() && *out0[a] == self.spec_markers()[k];
                            assert(*out@[a0] == self.spec_markers()[k]);
                        } else {
                            assert(*out@[out@.len() - 1] == self.spec_markers()[k]);
                        }
                    }
                }
            }
            i = i + 1;
        }
        out
    }

    /// Returns the first marker strictly after a position, or `None`.
    pub fn next_marker(&self, position: TimePosition) -> (r: Option<&Marker>)
        ensures
            r is None ==> forall|i: int|
                0 <= i < self.spec_markers().len() ==> (#[trigger] self.spec_markers()[i]).position.ms
                    <= position.ms,
            r is Some ==> exists|k: int|
                #![trigger self.spec_markers()[k]]
                0 <= k < self.spec_markers().len() && *r->Some_0 == self.spec_markers()[k]
                    && self.spec_markers()[k].position.ms > position.ms && forall|i: int|
                    0 <= i < k ==> (#[trigger] self.spec_markers()[i]).position.ms <= position.ms,
    {
        let mut i: usize = 0;
        while i < self.markers.len()
            invariant
                0 <= i <= self.markers@.len(),
                forall|k: int|
                    0 <= k < i ==> (#[trigger] self.spec_markers()[k]).position.ms <= position.ms,
            decreases self.markers@.len() - i,
        {
            if self.markers[i].position.ms > position.ms {
                let res = &self.markers[i];
                proof {
                    assert(*res == self.spec_markers()[i as int]);
                }
                return Some(res);
            }
            i = i + 1;
        }
        None
    }

    /// Returns the last marker strictly before a position, or `None`.
    pub fn prev_marker(&self, position: TimePosition) -> (r: Option<&Marker>)
        ensures
            r is None ==> forall|i: int|
                0 <= i < self.spec_markers().len() ==> (#[trigger] self.spec_markers()[i]).position.ms
                    >= position.ms,
            r is Some ==> exists|k: int|
                #![trigger self.spec_markers()[k]]
                0 <= k < self.spec_markers().len() && *r->Some_0 == self.spec_markers()[k]
                    && self.spec_markers()[k].position.ms < position.ms && forall|i: int|
                    k < i < self.spec_markers().len() ==> (
                    #[trigger] self.spec_markers()[i]).position.ms >= position.ms,
    {
        let mut i: usize = self.markers.len();
        while i > 0
            invariant
                0 <= i <= self.markers@.len(),
                forall|k: int|
                    i <= k < self.spec_markers().len() ==> (
                    #[trigger] self.spec_markers()[k]).position.ms >= position.ms,
            decreases i,
        {
            i = i - 1;
            if self.markers[i].position.ms < position.ms {
                let res = &self.markers[i];
                proof {
                    assert(*res == self.spec_markers()[i as int]);
                }
                return Some(res);
            }
        }
        None
    }

    /// Returns all chapter markers, in position order.
    pub fn chapters(&self) -> (r: Vec<&Marker>)
        ensures
            forall|a: int|
                0 <= a < r@.len() ==> (#[trigger] r@[a]).marker_type is Chapter && exists|k: int|
                    0 <= k < self.spec_markers().len() && *r@[a] == self.spec_markers()[k],
            forall|k: int|
                0 <= k < self.spec_markers().len() && (
                #[trigger] self.spec_markers()[k]).marker_type is Chapter ==> exists|a: int|
                    0 <= a < r@.len() && *r@[a] == self.spec_markers()[k],
    {
        let mut out: Vec<&Marker> = Vec::new();
        let mut i: usize = 0;
        while i < self.markers.len()
            invariant
                0 <= i <= self.markers@.len(),
                forall|a: int|
                    0 <= a < out@.len() ==> (#[trigger] out@[a]).marker_type is Chapter && exists|
                        k: int,
                    | 0 <= k < self.spec_markers().len() && *out@[a] == self.spec_markers()[k],
                forall|k: int|
                    0 <= k < i && (#[trigger] self.spec_markers()[k]).marker_type is Chapter
                        ==> exists|a: int| 0 <= a < out@.len() && *out@[a] == self.spec_markers()[k],
            decreases self.markers@.len() - i,
        {
            let ghost out0 = out@;
            if matches!(self.markers[i].marker_type, MarkerType::Chapter) {
                out.push(&self.markers[i]);
                proof {
                    assert(forall|a: int| 0 <= a < out0.len() ==> #[trigger] out@[a] == out0[a]);
                    assert(*out@[out@.len() - 1] == self.spec_markers()[i as int]);
                    assert forall|a: int|
                        0 <= a < out@.len() implies (#[trigger] out@[a]).marker_type is Chapter
                        && exists|k: int|
                            0 <= k < self.spec_markers().len() && *out@[a]
                                == self.spec_markers()[k] by {
                        if a < out@.len() - 1 {
                            assert(out@[a] == out0[a]);
                            let k0 = choose|k: int|
                                0 <= k < self.spec_markers().len() && *out0[a]
                                    == self.spec_markers()[k];
                            assert(*out@[a] == self.spec_markers()[k0]);
                        } else {
                            assert(*out@[a] == self.spec_markers()[i as int]);
                        }
                    }
                    assert forall|k: int|
                        0 <= k < i + 1 && (
                        #[trigger] self.spec_markers()[k]).marker_type is Chapter implies exists|
                        a: int,
                    | 0 <= a < out@.len() && *out@[a] == self.spec_markers()[k] by {
                        if k < i {
                            let a0 = choose|a: int|
                                0 <= a < out0.len() && *out0[a] == self.spec_markers()[k];
                            assert(*out@[a0] == self.spec_markers()[k]);
                        } else {
                            assert(*out@[out@.len() - 1] == self.spec_markers()[k]);
                        }
                    }
                }
            }
            i = i + 1;
        }
        out
    }

    /// Moves a marker to a new position and touches its modification
    /// time, keeping the markers ordered; an unknown id and a locked
    /// marker are each refused with a timeline error, leaving the manager
    /// unchanged.
    #[verifier::spinoff_prover]
    #[verifier::rlimit(100)]
    pub fn move_marker(&mut self, id: MarkerId, new_position: TimePosition) -> (r: VideoEditorResult<
        (),
    >)
        requires
            markers_sorted(old(self).spec_markers()),
        ensures
            r is Err ==> *final(self) == *old(self),
            r is Err <==> (forall|i: int|
                0 <= i < old(self).spec_markers().len() ==> (#[trigger] old(self).spec_markers()[i]).id != id) || (exists|k: int|
                #![trigger old(self).spec_markers()[k]]
                0 <= k < old(self).spec_markers().len() && old(self).spec_markers()[k].id == id
                    && old(self).spec_markers()[k].locked && forall|j: int|
                    0 <= j < k ==> (#[trigger] old(self).spec_markers()[j]).id != id),
            markers_sorted(final(self).spec_markers()),
            r is Ok ==> exists|k: int, j: int|
                #![trigger old(self).spec_markers()[k], final(self).spec_markers()[j]]
                0 <= k < old(self).spec_markers().len() && old(self).spec_markers()[k].id == id && !old(self).spec_markers()[k].locked && 0 <= j
                    <= old(self).spec_markers().len() - 1 && final(self).spec_markers() == old(self).spec_markers().remove(k).insert(j, final(self).spec_markers()[j]) && final(self).spec_markers()[j] == (Marker {
                    position: new_position,
                    modified_at: final(self).spec_markers()[j].modified_at,
                    ..old(self).spec_markers()[k]
                }),
            final(self).spec_next_id() == old(self).spec_next_id(),
    {
        let mut i: usize = 0;
        while i < self.markers.len()
            invariant
                0 <= i <= self.markers@.len(),
                forall|k: int| 0 <= k < i ==> (#[trigger] self.markers@[k]).id != id,
                self == old(self),
                markers_sorted(old(self).spec_markers()),
            decreases self.markers@.len() - i,
        {
            if self.markers[i].id.0 == id.0 {
                if self.markers[i].locked {
                    proof {
                        assert(forall|j: int|
                            0 <= j < i ==> (#[trigger] old(self).spec_markers()[j]).id != id);
                        assert(old(self).spec_markers()[i as int].locked);
                    }
                    return Err(VideoEditorError::Timeline(String::from_str("Marker is locked")));
                }
                proof {
                    assert forall|k: int|
                        0 <= k < old(self).spec_markers().len() && old(self).spec_markers()[k].id
                            == id && (forall|j: int|
                            0 <= j < k ==> (#[trigger] old(self).spec_markers()[j]).id
                                != id) implies !old(self).spec_markers()[k].locked by {
                        if k < i {
                            assert(old(self).spec_markers()[k].id != id);
                        } else if k > i {
                            assert(old(self).spec_markers()[i as int].id != id);
                        }
                    }
                }
                let mut marker = self.markers.remove(i);
                marker.position = new_position;
                marker.modified_at = Timestamp::now();
                proof {
                    let s = old(self).spec_markers();
                    let t = self.markers@;
                    assert forall|a: int, b: int| 0 <= a < b < t.len() implies (
                    #[trigger] t[a]).position.ms <= (#[trigger] t[b]).position.ms by {
                        let oa = if a < i { a } else { a + 1 };
                        let ob = if b < i { b } else { b + 1 };
                        assert(t[a] == s[oa] && t[b] == s[ob]);
                    }
                }
                let ghost mid = self.markers@;
                let ghost moved = marker;
                self.insert_sorted(marker);
                proof {
                    let j = choose|j: int|
                        0 <= j <= mid.len() && self.spec_markers() == mid.insert(j, moved);
                    assert(self.spec_markers()[j] == moved);
                    assert(0 <= i < old(self).spec_markers().len() && old(self).spec_markers()[i as int].id == id);
                }
                return Ok(());
            }
            i = i + 1;
        }
        Err(VideoEditorError::Timeline(String::from_str("Marker not found")))
    }

    /// Selects a marker id, optionally keeping the current selection; the
    /// id is not added twice.
    pub fn select(&mut self, id: MarkerId, add_to_selection: bool)
        ensures
            final(self).spec_markers() == old(self).spec_markers(),
            final(self).spec_next_id() == old(self).spec_next_id(),
            !add_to_selection ==> final(self).spec_selection() == seq![id],
            add_to_selection ==> ((exists|i: int|
                0 <= i < old(self).spec_selection().len() && old(self).spec_selection()[i] == id)
                ==> final(self).spec_selection() == old(self).spec_selection()),
            add_to_selection ==> ((forall|i: int|
                0 <= i < old(self).spec_selection().len() ==> old(self).spec_selection()[i] != id)
                ==> final(self).spec_selection() == old(self).spec_selection().push(id)),
    {
        if !add_to_selection {
            self.selection.clear();
            self.selection.push(id);
            proof {
                assert(self.selection@ =~= seq![id]);
            }
            return ;
        }
        let mut i: usize = 0;
        while i < self.selection.len()
            invariant
                0 <= i <= self.selection@.len(),
                forall|k: int| 0 <= k < i ==> (#[trigger] self.selection@[k]) != id,
                self == old(self),
                add_to_selection,
            decreases self.selection@.len() - i,
        {
            if self.selection[i].0 == id.0 {
                return ;
            }
            i = i + 1;
        }
        self.selection.push(id);
    }

    /// Deselects a marker id wherever it occurs in the selection.
    pub fn deselect(&mut self, id: MarkerId)
        ensures
            final(self).spec_markers() == old(self).spec_markers(),
            final(self).spec_next_id() == old(self).spec_next_id(),
            forall|i: int|
                0 <= i < final(self).spec_selection().len() ==> (
                #[trigger] final(self).spec_selection()[i]) != id,
    {
        let mut j: usize = 0;
        while j < self.selection.len()
            invariant
                0 <= j <= self.selection@.len(),
                forall|k: int| 0 <= k < j ==> (#[trigger] self.selection@[k]) != id,
                self.markers@ == old(self).spec_markers(),
                self.next_id == old(self).spec_next_id(),
            decreases self.selection@.len() - j,
        {
            if self.selection[j].0 == id.0 {
                self.selection.remove(j);
            } else {
                j = j + 1;
            }
        }
    }

    /// Clears the selection.
    pub fn clear_selection(&mut self)
        ensures
            final(self).spec_markers() == old(self).spec_markers(),
            final(self).spec_next_id() == old(self).spec_next_id(),
            final(self).spec_selection().len() == 0,
    {
        self.selection.clear();
    }

    /// Returns the selected marker ids.
    pub fn selection(&self) -> (r: &Vec<MarkerId>)
        ensures
            r@ == self.spec_selection(),
    {
        &self.selection
    }

    /// Registers a tag for completion unless an identical one is known.
    pub fn register_tag(&mut self, tag: String)
        ensures
            final(self).spec_markers() == old(self).spec_markers(),
            final(self).spec_next_id() == old(self).spec_next_id(),
            spec_has_tag(old(self).spec_known_tags(), tag@) ==> final(self).spec_known_tags()
                == old(self).spec_known_tags(),
            !spec_has_tag(old(self).spec_known_tags(), tag@) ==> final(self).spec_known_tags()
                == old(self).spec_known_tags().push(tag),
    {
        let mut i: usize = 0;
        while i < self.known_tags.len()
            invariant
                0 <= i <= self.known_tags@.len(),
                forall|k: int| 0 <= k < i ==> (#[trigger] self.known_tags@[k])@ != tag@,
                self == old(self),
            decreases self.known_tags@.len() - i,
        {
            if str_eq(self.known_tags[i].as_str(), tag.as_str()) {
                return ;
            }
            i = i + 1;
        }
        self.known_tags.push(tag);
    }

    /// Returns the known tags.
    pub fn known_tags(&self) -> (r: &Vec<String>)
        ensures
            r@ == self.spec_known_tags(),
    {
        &self.known_tags
    }

    /// Returns the number of markers.
    pub fn count(&self) -> (r: usize)
        ensures
            r == self.spec_markers().len(),
    {
        self.markers.len()
    }

    /// Returns the number of chapter markers.
    pub fn chapter_count(&self) -> (r: usize) {
        self.chapters().len()
    }

    /// Removes every unlocked marker and clears the selection; locked
    /// markers stay, in order.
    pub fn clear(&mut self)
        ensures
            final(self).spec_next_id() == old(self).spec_next_id(),
            final(self).spec_selection().len() == 0,
            forall|i: int|
                0 <= i < final(self).spec_markers().len() ==> (
                #[trigger] final(self).spec_markers()[i]).locked,
    {
        let mut kept: Vec<Marker> = Vec::new();
        loop
            invariant
                self.markers@.len() <= old(self).spec_markers().len(),
                self.markers@ == old(self).spec_markers().skip(
                    (old(self).spec_markers().len() - self.markers@.len()) as int,
                ),
                self.next_id == old(self).spec_next_id(),
                forall|a: int| 0 <= a < kept@.len() ==> (#[trigger] kept@[a]).locked,
            ensures
                self.next_id == old(self).spec_next_id(),
                forall|a: int| 0 <= a < kept@.len() ==> (#[trigger] kept@[a]).locked,
            decreases self.markers@.len(),
        {
            if self.markers.len() == 0 {
                break;
            }
            let ghost s = old(self).spec_markers();
            let ghost done = (s.len() - self.markers@.len()) as int;
            let m = self.markers.remove(0);
            proof {
                assert(self.markers@ =~= s.skip(done + 1));
                assert(m == s[done]);
            }
            if m.locked {
                kept.push(m);
            }
        }
        self.markers = kept;
        self.selection.clear();
    }
}

impl Default for MarkerManager {
    /// The default manager is empty.
    fn default() -> (r: Self)
        ensures
            r.spec_markers().len() == 0,
            r.spec_next_id() == 1,
    {
        MarkerManager::new()
    }
}

} // verus!
