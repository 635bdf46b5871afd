use crate::id::ID;
use crate::id::IdSpan;
use crate::status::Status;
use vstd::prelude::*;

verus! {

/// The content kind a span reports, so a generic operation log can store
/// heterogeneous content kinds and dispatch by tag; this layer only ever
/// holds text runs.
#[derive(Clone, Copy, Debug, PartialEq, Eq, Structural)]
pub enum ContentType {
    Text,
}

/// One run of inserted content: the identifier of its first unit, its raw
/// length, the activation status shared by the whole run, and the two causal
/// origin anchors recorded when the run was inserted.
#[derive(Clone, Debug, PartialEq, Eq, Hash, Structural)]
pub struct YSpan {
    pub id: ID,
    pub len: usize,
    pub status: Status,
    pub origin_left: Option<ID>,
    pub origin_right: Option<ID>,
}

impl YSpan {
    /// Well-formed: a non-empty run whose whole counter range
    /// `[id.counter, id.counter + len)` consists of non-negative counters
    /// that fit the counter type.
    pub open spec fn wf(self) -> bool {
        &&& self.len > 0
        &&& self.id.counter >= 0
        &&& self.id.counter + self.len <= i32::MAX
    }

    /// The last identifier covered by this run, inclusive.
    pub open spec fn spec_last_id(self) -> ID {
        self.id.spec_inc(self.len - 1)
    }

    pub fn last_id(&self) -> (r: ID)
        requires
            self.wf(),
        ensures
            r == self.spec_last_id(),
            r.client_id == self.id.client_id,
            r.counter == self.id.counter + self.len - 1,
    {
        self.id.inc(self.len as i32 - 1)
    }

    /// Only active content may be referenced as a new insertion's causal
    /// origin.
    pub fn can_be_origin(&self) -> (r: bool)
        requires
            self.len > 0,
        ensures
            r == self.status.is_active(),
    {
        self.status.is_activated()
    }

    /// Membership of a single identifier in this run: same replica, counter
    /// between the first and last covered counter, inclusive.
    pub open spec fn spec_contains(self, id: ID) -> bool {
        id.client_id == self.id.client_id && self.id.counter <= id.counter
            <= self.spec_last_id().counter
    }

    pub fn contain_id(&self, id: ID) -> (r: bool)
        requires
            self.wf(),
        ensures
            r == self.spec_contains(id),
    {
        self.id.client_id == id.client_id && self.id.counter <= id.counter && self.last_id().counter
            >= id.counter
    }

    /// Intersection of this run's counter interval with a half-open counter
    /// range of the same replica. An empty range intersects nothing.
    pub open spec fn spec_overlap(self, other: IdSpan) -> bool {
        &&& other.client_id == self.id.client_id
        &&& other.counter.from < other.counter.to
        &&& self.id.counter < other.counter.to
        &&& self.id.counter + self.len > other.counter.from
    }

    pub fn overlap(&self, id: IdSpan) -> (r: bool)
        requires
            self.wf(),
        ensures
            r == self.spec_overlap(id),
    {
        if self.id.client_id != id.client_id {
            return false;
        }
        id.counter.from < id.counter.to && self.id.counter < id.counter.to && self.id.counter
            + (self.len as i32) > id.counter.from
    }

    /// Merge eligibility: same replica, identical status, counter-contiguous,
    /// the same right anchor, and the later run's left anchor is exactly this
    /// run's last identifier — the condition under which the two runs are
    /// indistinguishable from one contiguous insertion.
    pub open spec fn mergeable(self, other: YSpan) -> bool {
        &&& other.id.client_id == self.id.client_id
        &&& self.status == other.status
        &&& self.id.counter + self.len == other.id.counter
        &&& self.origin_right == other.origin_right
        &&& other.origin_left == Some(self.spec_last_id())
    }

    pub fn is_mergable(&self, other: &YSpan) -> (r: bool)
        requires
            self.wf(),
        ensures
            r == self.mergeable(*other),
    {
        other.id.client_id == self.id.client_id && self.status == other.status && self.id.counter
            + (self.len as i32) == other.id.counter && self.origin_right == other.origin_right
            && other.origin_left == Some(self.id.inc(self.len as i32 - 1))
    }

    /// The span after appending `other`: the leading edge (`id`,
    /// `origin_left`) is kept, the right anchor and the added length come
    /// from the appended run.
    pub open spec fn merged(self, other: YSpan) -> YSpan {
        YSpan { len: (self.len + other.len) as usize, origin_right: other.origin_right, ..self }
    }

    /// Merges `other` into this span in place.
    pub fn merge(&mut self, other: &YSpan)
        requires
            old(self).len + other.len <= usize::MAX,
        ensures
            *final(self) == old(self).merged(*other),
            old(self).wf() && other.wf() && old(self).mergeable(*other) ==> final(self).wf(),
    {
        self.origin_right = other.origin_right;
        self.len = self.len + other.len;
    }

    /// The sub-run `[from, to)`, with origin anchors chosen so that the
    /// fragment is causally equivalent to a run that had always stood on its
    /// own: everything cut off on the left becomes its left anchor, and
    /// everything cut off on the right its right anchor.
    pub open spec fn spec_slice(self, from: int, to: int) -> YSpan {
        if from == 0 && to == self.len {
            self
        } else if from == 0 {
            YSpan {
                origin_right: Some(self.id.spec_inc(to)),
                len: (to - from) as usize,
                ..self
            }
        } else if to < self.len {
            YSpan {
                id: self.id.spec_inc(from),
                origin_left: Some(self.id.spec_inc(from - 1)),
                origin_right: Some(self.id.spec_inc(to)),
                len: (to - from) as usize,
                ..self
            }
        } else {
            YSpan {
                id: self.id.spec_inc(from),
                origin_left: Some(self.id.spec_inc(from - 1)),
                len: (to - from) as usize,
                ..self
            }
        }
    }

    pub fn slice(&self, from: usize, to: usize) -> (r: YSpan)
        requires
            self.wf(),
            from <= to <= self.len,
        ensures
            r == self.spec_slice(from as int, to as int),
            from < to ==> r.wf(),
    {
        if from == 0 && to == self.content_len() {
            return YSpan {
                id: self.id,
                len: self.len,
                status: self.status,
                origin_left: self.origin_left,
                origin_right: self.origin_right,
            };
        }
        if from == 0 {
            YSpan {
                origin_left: self.origin_left,
                origin_right: Some(self.id.inc(to as i32)),
                id: self.id,
                len: to - from,
                status: self.status,
            }
        } else if to < self.content_len() {
            YSpan {
                origin_left: Some(self.id.inc(from as i32 - 1)),
                origin_right: Some(self.id.inc(to as i32)),
                id: self.id.inc(from as i32),
                len: to - from,
                status: self.status,
            }
        } else {
            YSpan {
                origin_left: Some(self.id.inc(from as i32 - 1)),
                origin_right: self.origin_right,
                id: self.id.inc(from as i32),
                len: to - from,
                status: self.status,
            }
        }
    }

    /// Activation-adjusted length: what cumulative position indexing must
    /// use, since inactive content occupies no visible position.
    pub open spec fn spec_len(self) -> int {
        if self.status.is_active() {
            self.len as int
        } else {
            0
        }
    }

    pub fn len(&self) -> (r: usize)
        ensures
            r == self.spec_len(),
    {
        if self.status.is_activated() {
            self.len
        } else {
            0
        }
    }

    /// Raw length: the physical and causal extent of the run, independent of
    /// activation — what merge/slice arithmetic and containment use.
    pub open spec fn spec_content_len(self) -> int {
        self.len as int
    }

    pub fn content_len(&self) -> (r: usize)
        ensures
            r == self.spec_content_len(),
    {
        self.len
    }

    /// The content kind this span stores.
    pub fn content_type(&self) -> (r: ContentType)
        ensures
            r == ContentType::Text,
    {
        ContentType::Text
    }
}

/// Merging is associative on a chain of mergeable runs from one replica:
/// appending `b` and then `c` to `a` gives the same span as appending the
/// merge of `b` and `c` to `a`, and both intermediate merges are themselves
/// eligible whenever the two pairwise merges are.
pub proof fn lemma_merge_assoc(a: YSpan, b: YSpan, c: YSpan)
    requires
        a.wf(),
        b.wf(),
        c.wf(),
        a.mergeable(b),
        b.mergeable(c),
    ensures
        a.merged(b).mergeable(c),
        a.mergeable(b.merged(c)),
        a.merged(b).merged(c) == a.merged(b.merged(c)),
{
}

/// Slicing an active span at any point `0 <= k <= len` and re-merging the two
/// fragments reproduces the original span exactly: same `id`, `len`,
/// `origin_left`, `origin_right` and `status`.
pub proof fn lemma_slice_merge_round_trip(s: YSpan, k: int)
    requires
        s.wf(),
        s.status.is_active(),
        0 <= k <= s.len,
    ensures
        s.spec_slice(0, k).merged(s.spec_slice(k, s.len as int)) == s,
{
}

/// Length duality: the activation-adjusted length never exceeds the raw
/// length; the two agree exactly on active spans; an inactive span
/// contributes no visible length.
pub proof fn lemma_length_duality(s: YSpan)
    requires
        s.wf(),
    ensures
        s.spec_len() <= s.spec_content_len(),
        (s.spec_len() == s.spec_content_len()) <==> s.status.is_active(),
        !s.status.is_active() ==> s.spec_len() == 0,
{
}

} // verus!
