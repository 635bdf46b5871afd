use vstd::prelude::*;

verus! {

/// Whether a span's content currently counts toward the visible document.
/// Content is active exactly when it has been applied and no delete or undo
/// is outstanding.
#[derive(Clone, Copy, Debug, PartialEq, Eq, Hash, Structural)]
pub struct Status {
    pub unapplied: bool,
    pub delete_times: usize,
    pub undo_times: usize,
}

/// The closed set of status transitions. `Status::apply` is the single
/// funnel through which the three status fields change, so that the
/// "did the activation flip" signal stays accurate.
#[derive(Clone, Copy, Debug, PartialEq, Eq, Structural)]
pub enum StatusChange {
    Apply,
    PreApply,
    Redo,
    Undo,
    Delete,
    UndoDelete,
}

impl Status {
    pub open spec fn is_active(self) -> bool {
        !self.unapplied && self.delete_times == 0 && self.undo_times == 0
    }

    /// The status after one transition. Counts are exact, never clamped:
    /// decrementing a zero count is a caller error, excluded by the
    /// preconditions of `apply`.
    pub open spec fn applied(self, change: StatusChange) -> Status {
        match change {
            StatusChange::Apply => Status { unapplied: false, ..self },
            StatusChange::PreApply => Status { unapplied: true, ..self },
            StatusChange::Redo => Status { undo_times: (self.undo_times - 1) as usize, ..self },
            StatusChange::Undo => Status { undo_times: (self.undo_times + 1) as usize, ..self },
            StatusChange::Delete => Status {
                delete_times: (self.delete_times + 1) as usize,
                ..self
            },
            StatusChange::UndoDelete => Status {
                delete_times: (self.delete_times - 1) as usize,
                ..self
            },
        }
    }

    /// The default status: applied, no outstanding delete or undo, active.
    pub fn new() -> (r: Status)
        ensures
            r == (Status { unapplied: false, delete_times: 0, undo_times: 0 }),
            r.is_active(),
    {
        Status { unapplied: false, delete_times: 0, undo_times: 0 }
    }

    pub fn is_activated(&self) -> (r: bool)
        ensures
            r == self.is_active(),
    {
        !self.unapplied && self.delete_times == 0 && self.undo_times == 0
    }

    /// Applies one transition and returns whether the active/inactive
    /// classification flipped, so the owning span's contribution to
    /// cumulative length can be added or removed by the caller.
    pub fn apply(&mut self, change: StatusChange) -> (flipped: bool)
        requires
            change is Redo ==> old(self).undo_times > 0,
            change is UndoDelete ==> old(self).delete_times > 0,
            change is Undo ==> old(self).undo_times < usize::MAX,
            change is Delete ==> old(self).delete_times < usize::MAX,
        ensures
            *final(self) == old(self).applied(change),
            flipped == (final(self).is_active() != old(self).is_active()),
    {
        let activated = self.is_activated();
        match change {
            StatusChange::Apply => self.unapplied = false,
            StatusChange::PreApply => self.unapplied = true,
            StatusChange::Redo => self.undo_times = self.undo_times - 1,
            StatusChange::Undo => self.undo_times = self.undo_times + 1,
            StatusChange::Delete => self.delete_times = self.delete_times + 1,
            StatusChange::UndoDelete => self.delete_times = self.delete_times - 1,
        }
        self.is_activated() != activated
    }
}

impl Default for Status {
    fn default() -> (r: Status)
        ensures
            r == (Status { unapplied: false, delete_times: 0, undo_times: 0 }),
            r.is_active(),
    {
        Status::new()
    }
}

/// A `Delete` on an active status flips it to inactive, and `apply` reports
/// that flip; a second `Delete` before any matching `UndoDelete` changes
/// nothing about the classification, so no flip is reported for it.
pub proof fn lemma_delete_flips_once(s: Status)
    requires
        s.is_active(),
    ensures
        s.applied(StatusChange::Delete).is_active() != s.is_active(),
        s.applied(StatusChange::Delete).applied(StatusChange::Delete).is_active()
            == s.applied(StatusChange::Delete).is_active(),
{
}

} // verus!
