//! Deferred collapse of the sidebar split view for narrow windows.
//!
//! Breakpoints fire inside the window's size allocation, where collapsing
//! the split view is unsafe; the desired state is buffered and applied from
//! an idle callback, so rapid transitions coalesce into one change that
//! settles on the last requested state.

use vstd::prelude::*;

verus! {

/// Buffered collapse state.
#[derive(Debug, Clone, Copy, PartialEq, Eq, Structural)]
pub struct CollapseScheduler {
    /// Desired collapsed state, coalescing apply/unapply transitions.
    pub desired: bool,
    /// Whether an idle apply is already scheduled.
    pub pending: bool,
}

/// The scheduler after a request for `collapsed`, and whether an idle apply
/// must be scheduled.
pub open spec fn set_spec(s: CollapseScheduler, collapsed: bool) -> (CollapseScheduler, bool) {
    (CollapseScheduler { desired: collapsed, pending: true }, !s.pending)
}

/// The scheduler after the idle apply, and the change to make to a split
/// view whose collapsed state is `current` (none when it already matches).
pub open spec fn apply_spec(s: CollapseScheduler, current: bool) -> (CollapseScheduler, Option<bool>) {
    (
        CollapseScheduler { pending: false, ..s },
        if s.desired != current {
            Some(s.desired)
        } else {
            None
        },
    )
}

/// The scheduler after a run of requests.
pub open spec fn set_all(s: CollapseScheduler, reqs: Seq<bool>) -> CollapseScheduler
    decreases reqs.len(),
{
    if reqs.len() == 0 {
        s
    } else {
        set_spec(set_all(s, reqs.drop_last()), reqs.last()).0
    }
}

/// How many idle applies a run of requests schedules.
pub open spec fn schedules(s: CollapseScheduler, reqs: Seq<bool>) -> nat
    decreases reqs.len(),
{
    if reqs.len() == 0 {
        0
    } else {
        schedules(s, reqs.drop_last()) + if set_spec(set_all(s, reqs.drop_last()), reqs.last()).1 {
            1nat
        } else {
            0nat
        }
    }
}

impl CollapseScheduler {
    /// A scheduler initialized to the split view's current state.
    pub fn new(collapsed: bool) -> (s: CollapseScheduler)
        ensures
            s.desired == collapsed,
            !s.pending,
    {
        CollapseScheduler { desired: collapsed, pending: false }
    }

    /// Record the desired state; `true` when an idle apply must be scheduled.
    pub fn set(&mut self, collapsed: bool) -> (schedule: bool)
        ensures
            (*final(self), schedule) == set_spec(*old(self), collapsed),
    {
        self.desired = collapsed;
        let was_pending = self.pending;
        self.pending = true;
        !was_pending
    }

    /// Apply the desired state to a split view that is `current`ly collapsed
    /// or not; returns the new state to set, if it differs.
    pub fn apply(&mut self, current: bool) -> (change: Option<bool>)
        ensures
            (*final(self), change) == apply_spec(*old(self), current),
    {
        let collapsed = self.desired;
        self.pending = false;
        if collapsed != current {
            Some(collapsed)
        } else {
            None
        }
    }
}

/// Requests coalesce: a run of requests schedules at most one apply (none
/// if one is already pending), and the apply settles on the last request.
pub proof fn requests_coalesce(s: CollapseScheduler, reqs: Seq<bool>, current: bool)
    requires
        reqs.len() > 0,
    ensures
        schedules(s, reqs) == (if s.pending {
            0nat
        } else {
            1nat
        }),
        set_all(s, reqs).pending,
        apply_spec(set_all(s, reqs), current).1 == (if reqs.last() != current {
            Some(reqs.last())
        } else {
            None::<bool>
        }),
        !apply_spec(set_all(s, reqs), current).0.pending,
    decreases reqs.len(),
{
    if reqs.len() > 1 {
        requests_coalesce(s, reqs.drop_last(), current);
        assert(set_all(s, reqs.drop_last()).pending);
    } else {
        assert(reqs.drop_last().len() == 0);
        assert(set_all(s, reqs.drop_last()) == s);
        assert(schedules(s, reqs.drop_last()) == 0);
    }
}

/// The layout of a narrow window (below the narrow breakpoint) or a wide one.
#[derive(Debug, Clone, Copy, PartialEq, Eq, Structural)]
pub struct NarrowLayout {
    /// Requested collapse of the sidebar.
    pub collapse: bool,
    /// The shared narrow flag.
    pub narrow: bool,
    /// Whether the header shows the view switcher.
    pub header_switcher: bool,
    /// Whether the bottom switcher bar is revealed.
    pub bottom_bar: bool,
}

/// Narrow windows collapse the sidebar and move the view switcher from the
/// header to the bottom bar; wide windows undo it.
pub fn narrow_layout(narrow: bool) -> (l: NarrowLayout)
    ensures
        l == (NarrowLayout { collapse: narrow, narrow, header_switcher: !narrow, bottom_bar: narrow }),
{
    NarrowLayout { collapse: narrow, narrow, header_switcher: !narrow, bottom_bar: narrow }
}

} // verus!
