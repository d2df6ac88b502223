//! The rows selected on the timeline: an anchor row and an active row, kept
//! across branch switches and clamped to the branch the selection is read on.
use vstd::prelude::*;

use crate::session::TasEditorSession;
use crate::text::string_of;

verus! {

/// How the keyboard moves the active row.
#[derive(Clone, Copy, Debug, PartialEq, Eq, Structural)]
pub enum TasTimelineNavigation {
    Previous,
    Next,
    Start,
    End,
}

/// A selected run of rows `start..end` on branch `branch_id`.
#[derive(Clone, Debug, PartialEq, Eq)]
pub struct TasInputSelection {
    pub branch_id: String,
    pub start: u64,
    pub end: u64,
}

/// The anchor and active rows, when rows are selected.
#[derive(Clone, Copy, Debug, PartialEq, Eq)]
pub struct TasTimelineSelection {
    pub rows: Option<(u64, u64)>,
}

pub open spec fn min_u64(a: u64, b: u64) -> u64 {
    if a <= b { a } else { b }
}

pub open spec fn max_u64(a: u64, b: u64) -> u64 {
    if a >= b { a } else { b }
}

/// The selected rows `start..end` on a branch of `count` frames.
pub open spec fn spec_selected_range(rows: Option<(u64, u64)>, count: u64) -> Option<(u64, u64)> {
    match rows {
        None => None,
        Some((anchor, active)) => {
            let lo = min_u64(anchor, active);
            let hi = max_u64(anchor, active);
            if lo >= count {
                None
            } else {
                Some((lo, if hi < count { (hi + 1) as u64 } else { count }))
            }
        },
    }
}

/// The row the active end stands on, clamped to the branch.
pub open spec fn spec_active_cursor(rows: Option<(u64, u64)>, cursor: u64, count: u64) -> u64 {
    match rows {
        Some((_, active)) => if count == 0 { 0 } else if active < count { active } else { (count - 1) as u64 },
        None => if cursor <= count { cursor } else { count },
    }
}

impl TasTimelineSelection {
    pub fn new() -> (r: Self)
        ensures
            r.rows is None,
    {
        TasTimelineSelection { rows: None }
    }

    /// Selects rows `start..end`; selects nothing when the run is empty.
    pub fn select_range(&mut self, start: u64, end: u64)
        ensures
            final(self).rows == if start < end { Some((start, (end - 1) as u64)) } else { None::<(u64, u64)> },
    {
        if start < end {
            self.rows = Some((start, end - 1));
        } else {
            self.rows = None;
        }
    }

    /// Selects row `frame`, or extends the selection to it from the anchor.
    pub fn select_frame(&mut self, frame: u64, extend: bool)
        ensures
            final(self).rows == match old(self).rows {
                Some((anchor, _)) => if extend { Some((anchor, frame)) } else { Some((frame, frame)) },
                None => Some((frame, frame)),
            },
    {
        self.rows = match self.rows {
            Some((anchor, _)) => if extend {
                Some((anchor, frame))
            } else {
                Some((frame, frame))
            },
            None => Some((frame, frame)),
        };
    }

    /// Selects the rows from `anchor` to `active`, clamped to a branch of
    /// `count` frames; returns the active row, or `None` on an empty branch.
    pub fn select_frame_range(&mut self, count: u64, anchor: u64, active: u64) -> (r: Option<u64>)
        ensures
            count == 0 ==> r is None && *final(self) == *old(self),
            count > 0 ==> {
                let a = if anchor < count { anchor } else { (count - 1) as u64 };
                let b = if active < count { active } else { (count - 1) as u64 };
                r == Some(b) && final(self).rows == Some((a, b))
            },
    {
        if count == 0 {
            return None;
        }
        let a = if anchor < count { anchor } else { count - 1 };
        let b = if active < count { active } else { count - 1 };
        self.rows = Some((a, b));
        Some(b)
    }

    /// Moves the active row; returns the new active row. Without `extend`
    /// the selection collapses onto it.
    pub fn navigate(&mut self, count: u64, cursor: u64, navigation: TasTimelineNavigation, extend: bool) -> (r: u64)
        ensures
            ({
                let current = spec_active_cursor(old(self).rows, cursor, count);
                let last = if count == 0 { 0 } else { (count - 1) as u64 };
                let target = match navigation {
                    TasTimelineNavigation::Previous => if current > 0 { (current - 1) as u64 } else { 0 },
                    TasTimelineNavigation::Next => if current < last { (current + 1) as u64 } else { last },
                    TasTimelineNavigation::Start => 0,
                    TasTimelineNavigation::End => last,
                };
                &&& r == target
                &&& count == 0 ==> final(self).rows is None
                &&& count > 0 ==> final(self).rows == match old(self).rows {
                    Some((anchor, _)) => if extend { Some((if anchor < count { anchor } else { last }, target)) } else { Some((target, target)) },
                    None => Some((target, target)),
                }
            }),
    {
        let current = self.active_cursor(count, cursor);
        let last = if count == 0 { 0 } else { count - 1 };
        let target = match navigation {
            TasTimelineNavigation::Previous => if current > 0 { current - 1 } else { 0 },
            TasTimelineNavigation::Next => if current < last { current + 1 } else { last },
            TasTimelineNavigation::Start => 0,
            TasTimelineNavigation::End => last,
        };
        if count == 0 {
            self.rows = None;
            return target;
        }
        self.rows = match self.rows {
            Some((anchor, _)) => if extend {
                Some((if anchor < count { anchor } else { last }, target))
            } else {
                Some((target, target))
            },
            None => Some((target, target)),
        };
        target
    }

    /// The row of the active end, clamped to a branch of `count` frames;
    /// `cursor` when no rows are selected.
    pub fn active_cursor(&self, count: u64, cursor: u64) -> (r: u64)
        ensures
            r == spec_active_cursor(self.rows, cursor, count),
    {
        match self.rows {
            Some((_, active)) => if count == 0 {
                0
            } else if active < count {
                active
            } else {
                count - 1
            },
            None => if cursor <= count {
                cursor
            } else {
                count
            },
        }
    }

    /// Collapses the selection onto the row at `cursor`; nothing is selected at the end boundary.
    pub fn collapse_to_cursor(&mut self, cursor: u64, count: u64)
        ensures
            final(self).rows == if cursor < count { Some((cursor, cursor)) } else { None::<(u64, u64)> },
    {
        if cursor < count {
            self.rows = Some((cursor, cursor));
        } else {
            self.rows = None;
        }
    }

    /// The selected rows `start..end` on a branch of `count` frames.
    pub fn range_for(&self, count: u64) -> (r: Option<(u64, u64)>)
        ensures
            r == spec_selected_range(self.rows, count),
    {
        match self.rows {
            None => None,
            Some((anchor, active)) => {
                let lo = if anchor <= active { anchor } else { active };
                let hi = if anchor >= active { anchor } else { active };
                if lo >= count {
                    None
                } else {
                    Some((lo, if hi < count { hi + 1 } else { count }))
                }
            },
        }
    }

    /// The selected rows of the session's selected branch.
    pub fn selected_range(&self, session: &TasEditorSession) -> (r: Option<(u64, u64)>)
        requires
            session@.wf(),
        ensures
            r == spec_selected_range(self.rows, session@.frames().len() as u64),
    {
        self.range_for(session.frame_count())
    }

    /// The selection as it stands on the session's selected branch.
    pub fn snapshot(&self, session: &TasEditorSession) -> (r: Option<TasInputSelection>)
        requires
            session@.wf(),
        ensures
            match spec_selected_range(self.rows, session@.frames().len() as u64) {
                None => r is None,
                Some((start, end)) => r is Some && r.unwrap().branch_id@ == session@.branch().id
                    && r.unwrap().start == start && r.unwrap().end == end,
            },
    {
        match self.selected_range(session) {
            None => None,
            Some((start, end)) => Some(TasInputSelection {
                branch_id: string_of(session.selected_branch_id()),
                start,
                end,
            }),
        }
    }
}

impl TasInputSelection {
    /// Whether two selections are the same.
    pub fn same_as(&self, other: &Self) -> (r: bool)
        ensures
            r == (self.branch_id@ == other.branch_id@ && self.start == other.start && self.end == other.end),
    {
        crate::text::string_eq(&self.branch_id, &other.branch_id) && self.start == other.start
            && self.end == other.end
    }
}

} // verus!
