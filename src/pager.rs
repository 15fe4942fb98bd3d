//! Position within a paginated content.
use vstd::prelude::*;

verus! {

/// Page `current` of `total` pages.
#[derive(Debug, Clone, Copy, PartialEq, Eq, Structural)]
pub struct Pager {
    pub current: u16,
    pub total: u16,
}

impl Pager {
    /// At least one page, and the current one among them.
    pub open spec fn wf(&self) -> bool {
        self.current < self.total
    }

    /// The first of `total` pages.
    pub fn new(total: u16) -> (r: Pager)
        requires
            total >= 1,
        ensures
            r == (Pager { current: 0, total }),
    {
        Pager { current: 0, total }
    }

    pub fn has_prev(&self) -> (r: bool)
        ensures
            r == (self.current > 0),
    {
        self.current > 0
    }

    pub fn has_next(&self) -> (r: bool)
        ensures
            r == (self.current + 1 < self.total),
    {
        (self.current as u32) + 1 < self.total as u32
    }

    /// Moves `step` pages on (back when negative), staying within the pages.
    pub fn go_to_relative(&mut self, step: i32)
        requires
            old(self).wf(),
        ensures
            final(self).total == old(self).total,
            final(self).wf(),
            final(self).current as int == crate::geometry::clamp_spec(
                old(self).current + step,
                0,
                old(self).total - 1,
            ),
    {
        let target: i64 = self.current as i64 + step as i64;
        let last: i64 = self.total as i64 - 1;
        self.current = if target < 0 {
            0
        } else if target > last {
            last as u16
        } else {
            target as u16
        };
    }
}

} // verus!
