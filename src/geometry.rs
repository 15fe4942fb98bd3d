//! Points, offsets and rectangles in screen pixels.
use vstd::prelude::*;

verus! {

/// A 2D displacement (or a size).
#[derive(Debug, Clone, Copy, PartialEq, Eq, Structural)]
pub struct Offset {
    pub x: i16,
    pub y: i16,
}

impl Offset {
    pub fn new(x: i16, y: i16) -> (r: Offset)
        ensures
            r.x == x,
            r.y == y,
    {
        Offset { x, y }
    }
}

/// Distances to shrink a rectangle by on each side.
#[derive(Debug, Clone, Copy, PartialEq, Eq, Structural)]
pub struct Insets {
    pub top: i16,
    pub right: i16,
    pub bottom: i16,
    pub left: i16,
}

impl Insets {
    pub fn new(top: i16, right: i16, bottom: i16, left: i16) -> (r: Insets)
        ensures
            r == (Insets { top, right, bottom, left }),
    {
        Insets { top, right, bottom, left }
    }

    pub fn bottom(d: i16) -> (r: Insets)
        ensures
            r == (Insets { top: 0, right: 0, bottom: d, left: 0 }),
    {
        Insets { top: 0, right: 0, bottom: d, left: 0 }
    }

    pub fn left(d: i16) -> (r: Insets)
        ensures
            r == (Insets { top: 0, right: 0, bottom: 0, left: d }),
    {
        Insets { top: 0, right: 0, bottom: 0, left: d }
    }
}

/// An axis-aligned rectangle: `x0..x1` by `y0..y1`.
#[derive(Debug, Clone, Copy, PartialEq, Eq, Structural)]
pub struct Rect {
    pub x0: i16,
    pub y0: i16,
    pub x1: i16,
    pub y1: i16,
}

pub open spec fn clamp_spec(v: int, lo: int, hi: int) -> int {
    if v < lo {
        lo
    } else if v > hi {
        hi
    } else {
        v
    }
}

impl Rect {
    /// The corners are in order, and the width and height fit in `i16`.
    pub open spec fn wf(&self) -> bool {
        &&& self.x0 <= self.x1 <= self.x0 + i16::MAX
        &&& self.y0 <= self.y1 <= self.y0 + i16::MAX
    }

    pub fn new(x0: i16, y0: i16, x1: i16, y1: i16) -> (r: Rect)
        ensures
            r == (Rect { x0, y0, x1, y1 }),
    {
        Rect { x0, y0, x1, y1 }
    }

    pub fn width(&self) -> (r: i16)
        requires
            self.wf(),
        ensures
            r == self.x1 - self.x0,
    {
        self.x1 - self.x0
    }

    pub fn height(&self) -> (r: i16)
        requires
            self.wf(),
        ensures
            r == self.y1 - self.y0,
    {
        self.y1 - self.y0
    }

    /// Splits off a bottom part of `height` pixels (clamped to the
    /// rectangle's own height).
    pub fn split_bottom(self, height: i16) -> (r: (Rect, Rect))
        requires
            self.wf(),
        ensures
            ({
                let y = self.y1 - clamp_spec(height as int, 0, self.y1 - self.y0);
                &&& r.0 == Rect { y1: y as i16, ..self }
                &&& r.1 == Rect { y0: y as i16, ..self }
            }),
            r.0.wf(),
            r.1.wf(),
    {
        let h = if height < 0 {
            0
        } else if height > self.y1 - self.y0 {
            self.y1 - self.y0
        } else {
            height
        };
        let y = self.y1 - h;
        (Rect { y1: y, ..self }, Rect { y0: y, ..self })
    }

    /// Splits off a left part of `width` pixels (clamped to the rectangle's
    /// own width).
    pub fn split_left(self, width: i16) -> (r: (Rect, Rect))
        requires
            self.wf(),
        ensures
            ({
                let x = self.x0 + clamp_spec(width as int, 0, self.x1 - self.x0);
                &&& r.0 == Rect { x1: x as i16, ..self }
                &&& r.1 == Rect { x0: x as i16, ..self }
            }),
            r.0.wf(),
            r.1.wf(),
    {
        let w = if width < 0 {
            0
        } else if width > self.x1 - self.x0 {
            self.x1 - self.x0
        } else {
            width
        };
        let x = self.x0 + w;
        (Rect { x1: x, ..self }, Rect { x0: x, ..self })
    }

    /// Splits off a right part of `width` pixels (clamped to the
    /// rectangle's own width).
    pub fn split_right(self, width: i16) -> (r: (Rect, Rect))
        requires
            self.wf(),
        ensures
            ({
                let x = self.x1 - clamp_spec(width as int, 0, self.x1 - self.x0);
                &&& r.0 == Rect { x1: x as i16, ..self }
                &&& r.1 == Rect { x0: x as i16, ..self }
            }),
            r.0.wf(),
            r.1.wf(),
    {
        let w = if width < 0 {
            0
        } else if width > self.x1 - self.x0 {
            self.x1 - self.x0
        } else {
            width
        };
        let x = self.x1 - w;
        (Rect { x1: x, ..self }, Rect { x0: x, ..self })
    }

    /// The rectangle shrunk by `insets` on each side.
    pub fn inset(self, insets: Insets) -> (r: Rect)
        requires
            i16::MIN <= self.x0 + insets.left <= i16::MAX,
            i16::MIN <= self.y0 + insets.top <= i16::MAX,
            i16::MIN <= self.x1 - insets.right <= i16::MAX,
            i16::MIN <= self.y1 - insets.bottom <= i16::MAX,
        ensures
            r.x0 == self.x0 + insets.left,
            r.y0 == self.y0 + insets.top,
            r.x1 == self.x1 - insets.right,
            r.y1 == self.y1 - insets.bottom,
    {
        Rect {
            x0: self.x0 + insets.left,
            y0: self.y0 + insets.top,
            x1: self.x1 - insets.right,
            y1: self.y1 - insets.bottom,
        }
    }
}

} // verus!
