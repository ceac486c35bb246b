//! Bounds tracking for the overlay: choosing the authoritative
//! rectangle, diffing successive samples into change emissions, and
//! the fixed placements derived from the bounds.

use vstd::prelude::*;

verus! {

/// Absolute screen rectangle of a window or of the desktop work area.
#[derive(Clone, Copy, Debug, PartialEq, Eq, Structural)]
pub struct WindowRect {
    pub x: i32,
    pub y: i32,
    pub width: i32,
    pub height: i32,
}

/// A bounds-change emission: the fresh rectangle and its signed
/// offset from the previous sample.
#[derive(Clone, Copy, Debug, PartialEq, Eq, Structural)]
pub struct BoundsChange {
    pub rect: WindowRect,
    pub dx: i64,
    pub dy: i64,
}

/// Policy choosing the authoritative bounds: the tracked window's
/// rectangle while the window is focused and present, otherwise the
/// work area; nothing when that query failed too. Callers falling
/// through to nothing apply `fallback_bounds`.
pub fn get_appropriate_window_bounds(
    focused: bool,
    tracked_rect: Option<WindowRect>,
    work_area: Option<WindowRect>,
) -> (r: Option<WindowRect>)
    ensures
        r == if focused && tracked_rect is Some {
            tracked_rect
        } else {
            work_area
        },
{
    if focused {
        if let Some(rect) = tracked_rect {
            return Some(rect);
        }
    }
    work_area
}

/// The hardcoded default applied when no bounds can be resolved.
pub fn fallback_bounds() -> (r: WindowRect)
    ensures
        r == (WindowRect { x: 0, y: 0, width: 1920, height: 1080 }),
{
    WindowRect { x: 0, y: 0, width: 1920, height: 1080 }
}

/// Diffs the 20 Hz bounds samples into change emissions.
pub struct BoundsTracker {
    pub prev: Option<WindowRect>,
}

impl BoundsTracker {
    /// A tracker that has sampled nothing.
    pub fn new() -> (t: BoundsTracker)
        ensures
            t.prev is None,
    {
        BoundsTracker { prev: None }
    }

    /// One tick: emits whenever any of the four fields changed since
    /// the previous sample, with the signed position delta, and
    /// unconditionally (with a zero delta) on the first successful
    /// sample. A failed sample is skipped and forgotten.
    pub fn sample(&mut self, current: Option<WindowRect>) -> (emit: Option<BoundsChange>)
        ensures
            match current {
                None => emit is None && final(self).prev == old(self).prev,
                Some(c) => match old(self).prev {
                    None => emit == Some(BoundsChange { rect: c, dx: 0, dy: 0 })
                        && final(self).prev == Some(c),
                    Some(p) => if c == p {
                        emit is None && final(self).prev == old(self).prev
                    } else {
                        emit == Some(
                            BoundsChange {
                                rect: c,
                                dx: (c.x - p.x) as i64,
                                dy: (c.y - p.y) as i64,
                            },
                        ) && final(self).prev == Some(c)
                    },
                },
            },
    {
        match current {
            None => None,
            Some(c) => match self.prev {
                None => {
                    self.prev = Some(c);
                    Some(BoundsChange { rect: c, dx: 0, dy: 0 })
                },
                Some(p) => {
                    if c.x != p.x || c.y != p.y || c.width != p.width || c.height != p.height {
                        let dx: i64 = c.x as i64 - p.x as i64;
                        let dy: i64 = c.y as i64 - p.y as i64;
                        self.prev = Some(c);
                        Some(BoundsChange { rect: c, dx, dy })
                    } else {
                        None
                    }
                },
            },
        }
    }
}

pub const TOAST_WIDTH: i64 = 400;

pub const TOAST_HEIGHT: i64 = 200;

pub const TOAST_MARGIN: i64 = 10;

/// Placement of the toast window: anchored to the bottom-right corner
/// of the given bounds, inset by its size and a margin.
pub fn toast_position(bounds: &WindowRect) -> (r: (i64, i64))
    ensures
        r.0 == bounds.x + bounds.width - TOAST_WIDTH - TOAST_MARGIN,
        r.1 == bounds.y + bounds.height - TOAST_HEIGHT - TOAST_MARGIN,
{
    let x: i64 = bounds.x as i64 + bounds.width as i64 - TOAST_WIDTH - TOAST_MARGIN;
    let y: i64 = bounds.y as i64 + bounds.height as i64 - TOAST_HEIGHT - TOAST_MARGIN;
    (x, y)
}

/// Whether reported window bounds are sane enough to persist; absurd
/// values betray a platform integer-overflow bug and call for a reset
/// to a default size and position.
pub fn bounds_are_sane(width: u32, height: u32, x: i32, y: i32) -> (r: bool)
    ensures
        r == (width <= 10000 && height <= 10000 && -50000 <= x <= 50000 && -50000 <= y <= 50000),
{
    width <= 10000 && height <= 10000 && x >= -50000 && x <= 50000 && y >= -50000 && y <= 50000
}

} // verus!
