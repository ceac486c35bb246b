//! Click-through arbitration of overlay hot-zones.
//!
//! Each overlay window registers a list of popup rectangles relative
//! to its own origin; the latest registration fully replaces the
//! previous list. On every tick the cursor position decides, per
//! window, between interactive and click-through, and a platform
//! toggle is owed exactly when the computed state differs from the
//! last applied one — or on the first evaluation of that window.

use vstd::prelude::*;

verus! {

/// Hot-zone rectangle relative to the owning window's origin; all
/// four edges are inclusive.
#[derive(Clone, Copy, Debug, PartialEq, Eq, Structural)]
pub struct PopupRect {
    pub left: i64,
    pub top: i64,
    pub right: i64,
    pub bottom: i64,
}

/// The point lies within the rectangle, edges included.
pub open spec fn rect_contains_spec(r: PopupRect, x: int, y: int) -> bool {
    r.left <= x <= r.right && r.top <= y <= r.bottom
}

/// Inclusive hit test for one rectangle.
pub fn rect_contains(r: &PopupRect, x: i64, y: i64) -> (b: bool)
    ensures
        b == rect_contains_spec(*r, x as int, y as int),
{
    r.left <= x && x <= r.right && r.top <= y && y <= r.bottom
}

/// The point lies within at least one of the rectangles.
pub open spec fn any_rect_contains(rects: Seq<PopupRect>, x: int, y: int) -> bool {
    exists|i: int| 0 <= i < rects.len() && rect_contains_spec(rects[i], x, y)
}

/// The platform state a window should be in: click-through (cursor
/// events ignored) exactly when the cursor is over none of its
/// registered rectangles. A window with no rectangles is always
/// click-through.
pub open spec fn desired_ignore(rects: Seq<PopupRect>, x: int, y: int) -> bool {
    !any_rect_contains(rects, x, y)
}

/// Law: the cursor inside one of a window's registered rectangles
/// makes the owning window interactive; outside all of them,
/// click-through.
pub proof fn lemma_cursor_decides_state(rects: Seq<PopupRect>, x: int, y: int)
    ensures
        any_rect_contains(rects, x, y) ==> !desired_ignore(rects, x, y),
        !any_rect_contains(rects, x, y) ==> desired_ignore(rects, x, y),
{
}

/// The hot-zone list and last applied state of one overlay window.
pub struct WindowZones {
    pub window_id: u64,
    pub rects: Vec<PopupRect>,
    pub applied: Option<bool>,
}

/// Index of the entry for a window id, if registered.
pub open spec fn idx_of(ws: Seq<WindowZones>, id: u64) -> Option<int>
    decreases ws.len(),
{
    if ws.len() == 0 {
        None
    } else if ws[0].window_id == id {
        Some(0)
    } else {
        match idx_of(ws.drop_first(), id) {
            Some(i) => Some(i + 1),
            None => None,
        }
    }
}

/// What `idx_of` returns: the first entry carrying the id, or a
/// guarantee that none does.
proof fn lemma_idx_of(ws: Seq<WindowZones>, id: u64)
    ensures
        match idx_of(ws, id) {
            Some(i) => {
                &&& 0 <= i < ws.len()
                &&& ws[i].window_id == id
                &&& forall|k: int| 0 <= k < i ==> ws[k].window_id != id
            },
            None => forall|k: int| 0 <= k < ws.len() ==> ws[k].window_id != id,
        },
    decreases ws.len(),
{
    if ws.len() > 0 && ws[0].window_id != id {
        lemma_idx_of(ws.drop_first(), id);
        match idx_of(ws.drop_first(), id) {
            Some(i) => {
                assert(ws[i + 1] == ws.drop_first()[i]);
                assert forall|k: int| 0 <= k < i + 1 implies ws[k].window_id != id by {
                    if k > 0 {
                        assert(ws[k] == ws.drop_first()[k - 1]);
                    }
                }
            },
            None => {
                assert forall|k: int| 0 <= k < ws.len() implies ws[k].window_id != id by {
                    if k > 0 {
                        assert(ws[k] == ws.drop_first()[k - 1]);
                    }
                }
            },
        }
    }
}

/// Replacing an entry without changing its id leaves every lookup
/// unchanged.
proof fn lemma_idx_of_update(ws: Seq<WindowZones>, i: int, e: WindowZones, id: u64)
    requires
        0 <= i < ws.len(),
        e.window_id == ws[i].window_id,
    ensures
        idx_of(ws.update(i, e), id) == idx_of(ws, id),
    decreases ws.len(),
{
    if ws.len() > 0 {
        if i == 0 {
            if ws[0].window_id != id {
                assert(ws.update(i, e).drop_first() =~= ws.drop_first());
            }
        } else {
            lemma_idx_of_update(ws.drop_first(), i - 1, e, id);
            assert(ws.update(i, e).drop_first() =~= ws.drop_first().update(i - 1, e));
        }
    }
}

/// Appending an entry changes only the lookup of its own id, and that
/// only when the id was absent.
proof fn lemma_idx_of_push(ws: Seq<WindowZones>, e: WindowZones, id: u64)
    ensures
        idx_of(ws.push(e), id) == if idx_of(ws, id) is Some {
            idx_of(ws, id)
        } else if e.window_id == id {
            Some(ws.len() as int)
        } else {
            None::<int>
        },
    decreases ws.len(),
{
    if ws.len() == 0 {
        assert(ws.push(e)[0] == e);
        assert(idx_of(ws, id) is None);
        if e.window_id != id {
            assert(ws.push(e).drop_first() =~= Seq::<WindowZones>::empty());
            assert(idx_of(Seq::<WindowZones>::empty(), id) is None);
            assert(idx_of(ws.push(e), id) is None);
        } else {
            assert(idx_of(ws.push(e), id) == Some(0int));
        }
    } else {
        assert(ws.push(e)[0] == ws[0]);
        if ws[0].window_id != id {
            lemma_idx_of_push(ws.drop_first(), e, id);
            assert(ws.push(e).drop_first() =~= ws.drop_first().push(e));
            assert(ws.drop_first().len() == ws.len() - 1);
            match idx_of(ws.drop_first(), id) {
                Some(i) => {
                    assert(idx_of(ws, id) == Some(i + 1));
                    assert(idx_of(ws.push(e), id) == Some(i + 1));
                },
                None => {
                    assert(idx_of(ws, id) is None);
                    if e.window_id == id {
                        assert(idx_of(ws.drop_first().push(e), id) == Some(
                            ws.drop_first().len() as int,
                        ));
                        assert(idx_of(ws.push(e), id) == Some(ws.len() as int));
                    } else {
                        assert(idx_of(ws.push(e), id) is None);
                    }
                },
            }
        } else {
            assert(idx_of(ws, id) == Some(0int));
            assert(idx_of(ws.push(e), id) == Some(0int));
        }
    }
}

/// Registry of overlay hot-zones and per-window applied state, plus
/// the start-once guard of the single arbitration loop.
pub struct ClickThroughArbiter {
    pub windows: Vec<WindowZones>,
    pub started: bool,
}

impl ClickThroughArbiter {
    /// The window id is registered.
    pub open spec fn has_window(self, id: u64) -> bool {
        idx_of(self.windows@, id) is Some
    }

    /// The registered rectangles of a window; empty when the id is
    /// not registered.
    pub open spec fn rects_of(self, id: u64) -> Seq<PopupRect> {
        match idx_of(self.windows@, id) {
            Some(i) => self.windows@[i].rects@,
            None => Seq::empty(),
        }
    }

    /// The last applied platform state of a window; nothing before
    /// the first successful toggle.
    pub open spec fn applied_of(self, id: u64) -> Option<bool> {
        match idx_of(self.windows@, id) {
            Some(i) => self.windows@[i].applied,
            None => None,
        }
    }

    /// An empty registry with the loop not yet started.
    pub fn new() -> (a: ClickThroughArbiter)
        ensures
            a.windows@.len() == 0,
            !a.started,
    {
        ClickThroughArbiter { windows: Vec::new(), started: false }
    }

    /// Start-once guard for the single 20 Hz arbitration loop: tells
    /// the caller to launch the loop exactly on the first call.
    pub fn start(&mut self) -> (launch: bool)
        ensures
            launch == !old(self).started,
            final(self).started,
            final(self).windows@ == old(self).windows@,
    {
        let launch = !self.started;
        self.started = true;
        launch
    }

    fn find_entry(&self, window_id: u64) -> (r: Option<usize>)
        ensures
            match r {
                Some(i) => idx_of(self.windows@, window_id) == Some(i as int),
                None => idx_of(self.windows@, window_id) is None,
            },
    {
        let n = self.windows.len();
        let mut i: usize = 0;
        while i < n
            invariant
                i <= n,
                n == self.windows@.len(),
                forall|k: int| 0 <= k < i ==> self.windows@[k].window_id != window_id,
        decreases n - i,
        {
            if self.windows[i].window_id == window_id {
                proof {
                    lemma_idx_of(self.windows@, window_id);
                    match idx_of(self.windows@, window_id) {
                        Some(j) => {
                            assert(!(j < i) && !(i < j));
                        },
                        None => {
                            assert(self.windows@[i as int].window_id != window_id);
                        },
                    }
                }
                return Some(i);
            }
            i += 1;
        }
        proof {
            lemma_idx_of(self.windows@, window_id);
        }
        None
    }

    /// Overwrites the hot-zone list of the window: the fresh list
    /// fully replaces the previous one, no other window changes, and
    /// the window's last applied state is kept.
    pub fn register_popup_rects(&mut self, window_id: u64, rects: Vec<PopupRect>)
        ensures
            final(self).has_window(window_id),
            final(self).rects_of(window_id) == rects@,
            final(self).applied_of(window_id) == old(self).applied_of(window_id),
            forall|id: u64|
                id != window_id ==> final(self).rects_of(id) == old(self).rects_of(id)
                    && final(self).applied_of(id) == old(self).applied_of(id) && (final(self).has_window(id) == old(self).has_window(id)),
            final(self).started == old(self).started,
    {
        let ghost ws0 = self.windows@;
        match self.find_entry(window_id) {
            Some(i) => {
                proof {
                    lemma_idx_of(ws0, window_id);
                }
                let old_entry = self.windows.remove(i);
                let entry = WindowZones { window_id, rects, applied: old_entry.applied };
                self.windows.insert(i, entry);
                proof {
                    assert(self.windows@ =~= ws0.update(i as int, entry));
                    assert forall|id: u64| true implies idx_of(self.windows@, id) == idx_of(
                        ws0,
                        id,
                    ) by {
                        lemma_idx_of_update(ws0, i as int, entry, id);
                    }
                    assert forall|id: u64| id != window_id implies final(self).rects_of(id)
                        == old(self).rects_of(id) && final(self).applied_of(id) == old(self).applied_of(id) by {
                        lemma_idx_of(ws0, id);
                    }
                }
            },
            None => {
                let entry = WindowZones { window_id, rects, applied: None };
                self.windows.push(entry);
                proof {
                    assert forall|id: u64| true implies idx_of(self.windows@, id) == (
                    if idx_of(ws0, id) is Some {
                        idx_of(ws0, id)
                    } else if id == window_id {
                        Some(ws0.len() as int)
                    } else {
                        None::<int>
                    }) by {
                        lemma_idx_of_push(ws0, entry, id);
                    }
                    assert forall|id: u64| id != window_id implies final(self).rects_of(id)
                        == old(self).rects_of(id) && final(self).applied_of(id) == old(self).applied_of(id) by {
                        lemma_idx_of(ws0, id);
                    }
                }
            },
        }
    }

    /// One tick's decision for one window, from the cursor position
    /// relative to the window's origin: the state to apply when it
    /// differs from the last applied state or when the window was
    /// never evaluated; nothing otherwise, and nothing for an
    /// unregistered window.
    pub fn evaluate(&self, window_id: u64, rel_x: i64, rel_y: i64) -> (r: Option<bool>)
        ensures
            ({
                let desired = desired_ignore(self.rects_of(window_id), rel_x as int, rel_y as int);
                if !self.has_window(window_id) {
                    r is None
                } else if self.applied_of(window_id) == Some(desired) {
                    r is None
                } else {
                    r == Some(desired)
                }
            }),
    {
        match self.find_entry(window_id) {
            Some(i) => {
                proof {
                    lemma_idx_of(self.windows@, window_id);
                }
                let entry = &self.windows[i];
                let m = entry.rects.len();
                let mut over = false;
                let mut j: usize = 0;
                while j < m
                    invariant
                        j <= m,
                        m == entry.rects@.len(),
                        over == exists|k: int|
                            0 <= k < j && rect_contains_spec(entry.rects@[k], rel_x as int, rel_y as int),
                    decreases m - j,
                {
                    if rect_contains(&entry.rects[j], rel_x, rel_y) {
                        over = true;
                    }
                    j += 1;
                }
                let desired = !over;
                match entry.applied {
                    Some(a) => {
                        if a == desired {
                            None
                        } else {
                            Some(desired)
                        }
                    },
                    None => Some(desired),
                }
            },
            None => None,
        }
    }

    /// Records that the platform toggle succeeded for the window; a
    /// failed toggle is simply not recorded, so the next tick owes
    /// the toggle again.
    pub fn note_applied(&mut self, window_id: u64, state: bool)
        ensures
            final(self).started == old(self).started,
            final(self).has_window(window_id) == old(self).has_window(window_id),
            old(self).has_window(window_id) ==> final(self).applied_of(window_id) == Some(state),
            final(self).rects_of(window_id) == old(self).rects_of(window_id),
            forall|id: u64|
                id != window_id ==> final(self).rects_of(id) == old(self).rects_of(id) && final(self).applied_of(id) == old(self).applied_of(id) && final(self).has_window(id) == old(self).has_window(id),
    {
        let ghost ws0 = self.windows@;
        match self.find_entry(window_id) {
            Some(i) => {
                proof {
                    lemma_idx_of(ws0, window_id);
                }
                let mut entry = self.windows.remove(i);
                entry.applied = Some(state);
                let ghost e = entry;
                self.windows.insert(i, entry);
                proof {
                    assert(self.windows@ =~= ws0.update(i as int, e));
                    assert forall|id: u64| true implies idx_of(self.windows@, id) == idx_of(
                        ws0,
                        id,
                    ) by {
                        lemma_idx_of_update(ws0, i as int, e, id);
                    }
                    assert forall|id: u64| id != window_id implies final(self).rects_of(id)
                        == old(self).rects_of(id) && final(self).applied_of(id) == old(self).applied_of(id) by {
                        lemma_idx_of(ws0, id);
                    }
                }
            },
            None => {},
        }
    }

    /// Law: a window whose registered rect list is empty is
    /// click-through for every cursor position; only a non-empty
    /// registration can make it interactive.
    pub proof fn lemma_empty_rects_click_through(self, id: u64, x: int, y: int)
        requires
            self.rects_of(id).len() == 0,
        ensures
            desired_ignore(self.rects_of(id), x, y),
    {
    }
}

/// Cursor position relative to a window origin.
pub fn relative_cursor(cursor_x: i32, cursor_y: i32, win_x: i32, win_y: i32) -> (r: (i64, i64))
    ensures
        r.0 == cursor_x - win_x,
        r.1 == cursor_y - win_y,
{
    (cursor_x as i64 - win_x as i64, cursor_y as i64 - win_y as i64)
}

} // verus!
