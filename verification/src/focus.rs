//! Focus tracking for the tracked window: the focus policy, the
//! debounced publisher of focus changes, and bookkeeping for the
//! platform's foreground-change hook.

use crate::text::{contains_str, contains_sub};
use vstd::prelude::*;

verus! {

/// Whether the tracked window counts as focused: it must exist, and
/// either be the foreground window itself or the caller's own process
/// must own the foreground window (which keeps overlay interaction
/// from flickering the state). A missing tracked window is simply
/// "not focused", never an error.
pub fn is_diablo_focused(
    tracked_window: Option<u64>,
    foreground_window: u64,
    foreground_pid: u32,
    own_pid: u32,
) -> (r: bool)
    ensures
        r == match tracked_window {
            Some(h) => h == foreground_window || foreground_pid == own_pid,
            None => false,
        },
{
    match tracked_window {
        Some(h) => h == foreground_window || foreground_pid == own_pid,
        None => false,
    }
}

/// Whether a window title marks the tracked application or one of the
/// overlay's own windows.
pub fn window_title_matches(title: &str) -> (r: bool)
    ensures
        r == (contains_sub(title@, "Diablo II"@) || contains_sub(title@, "PD2Trade:"@)),
{
    contains_str(title, "Diablo II") || contains_str(title, "PD2Trade:")
}

/// Focus decision from what the platform reports about the active
/// window: focused when the caller's process owns it, when its title
/// matches, or when it is the tracked window itself.
pub fn active_window_indicates_focus(
    own_process_owns_active: bool,
    active_title: &str,
    active_is_tracked: bool,
) -> (r: bool)
    ensures
        r == (own_process_owns_active || contains_sub(active_title@, "Diablo II"@) || contains_sub(
            active_title@,
            "PD2Trade:"@,
        ) || active_is_tracked),
{
    own_process_owns_active || window_title_matches(active_title) || active_is_tracked
}

/// What one evaluation publishes, given the previously published
/// value: the fresh value exactly when it differs from the last
/// publication, and always on the very first evaluation.
pub open spec fn publish_step(last: Option<bool>, current: bool) -> Option<bool> {
    if last == Some(current) {
        None
    } else {
        Some(current)
    }
}

/// The values published over a run of samples, starting from the
/// given last-published state.
pub open spec fn published_from(last: Option<bool>, samples: Seq<bool>) -> Seq<bool>
    decreases samples.len(),
{
    if samples.len() == 0 {
        Seq::empty()
    } else {
        let head = samples[0];
        let rest = published_from(Some(head), samples.drop_first());
        match publish_step(last, head) {
            Some(v) => seq![v] + rest,
            None => rest,
        }
    }
}

/// Adjacent-distinct compression of a sequence: the first element,
/// then every element that differs from its predecessor.
pub open spec fn dedup_adjacent(samples: Seq<bool>) -> Seq<bool>
    decreases samples.len(),
{
    if samples.len() == 0 {
        Seq::empty()
    } else {
        seq![samples[0]] + dedup_rest(samples[0], samples.drop_first())
    }
}

pub open spec fn dedup_rest(prev: bool, samples: Seq<bool>) -> Seq<bool>
    decreases samples.len(),
{
    if samples.len() == 0 {
        Seq::empty()
    } else if samples[0] == prev {
        dedup_rest(prev, samples.drop_first())
    } else {
        seq![samples[0]] + dedup_rest(samples[0], samples.drop_first())
    }
}

proof fn lemma_published_rest(prev: bool, samples: Seq<bool>)
    ensures
        published_from(Some(prev), samples) == dedup_rest(prev, samples),
    decreases samples.len(),
{
    if samples.len() > 0 {
        lemma_published_rest(samples[0], samples.drop_first());
    }
}

/// Law: for any sequence of focus samples, the sequence published by
/// a fresh monitor equals the adjacent-distinct compression of the
/// samples — no two consecutive publications are identical, and the
/// very first sample always publishes.
pub proof fn lemma_published_is_dedup(samples: Seq<bool>)
    ensures
        published_from(None, samples) == dedup_adjacent(samples),
{
    if samples.len() > 0 {
        lemma_published_rest(samples[0], samples.drop_first());
    }
}

proof fn lemma_dedup_rest_shape(prev: bool, samples: Seq<bool>)
    ensures
        dedup_rest(prev, samples).len() > 0 ==> dedup_rest(prev, samples)[0] != prev,
        forall|i: int|
            #![trigger dedup_rest(prev, samples)[i]]
            0 < i < dedup_rest(prev, samples).len() ==> dedup_rest(prev, samples)[i] != dedup_rest(
                prev,
                samples,
            )[i - 1],
    decreases samples.len(),
{
    if samples.len() > 0 {
        if samples[0] == prev {
            lemma_dedup_rest_shape(prev, samples.drop_first());
        } else {
            lemma_dedup_rest_shape(samples[0], samples.drop_first());
            let d = seq![samples[0]] + dedup_rest(samples[0], samples.drop_first());
            assert forall|i: int| #![trigger d[i]] 0 < i < d.len() implies d[i] != d[i - 1] by {
                assert(d[i] == dedup_rest(samples[0], samples.drop_first())[i - 1]);
                if i > 1 {
                    assert(d[i - 1] == dedup_rest(samples[0], samples.drop_first())[i - 2]);
                }
            }
        }
    }
}

/// Law: no two consecutive publications are ever identical.
pub proof fn lemma_no_adjacent_repeats(samples: Seq<bool>)
    ensures
        forall|i: int|
            #![trigger published_from(None, samples)[i]]
            0 < i < published_from(None, samples).len() ==> published_from(None, samples)[i]
                != published_from(None, samples)[i - 1],
{
    lemma_published_is_dedup(samples);
    if samples.len() > 0 {
        lemma_dedup_rest_shape(samples[0], samples.drop_first());
        let d = dedup_adjacent(samples);
        let rest = dedup_rest(samples[0], samples.drop_first());
        assert forall|i: int| #![trigger d[i]] 0 < i < d.len() implies d[i] != d[i - 1] by {
            assert(d[i] == rest[i - 1]);
            if i > 1 {
                assert(d[i - 1] == rest[i - 2]);
            } else {
                assert(d[0] == samples[0]);
            }
        }
    }
}

/// Debounced publisher of the tracked window's focus state: it
/// remembers the last published value and publishes only on change.
pub struct FocusMonitor {
    pub last_published: Option<bool>,
}

impl FocusMonitor {
    /// A monitor that has published nothing yet.
    pub fn new() -> (m: FocusMonitor)
        ensures
            m.last_published is None,
    {
        FocusMonitor { last_published: None }
    }

    /// One evaluation: compares the freshly computed focus state with
    /// the last published value and returns the value to publish, or
    /// nothing when the state is unchanged.
    pub fn observe(&mut self, current: bool) -> (published: Option<bool>)
        ensures
            published == publish_step(old(self).last_published, current),
            final(self).last_published == Some(current),
    {
        let publish = match self.last_published {
            Some(last) => last != current,
            None => true,
        };
        self.last_published = Some(current);
        if publish {
            Some(current)
        } else {
            None
        }
    }
}

/// Bookkeeping for the platform's foreground-change hook: records
/// whether a hook is currently held, so that release happens exactly
/// when one was installed and is otherwise a no-op.
pub struct ForegroundHook {
    pub installed: bool,
}

impl ForegroundHook {
    /// No hook held yet.
    pub fn new() -> (h: ForegroundHook)
        ensures
            !h.installed,
    {
        ForegroundHook { installed: false }
    }
}

/// Records that the foreground-change hook has been installed; the
/// platform call itself happens at the boundary that owns the hook.
pub fn initialize_foreground_monitoring(hook: &mut ForegroundHook)
    ensures
        final(hook).installed,
{
    hook.installed = true;
}

/// Records that the foreground-change hook has been released;
/// idempotent when none was installed.
pub fn cleanup_foreground_monitoring(hook: &mut ForegroundHook)
    ensures
        !final(hook).installed,
{
    hook.installed = false;
}

} // verus!
