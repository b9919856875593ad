//! Following the live window of the Codex pet overlay.
//!
//! Windows are named by their handle, given as a number (`0` is no window).
//! Querying a window and enumerating the desktop's windows is done by the
//! caller; the tracker decides which window to follow and when to look for a
//! new one.
use vstd::prelude::*;
use crate::geometry::{
    Rect, is_live_overlay_size, is_same_size, is_similar_size, looks_live_overlay_bounds,
    looks_same_size, looks_similar_overlay_size,
};
use crate::timer::InstantCell;

verus! {

/// How long to wait after a search that found nothing before searching again.
pub const SEARCH_RETRY_MS: u64 = 450;

/// What the caller learned about the tracked window: whether it still exists
/// and is visible, and its bounds where it has an area.
#[derive(Clone, Copy, Debug, PartialEq, Eq, Structural)]
pub struct WindowProbe {
    pub alive: bool,
    pub bounds: Option<Rect>,
}

/// The best Codex window that a search of the desktop found.
#[derive(Clone, Copy, Debug, PartialEq, Eq, Structural)]
pub struct WindowCandidate {
    pub handle: usize,
    pub bounds: Rect,
}

/// The outcome of reading the live overlay frame.
#[derive(Clone, Copy, Debug, PartialEq, Eq, Structural)]
pub enum LiveOverlayRead {
    /// The tracked window still looks like the overlay; these are its bounds.
    Following(Rect),
    /// No window is tracked and the next search is not due yet.
    Waiting,
    /// No window is tracked and a search of the desktop is due; its result
    /// goes to `accept_search`.
    SearchNeeded,
}

/// The window being followed, its last bounds, and when to search next.
#[derive(Clone, Copy, Debug, PartialEq, Eq, Structural)]
pub struct PetOverlayWindowTracker {
    pub handle: usize,
    pub next_search: InstantCell,
    pub last_bounds: Option<Rect>,
}

impl PetOverlayWindowTracker {
    /// The tracker with no window and an immediate search.
    pub open spec fn initial() -> Self {
        PetOverlayWindowTracker {
            handle: 0,
            next_search: InstantCell { deadline: None },
            last_bounds: None,
        }
    }

    /// The tracker after it lets go of its window.
    pub open spec fn dropped(self) -> Self {
        PetOverlayWindowTracker { handle: 0, last_bounds: None, ..self }
    }

    /// The tracked window is kept when it has an overlay's size and either
    /// about the expected size or a size similar to its last one.
    pub open spec fn keeps(self, bounds: Rect, expected: Rect) -> bool {
        &&& is_live_overlay_size(bounds)
        &&& is_same_size(bounds, expected) || (self.last_bounds matches Some(last)
            && is_similar_size(bounds, last))
    }

    /// Reading the tracked window: the tracker afterwards and the bounds read.
    pub open spec fn tracked_step(self, expected: Rect, probe: WindowProbe) -> (Self, Option<Rect>) {
        if self.handle == 0 {
            (self, None)
        } else if !probe.alive {
            (self.dropped(), None)
        } else {
            match probe.bounds {
                None => (self, None),
                Some(bounds) => if self.keeps(bounds, expected) {
                    (PetOverlayWindowTracker { last_bounds: Some(bounds), ..self }, Some(bounds))
                } else {
                    (self.dropped(), None)
                },
            }
        }
    }

    /// Taking the result of a search made at `now`.
    pub open spec fn search_step(self, found: Option<WindowCandidate>, now: int) -> (
        Self,
        Option<Rect>,
    ) {
        match found {
            Some(c) => (
                PetOverlayWindowTracker {
                    handle: c.handle,
                    last_bounds: Some(c.bounds),
                    next_search: InstantCell { deadline: None },
                },
                Some(c.bounds),
            ),
            None => (
                PetOverlayWindowTracker {
                    handle: 0,
                    last_bounds: None,
                    next_search: InstantCell { deadline: Some((now + SEARCH_RETRY_MS) as i64) },
                },
                None,
            ),
        }
    }

    /// The tracker's invariant: without a window it keeps no bounds, and the
    /// bounds it keeps have an overlay's size.
    pub open spec fn wf(self) -> bool {
        &&& self.handle == 0 ==> self.last_bounds is None
        &&& self.last_bounds matches Some(b) ==> is_live_overlay_size(b)
    }

    /// Reading the live overlay frame at `now`: the tracker afterwards and
    /// what the caller is told.
    pub open spec fn read_step(self, expected: Rect, probe: WindowProbe, now: int) -> (
        Self,
        LiveOverlayRead,
    ) {
        let (after, read) = self.tracked_step(expected, probe);
        (
            after,
            match read {
                Some(b) => LiveOverlayRead::Following(b),
                None => if after.next_search.has_elapsed(now) {
                    LiveOverlayRead::SearchNeeded
                } else {
                    LiveOverlayRead::Waiting
                },
            },
        )
    }

    pub fn new() -> (t: Self)
        ensures
            t == Self::initial(),
    {
        PetOverlayWindowTracker { handle: 0, next_search: InstantCell::default(), last_bounds: None }
    }

    /// The handle of the window being followed, `0` for none.
    pub fn current_handle(&self) -> (h: usize)
        ensures
            h == self.handle,
    {
        self.handle
    }

    fn drop_window(&mut self)
        ensures
            *final(self) == old(self).dropped(),
    {
        self.handle = 0;
        self.last_bounds = None;
    }

    /// Reads the tracked window from `probe`, the caller's query of the
    /// window `current_handle` names (ignored when there is none). The window
    /// is dropped when it is gone or no longer looks like the overlay.
    pub fn try_read_tracked(&mut self, expected: Rect, probe: WindowProbe) -> (r: Option<Rect>)
        ensures
            (*final(self), r) == old(self).tracked_step(expected, probe),
    {
        if self.handle == 0 {
            return None;
        }
        if !probe.alive {
            self.drop_window();
            return None;
        }
        let bounds = match probe.bounds {
            Some(b) => b,
            None => {
                return None;
            },
        };
        let still_same_window = match self.last_bounds {
            Some(last) => looks_similar_overlay_size(bounds, last),
            None => false,
        };
        if looks_live_overlay_bounds(bounds) && (looks_same_size(bounds, expected)
            || still_same_window) {
            self.last_bounds = Some(bounds);
            Some(bounds)
        } else {
            self.drop_window();
            None
        }
    }

    /// Reads the live overlay frame at `now`: the tracked window's bounds if
    /// it is still good, else whether a search of the desktop is due.
    pub fn read_live_overlay_frame(&mut self, expected: Rect, probe: WindowProbe, now: i64) -> (r:
        LiveOverlayRead)
        ensures
            (*final(self), r) == old(self).read_step(expected, probe, now as int),
    {
        if let Some(bounds) = self.try_read_tracked(expected, probe) {
            return LiveOverlayRead::Following(bounds);
        }
        if !self.next_search.elapsed(now) {
            return LiveOverlayRead::Waiting;
        }
        LiveOverlayRead::SearchNeeded
    }

    /// Takes the result of the search made at `now`: follows the window found,
    /// or waits `SEARCH_RETRY_MS` before the next search. A search only
    /// offers a window (a handle other than `0`) with an overlay's size.
    pub fn accept_search(&mut self, found: Option<WindowCandidate>, now: i64) -> (r: Option<Rect>)
        requires
            now + SEARCH_RETRY_MS <= i64::MAX,
            is_search_result(found),
        ensures
            (*final(self), r) == old(self).search_step(found, now as int),
    {
        match found {
            Some(c) => {
                self.handle = c.handle;
                self.last_bounds = Some(c.bounds);
                self.next_search.reset_now();
                Some(c.bounds)
            },
            None => {
                self.handle = 0;
                self.last_bounds = None;
                self.next_search.reset_after(now, SEARCH_RETRY_MS);
                None
            },
        }
    }
}

impl Default for PetOverlayWindowTracker {
    fn default() -> (t: Self)
        ensures
            t == Self::initial(),
    {
        PetOverlayWindowTracker::new()
    }
}

/// What a search of the desktop can offer: nothing, or a window (a handle
/// other than `0`) whose bounds have an overlay's size.
pub open spec fn is_search_result(found: Option<WindowCandidate>) -> bool {
    found matches Some(c) ==> c.handle != 0 && is_live_overlay_size(c.bounds)
}

/// The code of `c` with ASCII capitals made small, as
/// `str::to_ascii_lowercase` does.
pub open spec fn ascii_lower(c: char) -> int {
    if 65 <= (c as u32) <= 90 {
        (c as u32) + 32
    } else {
        c as u32 as int
    }
}

/// `s`, with ASCII capitals made small, ends with `suffix`.
pub open spec fn ends_with_lowered(s: Seq<char>, suffix: Seq<char>) -> bool {
    &&& s.len() >= suffix.len()
    &&& forall|i: int|
        0 <= i < suffix.len() ==> ascii_lower(#[trigger] s[s.len() - suffix.len() + i])
            == suffix[i] as u32 as int
}

/// The executable that owns a window is the Codex app: its path, compared
/// without regard to ASCII case, ends with `\codex.exe` or `/codex.exe`.
pub open spec fn is_codex_path(path: Seq<char>) -> bool {
    ends_with_lowered(path, "\\codex.exe"@) || ends_with_lowered(path, "/codex.exe"@)
}

fn ends_with_lower(s: &Vec<char>, suffix: &str) -> (r: bool)
    ensures
        r == ends_with_lowered(s@, suffix@),
{
    let t = crate::rate_limits::chars_of(suffix);
    if t.len() > s.len() {
        return false;
    }
    let base = s.len() - t.len();
    let mut i: usize = 0;
    while i < t.len()
        invariant
            t@ == suffix@,
            base + t.len() == s.len(),
            base + t@.len() == s@.len(),
            0 <= i <= t@.len(),
            forall|j: int| 0 <= j < i ==> ascii_lower(#[trigger] s@[s@.len() - t@.len() + j])
                == t@[j] as u32 as int,
        decreases t@.len() - i,
    {
        let c = s[base + i];
        let code = c as u32;
        let lower = if code >= 65 && code <= 90 {
            code + 32
        } else {
            code
        };
        if lower != t[i] as u32 {
            assert(ascii_lower(s@[s@.len() - t@.len() + i]) != t@[i as int] as u32 as int);
            return false;
        }
        i = i + 1;
    }
    true
}

/// The image path of a window's process names the Codex app.
pub fn is_codex_image_path(path: &str) -> (r: bool)
    ensures
        r == is_codex_path(path@),
{
    let s = crate::rate_limits::chars_of(path);
    ends_with_lower(&s, "\\codex.exe") || ends_with_lower(&s, "/codex.exe")
}

/// A window that keeps its size is followed for as long as it stays alive:
/// reading it again gives its bounds and keeps it.
pub proof fn law_steady_window_is_kept(
    t: PetOverlayWindowTracker,
    expected: Rect,
    bounds: Rect,
)
    requires
        t.handle != 0,
        t.last_bounds == Some(bounds),
        bounds.width > 0,
        bounds.height > 0,
        is_live_overlay_size(bounds),
    ensures
        t.tracked_step(expected, WindowProbe { alive: true, bounds: Some(bounds) }) == (t, Some(
            bounds,
        )),
{
}

/// A window that is gone is dropped, and the tracker reads nothing from it.
pub proof fn law_dead_window_is_dropped(
    t: PetOverlayWindowTracker,
    expected: Rect,
    probe: WindowProbe,
)
    requires
        !probe.alive,
    ensures
        t.tracked_step(expected, probe).1 is None,
        t.tracked_step(expected, probe).0.handle == 0,
{
}

/// After a search that found nothing, the tracker holds no window and no
/// bounds; reading the overlay before `SEARCH_RETRY_MS` have passed gives
/// nothing and asks for no search, and from then on a search is due.
pub proof fn law_failed_search_waits(
    t: PetOverlayWindowTracker,
    now: i64,
    later: int,
    expected: Rect,
    probe: WindowProbe,
)
    requires
        now + SEARCH_RETRY_MS <= i64::MAX,
    ensures
        t.search_step(None, now as int).0.handle == 0,
        t.search_step(None, now as int).0.last_bounds is None,
        t.search_step(None, now as int).1 is None,
        t.search_step(None, now as int).0.next_search.has_elapsed(later) <==> later >= now
            + SEARCH_RETRY_MS,
        later < now + SEARCH_RETRY_MS ==> t.search_step(None, now as int).0.read_step(
            expected,
            probe,
            later,
        ) == (t.search_step(None, now as int).0, LiveOverlayRead::Waiting),
        later >= now + SEARCH_RETRY_MS ==> t.search_step(None, now as int).0.read_step(
            expected,
            probe,
            later,
        ).1 == LiveOverlayRead::SearchNeeded,
{
}

/// The tracker's invariant holds from the start and is kept by every read
/// and by every search result; a frame the tracker gives has an overlay's
/// size and is the one it keeps for the window it follows.
pub proof fn law_tracker_invariant(
    t: PetOverlayWindowTracker,
    expected: Rect,
    probe: WindowProbe,
    now: int,
    found: Option<WindowCandidate>,
)
    requires
        t.wf(),
        is_search_result(found),
    ensures
        PetOverlayWindowTracker::initial().wf(),
        t.tracked_step(expected, probe).0.wf(),
        t.read_step(expected, probe, now).0.wf(),
        t.search_step(found, now).0.wf(),
        t.tracked_step(expected, probe).1 matches Some(b) ==> {
            &&& is_live_overlay_size(b)
            &&& t.tracked_step(expected, probe).0.last_bounds == Some(b)
            &&& t.tracked_step(expected, probe).0.handle != 0
        },
        t.read_step(expected, probe, now).1 matches LiveOverlayRead::Following(b) ==> {
            &&& is_live_overlay_size(b)
            &&& t.read_step(expected, probe, now).0.last_bounds == Some(b)
            &&& t.read_step(expected, probe, now).0.handle != 0
        },
        t.search_step(found, now).1 matches Some(b) ==> {
            &&& is_live_overlay_size(b)
            &&& t.search_step(found, now).0.last_bounds == Some(b)
            &&& t.search_step(found, now).0.handle != 0
        },
{
}

/// A window found by a search is followed at once, and the next search is not
/// delayed.
pub proof fn law_found_window_is_followed(t: PetOverlayWindowTracker, c: WindowCandidate, now: int)
    ensures
        t.search_step(Some(c), now).0.handle == c.handle,
        t.search_step(Some(c), now).1 == Some(c.bounds),
        t.search_step(Some(c), now).0.next_search.has_elapsed(now),
{
}

/// A tracked window that is alive, has an overlay's size (sides of 80 to
/// 1200 pixels) and about the expected size (each side more than 0.45 and
/// less than 2.2 times the expected one) is kept whatever its last bounds
/// were: its bounds are returned and remembered, and nothing else changes.
pub proof fn law_expected_size_window_is_kept(
    t: PetOverlayWindowTracker,
    expected: Rect,
    b: Rect,
)
    requires
        t.handle != 0,
        80 <= b.width <= 1200,
        80 <= b.height <= 1200,
        20 * b.width > 9 * expected.width,
        5 * b.width < 11 * expected.width,
        20 * b.height > 9 * expected.height,
        5 * b.height < 11 * expected.height,
    ensures
        t.tracked_step(expected, WindowProbe { alive: true, bounds: Some(b) }) == (
            PetOverlayWindowTracker { last_bounds: Some(b), ..t },
            Some(b),
        ),
{
}

/// A tracked window that is alive, has an overlay's size and a size similar
/// to its last one (each side more than 0.70 and less than 1.45 times the
/// last) is kept, whatever the expected frame.
pub proof fn law_similar_window_is_kept(
    t: PetOverlayWindowTracker,
    expected: Rect,
    last: Rect,
    b: Rect,
)
    requires
        t.handle != 0,
        t.last_bounds == Some(last),
        80 <= b.width <= 1200,
        80 <= b.height <= 1200,
        10 * b.width > 7 * last.width,
        20 * b.width < 29 * last.width,
        10 * b.height > 7 * last.height,
        20 * b.height < 29 * last.height,
    ensures
        t.tracked_step(expected, WindowProbe { alive: true, bounds: Some(b) }) == (
            PetOverlayWindowTracker { last_bounds: Some(b), ..t },
            Some(b),
        ),
{
}

/// A tracked window whose bounds lose an overlay's size is let go: the
/// tracker holds no window and no bounds, keeps its search time, and reads
/// nothing.
pub proof fn law_wrong_size_window_is_dropped(
    t: PetOverlayWindowTracker,
    expected: Rect,
    b: Rect,
)
    requires
        t.handle != 0,
        b.width < 80 || b.height < 80 || b.width > 1200 || b.height > 1200,
    ensures
        t.tracked_step(expected, WindowProbe { alive: true, bounds: Some(b) }) == (
            PetOverlayWindowTracker { handle: 0, last_bounds: None, ..t },
            None::<Rect>,
        ),
{
}

} // verus!
