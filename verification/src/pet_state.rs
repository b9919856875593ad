//! Where Codex says its pet is: the overlay bounds that Codex saves in its
//! global state file, and a reader that caches them by the file's
//! modification time.
//!
//! The caller reads and parses the file and hands over, for each place the
//! bounds can be saved, the entries that the search reads, with every number
//! rounded to the nearest integer (halves away from zero, saturating).
use vstd::prelude::*;
use crate::geometry::Rect;

verus! {

/// What the `electron-avatar-overlay-open` entry holds.
#[derive(Clone, Copy, Debug, PartialEq, Eq, Structural)]
pub enum OpenFlag {
    /// Missing, or neither a boolean nor a number.
    Absent,
    Flag(bool),
    /// A number, with its value where it is an integer that fits in `i64`.
    Number(Option<i64>),
}

/// Four numeric entries of a JSON object, each rounded, or `None` where the
/// entry is missing or not a number. For the mascot, `x` and `y` are its
/// `left` and `top` entries.
#[derive(Clone, Copy, Debug, PartialEq, Eq, Structural)]
pub struct RectNumbers {
    pub x: Option<i32>,
    pub y: Option<i32>,
    pub width: Option<i32>,
    pub height: Option<i32>,
}

/// The `electron-avatar-overlay-bounds` object.
#[derive(Clone, Copy, Debug, PartialEq, Eq, Structural)]
pub struct OverlayBounds {
    /// The overlay window's `x`, `y`, `width` and `height`.
    pub frame: RectNumbers,
    /// The `mascot` member, where it is an object.
    pub mascot: Option<RectNumbers>,
    /// `x + mascot.left` and `y + mascot.top`, summed before rounding, where
    /// both numbers exist.
    pub mascot_screen_left: Option<i32>,
    pub mascot_screen_top: Option<i32>,
    /// The `anchor` member, where it exists.
    pub anchor: Option<RectNumbers>,
}

/// One place in the state file where the overlay can be described.
#[derive(Clone, Copy, Debug, PartialEq, Eq, Structural)]
pub struct OverlayRoot {
    pub open: OpenFlag,
    /// The bounds object, where it exists and is an object.
    pub bounds: Option<OverlayBounds>,
}

/// The state file: its top level, then its `electron-persisted-atom-state`
/// member where that exists.
pub struct OverlayDocument {
    pub roots: Vec<OverlayRoot>,
}

/// The pet as the state file places it.
#[derive(Clone, Copy, Debug, PartialEq, Eq, Structural)]
pub struct PetFrameSnapshot {
    /// The overlay window, in the coordinates Codex saved.
    pub overlay: Rect,
    /// The mascot, relative to the overlay window.
    pub mascot: Rect,
    /// The pet's frame on screen.
    pub anchor: Rect,
}

/// What the search of a state file found.
#[derive(Clone, Copy, Debug, PartialEq, Eq, Structural)]
pub enum SnapshotSearch {
    Found(PetFrameSnapshot),
    /// No place describes an open overlay with a mascot.
    NoPet,
    /// The first place that does lacks one of its numbers.
    Incomplete,
}

/// The overlay is open unless the flag is `false` or the number zero.
pub open spec fn is_open(flag: OpenFlag) -> bool {
    match flag {
        OpenFlag::Flag(b) => b,
        OpenFlag::Number(n) => n != Some(0i64),
        OpenFlag::Absent => true,
    }
}

pub open spec fn at_least_one(v: i32) -> i32 {
    if v >= 1 {
        v
    } else {
        1
    }
}

/// The rectangle the four numbers give, each side at least one pixel.
pub open spec fn rect_of(n: RectNumbers) -> Option<Rect> {
    match (n.x, n.y, n.width, n.height) {
        (Some(x), Some(y), Some(w), Some(h)) => Some(
            Rect { left: x, top: y, width: at_least_one(w), height: at_least_one(h) },
        ),
        _ => None,
    }
}

/// The place describes an open overlay whose bounds hold a mascot object.
pub open spec fn root_applies(root: OverlayRoot) -> bool {
    &&& is_open(root.open)
    &&& root.bounds matches Some(b) && b.mascot is Some
}

/// The pet frame described by bounds that hold all their numbers.
pub open spec fn snapshot_of(b: OverlayBounds) -> Option<PetFrameSnapshot> {
    match (rect_of(b.frame), b.mascot, b.mascot_screen_left, b.mascot_screen_top) {
        (Some(overlay), Some(m), Some(sx), Some(sy)) => match rect_of(m) {
            Some(mascot) => {
                let fallback = Rect {
                    left: sx,
                    top: sy,
                    width: mascot.width,
                    height: mascot.height,
                };
                let anchor = match b.anchor {
                    Some(a) => match rect_of(a) {
                        Some(r) => r,
                        None => fallback,
                    },
                    None => fallback,
                };
                Some(PetFrameSnapshot { overlay, mascot, anchor })
            },
            None => None,
        },
        _ => None,
    }
}

/// The first place that describes an open overlay with a mascot decides.
pub open spec fn search_roots(roots: Seq<OverlayRoot>) -> SnapshotSearch
    decreases roots.len(),
{
    if roots.len() == 0 {
        SnapshotSearch::NoPet
    } else if !root_applies(roots[0]) {
        search_roots(roots.drop_first())
    } else {
        match snapshot_of(roots[0].bounds.unwrap()) {
            Some(s) => SnapshotSearch::Found(s),
            None => SnapshotSearch::Incomplete,
        }
    }
}

/// Whether the overlay is open, by its `electron-avatar-overlay-open` entry.
pub fn overlay_open(flag: OpenFlag) -> (r: bool)
    ensures
        r == is_open(flag),
{
    match flag {
        OpenFlag::Flag(b) => b,
        OpenFlag::Number(n) => match n {
            Some(v) => v != 0,
            None => true,
        },
        OpenFlag::Absent => true,
    }
}

/// The rectangle of an object's `x`, `y`, `width` and `height`, each side at
/// least one pixel; nothing where one of them is missing.
pub fn rect_from_value(n: RectNumbers) -> (r: Option<Rect>)
    ensures
        r == rect_of(n),
{
    match (n.x, n.y, n.width, n.height) {
        (Some(x), Some(y), Some(w), Some(h)) => Some(
            Rect { left: x, top: y, width: w.max(1), height: h.max(1) },
        ),
        _ => None,
    }
}

fn snapshot_from_bounds(b: OverlayBounds) -> (r: Option<PetFrameSnapshot>)
    ensures
        r == snapshot_of(b),
{
    let overlay = match rect_from_value(b.frame) {
        Some(r) => r,
        None => {
            return None;
        },
    };
    let m = match b.mascot {
        Some(m) => m,
        None => {
            return None;
        },
    };
    let (sx, sy) = match (b.mascot_screen_left, b.mascot_screen_top) {
        (Some(sx), Some(sy)) => (sx, sy),
        _ => {
            return None;
        },
    };
    let mascot = match rect_from_value(m) {
        Some(r) => r,
        None => {
            return None;
        },
    };
    let fallback = Rect { left: sx, top: sy, width: mascot.width, height: mascot.height };
    let anchor = match b.anchor {
        Some(a) => match rect_from_value(a) {
            Some(r) => r,
            None => fallback,
        },
        None => fallback,
    };
    Some(PetFrameSnapshot { overlay, mascot, anchor })
}

/// Searches the places of a state file in order for the pet's frame.
pub fn find_snapshot(roots: &Vec<OverlayRoot>) -> (r: SnapshotSearch)
    ensures
        r == search_roots(roots@),
{
    let mut i: usize = 0;
    assert(roots@.skip(0) =~= roots@);
    while i < roots.len()
        invariant
            0 <= i <= roots@.len(),
            search_roots(roots@) == search_roots(roots@.skip(i as int)),
        decreases roots@.len() - i,
    {
        let root = roots[i];
        assert(roots@.skip(i as int)[0] == root);
        assert(roots@.skip(i as int).drop_first() =~= roots@.skip(i + 1));
        let applies = overlay_open(root.open) && match root.bounds {
            Some(b) => b.mascot.is_some(),
            None => false,
        };
        if applies {
            return match snapshot_from_bounds(root.bounds.unwrap()) {
                Some(s) => SnapshotSearch::Found(s),
                None => SnapshotSearch::Incomplete,
            };
        }
        i = i + 1;
    }
    assert(roots@.skip(i as int).len() == 0);
    SnapshotSearch::NoPet
}

/// Reads the pet's frame from Codex's state file, keeping the last result for
/// as long as the file's modification time stays the same.
pub struct PetFrameReader {
    pub path: String,
    /// The file's modification time when it was last read to the end, in
    /// nanoseconds from the Unix epoch.
    pub cached_modified: Option<i128>,
    pub cached: Option<PetFrameSnapshot>,
}

impl PetFrameReader {
    /// The file has not changed since it was last read: its modification time
    /// is known and equals the cached one.
    pub open spec fn is_cache_hit(self, modified: Option<i128>) -> bool {
        modified is Some && modified == self.cached_modified
    }

    /// Reading the file whose modification time is `modified` and whose
    /// parsed places are `doc` (`None` where it could not be read or parsed):
    /// the reader afterwards, and the frame read.
    pub open spec fn read_step(self, modified: Option<i128>, doc: Option<Seq<OverlayRoot>>) -> (
        Self,
        Option<PetFrameSnapshot>,
    ) {
        if self.is_cache_hit(modified) {
            (self, self.cached)
        } else {
            match doc {
                None => (self, None),
                Some(roots) => match search_roots(roots) {
                    SnapshotSearch::Found(s) => (
                        PetFrameReader { cached_modified: modified, cached: Some(s), ..self },
                        Some(s),
                    ),
                    SnapshotSearch::Incomplete => (self, None),
                    SnapshotSearch::NoPet => (
                        PetFrameReader { cached_modified: modified, cached: None, ..self },
                        None,
                    ),
                },
            }
        }
    }

    pub fn new(path: String) -> (r: Self)
        ensures
            r.path == path,
            r.cached_modified is None,
            r.cached is None,
    {
        PetFrameReader { path, cached_modified: None, cached: None }
    }

    /// The file must be read: its modification time is unknown or differs
    /// from the cached one.
    pub fn needs_document(&self, modified: Option<i128>) -> (r: bool)
        ensures
            r == !self.is_cache_hit(modified),
    {
        match (modified, self.cached_modified) {
            (Some(m), Some(c)) => m != c,
            _ => true,
        }
    }

    /// The pet's frames from the state file. `doc` is read only when
    /// `needs_document` says so.
    pub fn read_snapshot(&mut self, modified: Option<i128>, doc: Option<OverlayDocument>) -> (r:
        Option<PetFrameSnapshot>)
        ensures
            (*final(self), r) == old(self).read_step(
                modified,
                match doc {
                    Some(d) => Some(d.roots@),
                    None => None,
                },
            ),
    {
        if !self.needs_document(modified) {
            return self.cached;
        }
        let doc = match doc {
            Some(d) => d,
            None => {
                return None;
            },
        };
        match find_snapshot(&doc.roots) {
            SnapshotSearch::Found(s) => {
                self.cached_modified = modified;
                self.cached = Some(s);
                Some(s)
            },
            SnapshotSearch::Incomplete => None,
            SnapshotSearch::NoPet => {
                self.cached_modified = modified;
                self.cached = None;
                None
            },
        }
    }

    /// The pet's frame on screen, as the state file places it.
    pub fn read_pet_frame(&mut self, modified: Option<i128>, doc: Option<OverlayDocument>) -> (r:
        Option<Rect>)
        ensures
            ({
                let (after, snap) = old(self).read_step(
                    modified,
                    match doc {
                        Some(d) => Some(d.roots@),
                        None => None,
                    },
                );
                &&& *final(self) == after
                &&& r == match snap {
                    Some(s) => Some(s.anchor),
                    None => None,
                }
            }),
    {
        match self.read_snapshot(modified, doc) {
            Some(s) => Some(s.anchor),
            None => None,
        }
    }
}

/// An unchanged file is not read again: once a read with a known
/// modification time has been cached, the next read with that time gives the
/// same frame, whatever the file would now parse to.
pub proof fn law_unchanged_file_gives_same_frame(
    reader: PetFrameReader,
    m: i128,
    doc1: Option<Seq<OverlayRoot>>,
    doc2: Option<Seq<OverlayRoot>>,
)
    requires
        reader.read_step(Some(m), doc1).0.cached_modified == Some(m),
    ensures
        ({
            let (after, first) = reader.read_step(Some(m), doc1);
            after.read_step(Some(m), doc2) == (after, first)
        }),
{
}

/// A closed overlay shows no pet: where every place says the overlay is
/// closed, the search finds none.
pub proof fn law_closed_overlay_has_no_pet(roots: Seq<OverlayRoot>)
    requires
        forall|i: int| 0 <= i < roots.len() ==> !is_open(#[trigger] roots[i].open),
    ensures
        search_roots(roots) == SnapshotSearch::NoPet,
    decreases roots.len(),
{
    if roots.len() > 0 {
        assert(!is_open(roots[0].open));
        let rest = roots.drop_first();
        assert forall|i: int| 0 <= i < rest.len() implies !is_open(#[trigger] rest[i].open) by {
            assert(rest[i] == roots[i + 1]);
        }
        law_closed_overlay_has_no_pet(rest);
    }
}

/// The frame found is never empty: the overlay, the mascot and the anchor
/// each have sides of at least one pixel.
pub proof fn law_found_frame_has_area(roots: Seq<OverlayRoot>)
    ensures
        search_roots(roots) matches SnapshotSearch::Found(s) ==> {
            &&& s.overlay.width >= 1 && s.overlay.height >= 1
            &&& s.mascot.width >= 1 && s.mascot.height >= 1
            &&& s.anchor.width >= 1 && s.anchor.height >= 1
        },
    decreases roots.len(),
{
    if roots.len() > 0 && !root_applies(roots[0]) {
        law_found_frame_has_area(roots.drop_first());
    }
}

} // verus!
