//! Keeping the rings on the pet from frame to frame: following a drag,
//! following the live overlay window while it moves, holding the rings still
//! against jitter, and placing the square ring window around the pet.
//!
//! Times are milliseconds on the application's monotonic clock. Values that
//! depend on the monitor's scale (thresholds and paddings in physical pixels)
//! are computed by the caller and passed in.
use vstd::prelude::*;
use crate::geometry::{
    Point, Rect, abs_i64, abs_int, fits_i32, fits_i32_abs, half_i64, in_i32, in_i32_abs, max_int,
    half_toward_zero,
};

verus! {

/// How close to the pet, in pixels, a press of the mouse starts a drag.
pub const DRAG_HIT_PADDING: i32 = 42;

/// How long to keep redrawing fast after the live overlay moved.
pub const LIVE_FOLLOW_MS: u64 = 1600;

/// How long after a drag ends to keep following the overlay closely.
pub const RELEASE_FOLLOW_MS: u64 = 2600;

/// How long to keep redrawing fast after the overlay moved during that time.
pub const RELEASE_LIVE_FOLLOW_MS: u64 = 900;

/// How far, in pixels, the saved anchor may move and still count as unmoved.
pub const STABILIZE_ANCHOR_TOLERANCE: i32 = 4;

/// A jump of the pet frame, in unscaled pixels, that is ignored while the
/// saved anchor stays put.
pub const STABILIZE_JUMP_PX: i32 = 18;

/// The space around the pet inside the ring window, in unscaled pixels.
pub const RING_PADDING_PX: i32 = 38;

/// The smallest side of the ring window, in unscaled pixels.
pub const RING_MIN_SIDE_PX: i32 = 120;

/// The redraw interval while the pet moves.
pub const FRAME_FAST_MS: u32 = 16;

/// The redraw interval while the pet rests.
pub const FRAME_IDLE_MS: u32 = 80;

/// How far in the past the follow deadlines start, so that they have passed.
pub const PAST_DEADLINE_MS: i64 = 1000;

/// Where the cursor grabbed the pet, and the pet's size at that moment.
#[derive(Clone, Copy, Debug, PartialEq, Eq, Structural)]
pub struct DragFollow {
    pub grab_x: i32,
    pub grab_y: i32,
    pub width: i32,
    pub height: i32,
}

/// The live overlay window and the pet frame the caller derived from it.
#[derive(Clone, Copy, Debug, PartialEq, Eq, Structural)]
pub struct LiveOverlay {
    pub bounds: Rect,
    pub pet: Rect,
}

/// What one frame learned about the pointer and the pet.
#[derive(Clone, Copy, Debug, PartialEq, Eq, Structural)]
pub struct PetInputs {
    pub now: i64,
    pub cursor: Point,
    pub mouse_down: bool,
    /// The pet frame that the saved state gives, in physical pixels.
    pub state_pet_guess: Rect,
    /// The live overlay window, where it is being tracked.
    pub live: Option<LiveOverlay>,
}

/// The pet frame of this frame, and whether to hold it against jitter.
#[derive(Clone, Copy, Debug, PartialEq, Eq, Structural)]
pub struct FollowedPet {
    pub physical: Rect,
    pub skip_stabilize: bool,
}

/// Where the ring window goes and what about it changed.
#[derive(Clone, Copy, Debug, PartialEq, Eq, Structural)]
pub struct RingPlacement {
    pub bounds: Rect,
    /// The bounds differ from the last placed ones.
    pub moved: bool,
    /// The pet window to stack behind differs from the last one.
    pub restack: bool,
}

/// How far the frame under way has come (see `FrameFollower::frame_step`).
#[derive(Clone, Copy, Debug, PartialEq, Eq, Structural)]
pub enum FramePhase {
    /// No frame is under way.
    Idle,
    /// The pet frame is chosen; the jump threshold at it is awaited.
    Followed { anchor: Option<Rect>, skip_stabilize: bool, physical: Rect, pet_window: usize },
    /// The pet frame is settled; the ring metrics at it are awaited.
    Settled { physical: Rect, pet_window: usize },
    /// The ring window is placed; whether the readout shows is awaited.
    Placed { moved: bool },
    /// The rings are drawn; the clock is awaited to schedule the next frame.
    Drawn,
}

/// What the overlay remembers between frames.
#[derive(Clone, Copy, Debug, PartialEq, Eq, Structural)]
pub struct FrameFollower {
    pub phase: FramePhase,
    pub current_pet: Option<Rect>,
    pub drag_follow: Option<DragFollow>,
    pub last_ring_bounds: Option<Rect>,
    pub last_show_readout: bool,
    pub last_state_anchor: Option<Rect>,
    pub last_live_overlay: Option<Rect>,
    pub last_pet_window: usize,
    pub live_follow_until: i64,
    pub release_follow_until: i64,
    pub mouse_was_down: bool,
}

/// The pet frame that follows the cursor during a drag.
pub open spec fn dragged_frame(d: DragFollow, cursor: Point) -> Rect {
    Rect {
        left: (cursor.x - d.grab_x) as i32,
        top: (cursor.y - d.grab_y) as i32,
        width: d.width,
        height: d.height,
    }
}

/// The integer arithmetic of `dragged_frame` stays in `i32`.
pub open spec fn drag_arith_ok(d: DragFollow, cursor: Point) -> bool {
    in_i32(cursor.x - d.grab_x) && in_i32(cursor.y - d.grab_y)
}

/// The live overlay moved since the last frame.
pub open spec fn live_moved(last: Option<Rect>, live: Rect) -> bool {
    match last {
        Some(prev) => prev.left != live.left || prev.top != live.top,
        None => false,
    }
}

impl FrameFollower {
    /// The follower before the first frame at `now`.
    pub open spec fn initial(now: int) -> Self {
        FrameFollower {
            phase: FramePhase::Idle,
            current_pet: None,
            drag_follow: None,
            last_ring_bounds: None,
            last_show_readout: false,
            last_state_anchor: None,
            last_live_overlay: None,
            last_pet_window: 0,
            live_follow_until: (now - PAST_DEADLINE_MS) as i64,
            release_follow_until: (now - PAST_DEADLINE_MS) as i64,
            mouse_was_down: false,
        }
    }

    /// A drag just ended: the button was down on the last frame, is up now,
    /// and the pet was being dragged.
    pub open spec fn drag_released(self, inp: PetInputs) -> bool {
        self.mouse_was_down && !inp.mouse_down && self.drag_follow is Some
    }

    /// The follower after noting a release at `inp.now`.
    pub open spec fn after_release(self, inp: PetInputs) -> Self {
        if self.drag_released(inp) {
            FrameFollower {
                release_follow_until: (inp.now + RELEASE_FOLLOW_MS) as i64,
                live_follow_until: (inp.now + RELEASE_FOLLOW_MS) as i64,
                ..self
            }
        } else {
            self
        }
    }

    /// The frame the pointer is tested against to start a drag: the last pet
    /// frame, else the one the saved state gives.
    pub open spec fn grab_target(self, inp: PetInputs) -> Rect {
        match self.current_pet {
            Some(p) => p,
            None => inp.state_pet_guess,
        }
    }

    /// The drag after this frame's button state: a press on the pet starts
    /// one, releasing the button ends it.
    pub open spec fn next_drag(self, inp: PetInputs) -> Option<DragFollow> {
        if inp.mouse_down && self.drag_follow is None {
            let pet = self.grab_target(inp);
            if pet.holds_point(inp.cursor, DRAG_HIT_PADDING as int) {
                Some(
                    DragFollow {
                        grab_x: (inp.cursor.x - pet.left) as i32,
                        grab_y: (inp.cursor.y - pet.top) as i32,
                        width: pet.width,
                        height: pet.height,
                    },
                )
            } else {
                None
            }
        } else if !inp.mouse_down {
            None
        } else {
            self.drag_follow
        }
    }

    /// The fast-redraw deadline after the live overlay was seen: extended when
    /// it moved or is being dragged, never shortened.
    pub open spec fn next_live_follow(self, inp: PetInputs, drag: Option<DragFollow>) -> i64 {
        match inp.live {
            Some(live) => if live_moved(self.last_live_overlay, live.bounds) || (inp.mouse_down
                && drag is Some) {
                let until = if inp.now < self.release_follow_until {
                    inp.now + RELEASE_LIVE_FOLLOW_MS
                } else {
                    inp.now + LIVE_FOLLOW_MS
                };
                if until > self.live_follow_until {
                    until as i64
                } else {
                    self.live_follow_until
                }
            } else {
                self.live_follow_until
            },
            None => self.live_follow_until,
        }
    }

    /// One frame of following the pet: the follower afterwards and the pet
    /// frame, with whether to skip holding it still.
    pub open spec fn follow_step(self, inp: PetInputs) -> (Self, FollowedPet) {
        let s1 = self.after_release(inp);
        let skip = inp.mouse_down || inp.now < s1.release_follow_until;
        let drag = s1.next_drag(inp);
        let live_until = s1.next_live_follow(inp, drag);
        let last_live = match inp.live {
            Some(live) => Some(live.bounds),
            None => s1.last_live_overlay,
        };
        let physical = match drag {
            Some(d) => dragged_frame(d, inp.cursor),
            None => match inp.live {
                Some(live) => live.pet,
                None => inp.state_pet_guess,
            },
        };
        (
            FrameFollower {
                drag_follow: drag,
                live_follow_until: live_until,
                last_live_overlay: last_live,
                ..s1
            },
            FollowedPet { physical, skip_stabilize: skip },
        )
    }

    /// The arithmetic of `follow_step` stays in range.
    pub open spec fn follow_arith_ok(self, inp: PetInputs) -> bool {
        let s1 = self.after_release(inp);
        let pet = s1.grab_target(inp);
        &&& inp.now + RELEASE_FOLLOW_MS <= i64::MAX
        &&& inp.mouse_down && s1.drag_follow is None ==> {
            &&& pet.contains_arith_ok(inp.cursor, DRAG_HIT_PADDING as int)
            &&& pet.holds_point(inp.cursor, DRAG_HIT_PADDING as int) ==> in_i32(
                inp.cursor.x - pet.left,
            ) && in_i32(inp.cursor.y - pet.top)
        }
        &&& s1.next_drag(inp) matches Some(d) ==> drag_arith_ok(d, inp.cursor)
    }

    /// The anchor the saved state gives has not moved more than the
    /// tolerance since the last frame.
    pub open spec fn anchor_stable(prev: Rect, anchor: Rect) -> bool {
        abs_int(anchor.left - prev.left) + abs_int(anchor.top - prev.top)
            <= STABILIZE_ANCHOR_TOLERANCE
    }

    /// Holding the pet frame still: while the saved anchor stays put, a jump
    /// of the frame by `jump_threshold` or more keeps the last position.
    pub open spec fn stabilized(self, anchor: Rect, physical: Rect, jump_threshold: int) -> Rect {
        match (self.last_state_anchor, self.current_pet) {
            (Some(prev_anchor), Some(prev_pet)) => if Self::anchor_stable(prev_anchor, anchor)
                && abs_int(physical.left - prev_pet.left) + abs_int(physical.top - prev_pet.top)
                >= jump_threshold {
                Rect {
                    left: prev_pet.left,
                    top: prev_pet.top,
                    width: physical.width,
                    height: physical.height,
                }
            } else {
                physical
            },
            _ => physical,
        }
    }

    /// The `i32` arithmetic of `stabilize_pet_frame` stays in range.
    pub open spec fn stabilize_arith_ok(self, anchor: Rect, physical: Rect) -> bool {
        match (self.last_state_anchor, self.current_pet) {
            (Some(pa), Some(pp)) => {
                &&& in_i32_abs(anchor.left - pa.left)
                &&& in_i32_abs(anchor.top - pa.top)
                &&& in_i32(abs_int(anchor.left - pa.left) + abs_int(anchor.top - pa.top))
                &&& in_i32_abs(physical.left - pp.left)
                &&& in_i32_abs(physical.top - pp.top)
                &&& in_i32(abs_int(physical.left - pp.left) + abs_int(physical.top - pp.top))
            },
            _ => true,
        }
    }

    /// Settling this frame's pet frame: held still where the saved state
    /// placed the pet and no drag is under way; the follower remembers the
    /// anchor and the frame.
    pub open spec fn settle_step(
        self,
        state_anchor: Option<Rect>,
        skip_stabilize: bool,
        physical: Rect,
        jump_threshold: int,
    ) -> (Self, Rect) {
        let settled = match state_anchor {
            Some(anchor) => if skip_stabilize {
                physical
            } else {
                self.stabilized(anchor, physical, jump_threshold)
            },
            None => physical,
        };
        (
            FrameFollower { last_state_anchor: state_anchor, current_pet: Some(settled), ..self },
            settled,
        )
    }

    /// The follower after the rings are hidden at `now`.
    pub open spec fn hidden(self, now: int) -> Self {
        FrameFollower {
            phase: FramePhase::Idle,
            last_ring_bounds: None,
            last_show_readout: false,
            last_state_anchor: None,
            drag_follow: None,
            mouse_was_down: false,
            release_follow_until: (now - PAST_DEADLINE_MS) as i64,
            ..self
        }
    }

    pub fn new(now: i64) -> (f: Self)
        requires
            now - PAST_DEADLINE_MS >= i64::MIN,
        ensures
            f == Self::initial(now as int),
    {
        FrameFollower {
            phase: FramePhase::Idle,
            current_pet: None,
            drag_follow: None,
            last_ring_bounds: None,
            last_show_readout: false,
            last_state_anchor: None,
            last_live_overlay: None,
            last_pet_window: 0,
            live_follow_until: now - PAST_DEADLINE_MS,
            release_follow_until: now - PAST_DEADLINE_MS,
            mouse_was_down: false,
        }
    }

    /// Follows the pet for one frame where the saved state places it: starts,
    /// keeps and ends drags, extends the fast-redraw time while the live
    /// overlay moves, and picks the pet frame: the dragged one, else the one
    /// from the live overlay, else the saved one.
    pub fn follow_pet(&mut self, inp: PetInputs) -> (r: FollowedPet)
        requires
            old(self).follow_arith_ok(inp),
        ensures
            (*final(self), r) == old(self).follow_step(inp),
    {
        let now = inp.now;
        let released_after_drag = self.mouse_was_down && !inp.mouse_down
            && self.drag_follow.is_some();
        if released_after_drag {
            self.release_follow_until = now + RELEASE_FOLLOW_MS as i64;
            self.live_follow_until = self.release_follow_until;
        }
        let skip_stabilize = inp.mouse_down || now < self.release_follow_until;
        if inp.mouse_down && self.drag_follow.is_none() {
            let pet = match self.current_pet {
                Some(p) => p,
                None => inp.state_pet_guess,
            };
            if pet.contains(inp.cursor, DRAG_HIT_PADDING) {
                self.drag_follow = Some(
                    DragFollow {
                        grab_x: inp.cursor.x - pet.left,
                        grab_y: inp.cursor.y - pet.top,
                        width: pet.width,
                        height: pet.height,
                    },
                );
            }
        } else if !inp.mouse_down {
            self.drag_follow = None;
        }
        let physical = match inp.live {
            Some(live) => {
                let moved = match self.last_live_overlay {
                    Some(prev) => prev.left != live.bounds.left || prev.top != live.bounds.top,
                    None => false,
                };
                if moved || (inp.mouse_down && self.drag_follow.is_some()) {
                    let follow_until = if now < self.release_follow_until {
                        now + RELEASE_LIVE_FOLLOW_MS as i64
                    } else {
                        now + LIVE_FOLLOW_MS as i64
                    };
                    if follow_until > self.live_follow_until {
                        self.live_follow_until = follow_until;
                    }
                }
                self.last_live_overlay = Some(live.bounds);
                match self.drag_follow {
                    Some(drag) => Rect {
                        left: inp.cursor.x - drag.grab_x,
                        top: inp.cursor.y - drag.grab_y,
                        width: drag.width,
                        height: drag.height,
                    },
                    None => live.pet,
                }
            },
            None => match self.drag_follow {
                Some(drag) => Rect {
                    left: inp.cursor.x - drag.grab_x,
                    top: inp.cursor.y - drag.grab_y,
                    width: drag.width,
                    height: drag.height,
                },
                None => inp.state_pet_guess,
            },
        };
        FollowedPet { physical, skip_stabilize }
    }

    /// Holds the pet frame still against jitter of the live overlay: while
    /// the saved anchor has not moved, a jump of `jump_threshold` pixels or
    /// more keeps the last position (with the new size).
    pub fn stabilize_pet_frame(&self, state_anchor: Rect, physical: Rect, jump_threshold: i32) -> (r:
        Rect)
        requires
            self.stabilize_arith_ok(state_anchor, physical),
        ensures
            r == self.stabilized(state_anchor, physical, jump_threshold as int),
    {
        let previous_anchor = match self.last_state_anchor {
            Some(a) => a,
            None => {
                return physical;
            },
        };
        let previous_pet = match self.current_pet {
            Some(p) => p,
            None => {
                return physical;
            },
        };
        let anchor_stable = crate::geometry::abs_i32(state_anchor.left - previous_anchor.left)
            + crate::geometry::abs_i32(state_anchor.top - previous_anchor.top)
            <= STABILIZE_ANCHOR_TOLERANCE;
        let visual_jump = crate::geometry::abs_i32(physical.left - previous_pet.left)
            + crate::geometry::abs_i32(physical.top - previous_pet.top);
        if anchor_stable && visual_jump >= jump_threshold {
            Rect {
                left: previous_pet.left,
                top: previous_pet.top,
                width: physical.width,
                height: physical.height,
            }
        } else {
            physical
        }
    }

    /// Settles this frame's pet frame and remembers it, with the saved anchor.
    pub fn settle_pet(
        &mut self,
        state_anchor: Option<Rect>,
        skip_stabilize: bool,
        physical: Rect,
        jump_threshold: i32,
    ) -> (r: Rect)
        requires
            !skip_stabilize ==> (state_anchor matches Some(a) ==> old(self).stabilize_arith_ok(
                a,
                physical,
            )),
        ensures
            (*final(self), r) == old(self).settle_step(
                state_anchor,
                skip_stabilize,
                physical,
                jump_threshold as int,
            ),
    {
        let mut settled = physical;
        match state_anchor {
            Some(anchor) => {
                if !skip_stabilize {
                    settled = self.stabilize_pet_frame(anchor, physical, jump_threshold);
                }
                self.last_state_anchor = Some(anchor);
            },
            None => {
                self.last_state_anchor = None;
            },
        }
        self.current_pet = Some(settled);
        settled
    }

    /// Places the ring window at `bounds`, stacked behind `pet_window`, and
    /// says what changed since the last placement.
    pub fn place_rings(&mut self, bounds: Rect, pet_window: usize) -> (r: RingPlacement)
        ensures
            r.bounds == bounds,
            r.moved == (old(self).last_ring_bounds != Some(bounds)),
            r.restack == (old(self).last_pet_window != pet_window),
            *final(self) == (FrameFollower {
                last_ring_bounds: Some(bounds),
                last_pet_window: pet_window,
                ..*old(self)
            }),
    {
        let moved = match self.last_ring_bounds {
            Some(last) => last != bounds,
            None => true,
        };
        let restack = self.last_pet_window != pet_window;
        self.last_ring_bounds = Some(bounds);
        self.last_pet_window = pet_window;
        RingPlacement { bounds, moved, restack }
    }

    /// The rings must be redrawn: they moved, or the readout appears or goes.
    pub fn needs_redraw(&self, moved: bool, show_readout: bool) -> (r: bool)
        ensures
            r == (moved || self.last_show_readout != show_readout),
    {
        moved || self.last_show_readout != show_readout
    }

    /// Remembers whether the last drawing showed the readout.
    pub fn note_readout(&mut self, show_readout: bool)
        ensures
            *final(self) == (FrameFollower { last_show_readout: show_readout, ..*old(self) }),
    {
        self.last_show_readout = show_readout;
    }

    /// The redraw interval: fast while following the pet or while the button
    /// is down, idle otherwise.
    pub fn frame_interval(&self, now: i64, button_down: bool) -> (r: u32)
        ensures
            r == if now < self.live_follow_until || now < self.release_follow_until
                || button_down {
                FRAME_FAST_MS
            } else {
                FRAME_IDLE_MS
            },
    {
        if now < self.live_follow_until || now < self.release_follow_until || button_down {
            FRAME_FAST_MS
        } else {
            FRAME_IDLE_MS
        }
    }

    /// Remembers the button state at the end of a frame.
    pub fn finish_frame(&mut self, button_down: bool)
        ensures
            *final(self) == (FrameFollower { mouse_was_down: button_down, ..*old(self) }),
    {
        self.mouse_was_down = button_down;
    }

    /// Forgets what was shown when the rings are hidden at `now`, so that the
    /// next frame places and draws them anew.
    pub fn hide_rings(&mut self, now: i64)
        requires
            now - PAST_DEADLINE_MS >= i64::MIN,
        ensures
            *final(self) == old(self).hidden(now as int),
    {
        self.phase = FramePhase::Idle;
        self.last_ring_bounds = None;
        self.last_show_readout = false;
        self.last_state_anchor = None;
        self.drag_follow = None;
        self.mouse_was_down = false;
        self.release_follow_until = now - PAST_DEADLINE_MS;
    }

    /// The rings animate while they are shown and placed.
    pub fn should_animate(&self, rings_visible: bool) -> (r: bool)
        ensures
            r == (rings_visible && self.last_ring_bounds is Some),
    {
        rings_visible && self.last_ring_bounds.is_some()
    }
}

/// Where this frame's pet frame comes from.
#[derive(Clone, Copy, Debug, PartialEq, Eq, Structural)]
pub enum FrameSource {
    /// The pet that Codex placed.
    Pet,
    /// The bottom-right preview frame.
    Fallback,
    /// Nothing: the rings are hidden.
    Hidden,
}

/// The rings show around the pet while they are switched on and Codex
/// places a pet; without a pet they show in the fallback frame only when
/// asked for, and hide otherwise.
pub open spec fn frame_source_of(
    rings_visible: bool,
    has_pet: bool,
    force_fallback: bool,
    show_without_pet: bool,
) -> FrameSource {
    if !rings_visible {
        FrameSource::Hidden
    } else if has_pet {
        FrameSource::Pet
    } else if force_fallback || show_without_pet {
        FrameSource::Fallback
    } else {
        FrameSource::Hidden
    }
}

/// Where this frame's pet frame comes from.
pub fn frame_source(
    rings_visible: bool,
    has_pet: bool,
    force_fallback: bool,
    show_without_pet: bool,
) -> (r: FrameSource)
    ensures
        r == frame_source_of(rings_visible, has_pet, force_fallback, show_without_pet),
{
    if !rings_visible {
        FrameSource::Hidden
    } else if has_pet {
        FrameSource::Pet
    } else if force_fallback || show_without_pet {
        FrameSource::Fallback
    } else {
        FrameSource::Hidden
    }
}

/// Closing the pet hides the rings unless the fallback frame is asked for.
pub proof fn law_closed_pet_hides_rings(rings_visible: bool, force_fallback: bool, show: bool)
    ensures
        frame_source_of(rings_visible, false, force_fallback, show) == if rings_visible && (
        force_fallback || show) {
            FrameSource::Fallback
        } else {
            FrameSource::Hidden
        },
{
}

/// The side of the square ring window: the pet's larger side with padding on
/// both ends, and at least `min_side`.
pub open spec fn ring_side(physical: Rect, padding: int, min_side: int) -> int {
    max_int(max_int(physical.width as int, physical.height as int) + padding * 2, min_side)
}

/// The square ring window centered on the pet.
pub open spec fn ring_bounds(physical: Rect, padding: int, min_side: int) -> Rect {
    let side = ring_side(physical, padding, min_side);
    Rect {
        left: (physical.left + half_toward_zero(physical.width as int) - half_toward_zero(side)) as i32,
        top: (physical.top + half_toward_zero(physical.height as int) - half_toward_zero(side)) as i32,
        width: side as i32,
        height: side as i32,
    }
}

/// The arithmetic of `ring_bounds_for` stays in `i32`.
pub open spec fn ring_arith_ok(physical: Rect, padding: int, min_side: int) -> bool {
    let side = ring_side(physical, padding, min_side);
    &&& in_i32(padding * 2)
    &&& in_i32(max_int(physical.width as int, physical.height as int) + padding * 2)
    &&& in_i32(physical.left + half_toward_zero(physical.width as int))
    &&& in_i32(physical.left + half_toward_zero(physical.width as int) - half_toward_zero(side))
    &&& in_i32(physical.top + half_toward_zero(physical.height as int))
    &&& in_i32(physical.top + half_toward_zero(physical.height as int) - half_toward_zero(side))
}

/// The square ring window around the pet frame `physical`, with `padding`
/// pixels around the pet's larger side and a side of at least `min_side`.
pub fn ring_bounds_for(physical: Rect, padding: i32, min_side: i32) -> (r: Rect)
    requires
        ring_arith_ok(physical, padding as int, min_side as int),
    ensures
        r == ring_bounds(physical, padding as int, min_side as int),
{
    let size = (physical.width.max(physical.height) + padding * 2).max(min_side);
    Rect {
        left: physical.left + physical.width / 2 - size / 2,
        top: physical.top + physical.height / 2 - size / 2,
        width: size,
        height: size,
    }
}

/// The side of the fallback pet frame: the configured ring size less the
/// ring's margin, at least `FALLBACK_MIN_PET`.
pub const FALLBACK_RING_MARGIN: i32 = 76;

pub const FALLBACK_MIN_PET: i32 = 96;

/// The fallback pet frame's distance from the screen's right and bottom edges.
pub const FALLBACK_SCREEN_MARGIN: i32 = 48;

pub open spec fn fallback_side(size: int) -> int {
    max_int(size - FALLBACK_RING_MARGIN, FALLBACK_MIN_PET as int)
}

/// The arithmetic of `fallback_pet_frame` stays in `i32`.
pub open spec fn fallback_arith_ok(size: int, screen_w: int, screen_h: int) -> bool {
    &&& in_i32(size - FALLBACK_RING_MARGIN)
    &&& in_i32(screen_w - fallback_side(size))
    &&& in_i32(screen_w - fallback_side(size) - FALLBACK_SCREEN_MARGIN)
    &&& in_i32(screen_h - fallback_side(size))
    &&& in_i32(screen_h - fallback_side(size) - FALLBACK_SCREEN_MARGIN)
}

/// Where to show the rings when Codex has not placed its pet: a square in
/// the bottom-right corner of a `screen_w` by `screen_h` screen.
pub fn fallback_pet_frame(size: i32, screen_w: i32, screen_h: i32) -> (r: Rect)
    requires
        fallback_arith_ok(size as int, screen_w as int, screen_h as int),
    ensures
        r.width == fallback_side(size as int),
        r.height == fallback_side(size as int),
        r.left == screen_w - fallback_side(size as int) - FALLBACK_SCREEN_MARGIN,
        r.top == screen_h - fallback_side(size as int) - FALLBACK_SCREEN_MARGIN,
{
    let pet_size = (size - FALLBACK_RING_MARGIN).max(FALLBACK_MIN_PET);
    Rect {
        left: screen_w - pet_size - FALLBACK_SCREEN_MARGIN,
        top: screen_h - pet_size - FALLBACK_SCREEN_MARGIN,
        width: pet_size,
        height: pet_size,
    }
}

/// The offsets that put the center of `base` under `cursor`.
pub fn calibration_offset(cursor: Point, base: Rect) -> (r: (i32, i32))
    requires
        in_i32(base.center_x()),
        in_i32(base.center_y()),
        in_i32(cursor.x - base.center_x()),
        in_i32(cursor.y - base.center_y()),
    ensures
        r.0 == cursor.x - base.center_x(),
        r.1 == cursor.y - base.center_y(),
{
    (cursor.x - (base.left + base.width / 2), cursor.y - (base.top + base.height / 2))
}

/// The pet as the saved state places it, with what this frame read about the
/// pointer and the live overlay.
#[derive(Clone, Copy, Debug, PartialEq, Eq, Structural)]
pub struct PetFrameInputs {
    /// The pet's anchor in the saved state.
    pub anchor: Rect,
    pub inputs: PetInputs,
    /// The live overlay window being tracked, `0` for none.
    pub window: usize,
}

/// What starts a frame.
#[derive(Clone, Copy, Debug, PartialEq, Eq, Structural)]
pub struct FrameStart {
    pub now: i64,
    pub rings_visible: bool,
    /// The frame was asked for by the fallback command.
    pub force_fallback: bool,
    pub show_without_pet: bool,
    /// The pet, where Codex places one.
    pub pet: Option<PetFrameInputs>,
    /// The bottom-right preview frame.
    pub fallback: Rect,
}

/// What the caller hands to `FrameFollower::frame_step`: the start of a
/// frame, or what it measured or read for the action asked of it.
#[derive(Clone, Copy, Debug, PartialEq, Eq, Structural)]
pub enum FrameEvent {
    Start(FrameStart),
    /// The jump threshold on the monitor under the pet frame asked about.
    JumpThreshold(i32),
    /// The ring window's padding and smallest side on the monitor under the
    /// pet frame asked about.
    RingMetrics { padding: i32, min_side: i32 },
    /// The pointer is over the pet or the rings.
    Readout(bool),
    /// The clock and the button at the end of the frame.
    Clock { now: i64, button_down: bool },
}

/// What the caller does next in a frame.
#[derive(Clone, Copy, Debug, PartialEq, Eq, Structural)]
pub enum FrameAction {
    /// Hide the ring window; the frame is over.
    Hide,
    /// Tell the jump threshold (`STABILIZE_JUMP_PX`, scaled) on the monitor
    /// under `physical`.
    MeasureJump { physical: Rect },
    /// Tell the padding and the smallest side (`RING_PADDING_PX` and
    /// `RING_MIN_SIDE_PX`, scaled) on the monitor under `pet`.
    MeasureRing { pet: Rect },
    /// Move the ring window where `placement` says it moved, restack it
    /// behind `pet_window` (topmost for `0`) where it says so, and show it;
    /// then tell whether the readout shows.
    Place { placement: RingPlacement, pet_window: usize },
    /// Draw the rings, with the readout or without, where `redraw`; then tell
    /// the clock.
    Draw { redraw: bool, show_readout: bool },
    /// Set the frame timer to `interval` milliseconds; the frame is over.
    Schedule { interval: u32 },
    /// The event does not fit the frame under way; nothing changed.
    Nothing,
}

impl FrameFollower {
    /// Settling the chosen pet frame holds it to the last one, which needs
    /// the jump threshold: no drag is under way and there is a saved anchor
    /// and a last frame to hold it to.
    pub open spec fn needs_jump(self, anchor: Option<Rect>, skip_stabilize: bool) -> bool {
        &&& anchor is Some
        &&& !skip_stabilize
        &&& self.last_state_anchor is Some
        &&& self.current_pet is Some
    }

    /// After the pet frame `physical` is chosen: ask for the jump threshold,
    /// or settle it at once and ask for the ring metrics.
    pub open spec fn after_choice(
        self,
        anchor: Option<Rect>,
        skip_stabilize: bool,
        physical: Rect,
        pet_window: usize,
    ) -> (Self, FrameAction) {
        if self.needs_jump(anchor, skip_stabilize) {
            (
                FrameFollower {
                    phase: FramePhase::Followed { anchor, skip_stabilize, physical, pet_window },
                    ..self
                },
                FrameAction::MeasureJump { physical },
            )
        } else {
            let (s, settled) = self.settle_step(anchor, skip_stabilize, physical, 0);
            (
                FrameFollower { phase: FramePhase::Settled { physical: settled, pet_window }, ..s },
                FrameAction::MeasureRing { pet: settled },
            )
        }
    }

    /// The redraw interval at `now`: fast while following the pet or while
    /// the button is down, idle otherwise.
    pub open spec fn interval_at(self, now: int, button_down: bool) -> u32 {
        if now < self.live_follow_until || now < self.release_follow_until || button_down {
            FRAME_FAST_MS
        } else {
            FRAME_IDLE_MS
        }
    }

    /// One step of a frame: the follower afterwards and what to do next.
    ///
    /// A frame starts by choosing where the rings go: nowhere (hide them),
    /// the fallback frame, or the pet followed through drags and the live
    /// overlay. The pet frame is then settled against jitter, the square ring
    /// window is placed around it, the rings are drawn where they moved or
    /// the readout changed, and the next frame is scheduled.
    pub open spec fn frame_transition(self, ev: FrameEvent) -> (Self, FrameAction) {
        match ev {
            FrameEvent::Start(st) => match frame_source_of(
                st.rings_visible,
                st.pet is Some,
                st.force_fallback,
                st.show_without_pet,
            ) {
                FrameSource::Hidden => (self.hidden(st.now as int), FrameAction::Hide),
                FrameSource::Fallback => self.after_choice(None, false, st.fallback, 0),
                FrameSource::Pet => match st.pet {
                    Some(p) => {
                        let (s, fp) = self.follow_step(p.inputs);
                        let window = if p.inputs.live is Some {
                            p.window
                        } else {
                            0
                        };
                        s.after_choice(Some(p.anchor), fp.skip_stabilize, fp.physical, window)
                    },
                    None => (self, FrameAction::Nothing),
                },
            },
            FrameEvent::JumpThreshold(t) => match self.phase {
                FramePhase::Followed { anchor, skip_stabilize, physical, pet_window } => {
                    let (s, settled) = self.settle_step(anchor, skip_stabilize, physical, t as int);
                    (
                        FrameFollower {
                            phase: FramePhase::Settled { physical: settled, pet_window },
                            ..s
                        },
                        FrameAction::MeasureRing { pet: settled },
                    )
                },
                _ => (self, FrameAction::Nothing),
            },
            FrameEvent::RingMetrics { padding, min_side } => match self.phase {
                FramePhase::Settled { physical, pet_window } => {
                    let b = ring_bounds(physical, padding as int, min_side as int);
                    let placement = RingPlacement {
                        bounds: b,
                        moved: self.last_ring_bounds != Some(b),
                        restack: self.last_pet_window != pet_window,
                    };
                    (
                        FrameFollower {
                            phase: FramePhase::Placed { moved: placement.moved },
                            last_ring_bounds: Some(b),
                            last_pet_window: pet_window,
                            ..self
                        },
                        FrameAction::Place { placement, pet_window },
                    )
                },
                _ => (self, FrameAction::Nothing),
            },
            FrameEvent::Readout(show) => match self.phase {
                FramePhase::Placed { moved } => (
                    FrameFollower { phase: FramePhase::Drawn, last_show_readout: show, ..self },
                    FrameAction::Draw {
                        redraw: moved || self.last_show_readout != show,
                        show_readout: show,
                    },
                ),
                _ => (self, FrameAction::Nothing),
            },
            FrameEvent::Clock { now, button_down } => match self.phase {
                FramePhase::Drawn => (
                    FrameFollower { phase: FramePhase::Idle, mouse_was_down: button_down, ..self },
                    FrameAction::Schedule { interval: self.interval_at(now as int, button_down) },
                ),
                _ => (self, FrameAction::Nothing),
            },
        }
    }

    /// The arithmetic of `frame_step` stays in range.
    pub open spec fn step_arith_ok(self, ev: FrameEvent) -> bool {
        match ev {
            FrameEvent::Start(st) => {
                &&& st.now - PAST_DEADLINE_MS >= i64::MIN
                &&& st.pet matches Some(p) ==> self.follow_arith_ok(p.inputs)
            },
            FrameEvent::JumpThreshold(_) => self.phase matches FramePhase::Followed {
                anchor: Some(a),
                physical,
                ..
            } ==> self.stabilize_arith_ok(a, physical),
            FrameEvent::RingMetrics { padding, min_side } => self.phase matches FramePhase::Settled {
                physical,
                ..
            } ==> ring_arith_ok(physical, padding as int, min_side as int),
            _ => true,
        }
    }

    fn choose_frame(
        &mut self,
        anchor: Option<Rect>,
        skip_stabilize: bool,
        physical: Rect,
        pet_window: usize,
    ) -> (a: FrameAction)
        ensures
            (*final(self), a) == old(self).after_choice(anchor, skip_stabilize, physical, pet_window),
    {
        let needs_jump = anchor.is_some() && !skip_stabilize && self.last_state_anchor.is_some()
            && self.current_pet.is_some();
        if needs_jump {
            self.phase = FramePhase::Followed { anchor, skip_stabilize, physical, pet_window };
            FrameAction::MeasureJump { physical }
        } else {
            let settled = self.settle_pet(anchor, skip_stabilize, physical, 0);
            self.phase = FramePhase::Settled { physical: settled, pet_window };
            FrameAction::MeasureRing { pet: settled }
        }
    }

    /// Takes one step of a frame: starts it, or takes what the caller
    /// measured or read for the last action, and says what to do next.
    pub fn frame_step(&mut self, ev: FrameEvent) -> (a: FrameAction)
        requires
            old(self).step_arith_ok(ev),
        ensures
            (*final(self), a) == old(self).frame_transition(ev),
    {
        match ev {
            FrameEvent::Start(st) => {
                let source = frame_source(
                    st.rings_visible,
                    st.pet.is_some(),
                    st.force_fallback,
                    st.show_without_pet,
                );
                match source {
                    FrameSource::Hidden => {
                        self.hide_rings(st.now);
                        FrameAction::Hide
                    },
                    FrameSource::Fallback => self.choose_frame(None, false, st.fallback, 0),
                    FrameSource::Pet => match st.pet {
                        Some(p) => {
                            let fp = self.follow_pet(p.inputs);
                            let window = if p.inputs.live.is_some() {
                                p.window
                            } else {
                                0
                            };
                            self.choose_frame(
                                Some(p.anchor),
                                fp.skip_stabilize,
                                fp.physical,
                                window,
                            )
                        },
                        None => FrameAction::Nothing,
                    },
                }
            },
            FrameEvent::JumpThreshold(t) => match self.phase {
                FramePhase::Followed { anchor, skip_stabilize, physical, pet_window } => {
                    let settled = self.settle_pet(anchor, skip_stabilize, physical, t);
                    self.phase = FramePhase::Settled { physical: settled, pet_window };
                    FrameAction::MeasureRing { pet: settled }
                },
                _ => FrameAction::Nothing,
            },
            FrameEvent::RingMetrics { padding, min_side } => match self.phase {
                FramePhase::Settled { physical, pet_window } => {
                    let b = ring_bounds_for(physical, padding, min_side);
                    let placement = self.place_rings(b, pet_window);
                    self.phase = FramePhase::Placed { moved: placement.moved };
                    FrameAction::Place { placement, pet_window }
                },
                _ => FrameAction::Nothing,
            },
            FrameEvent::Readout(show) => match self.phase {
                FramePhase::Placed { moved } => {
                    let redraw = self.needs_redraw(moved, show);
                    self.note_readout(show);
                    self.phase = FramePhase::Drawn;
                    FrameAction::Draw { redraw, show_readout: show }
                },
                _ => FrameAction::Nothing,
            },
            FrameEvent::Clock { now, button_down } => match self.phase {
                FramePhase::Drawn => {
                    let interval = self.frame_interval(now, button_down);
                    self.finish_frame(button_down);
                    self.phase = FramePhase::Idle;
                    FrameAction::Schedule { interval }
                },
                _ => FrameAction::Nothing,
            },
        }
    }
}

fn ring_fits(physical: Rect, padding: i32, min_side: i32) -> (ok: bool)
    ensures
        ok == ring_arith_ok(physical, padding as int, min_side as int),
{
    let pad2 = 2 * (padding as i64);
    let w = physical.width as i64;
    let h = physical.height as i64;
    let larger = if w >= h {
        w
    } else {
        h
    };
    let padded = larger + pad2;
    let side = if padded >= min_side as i64 {
        padded
    } else {
        min_side as i64
    };
    let cx = physical.left as i64 + half_i64(w);
    let cy = physical.top as i64 + half_i64(h);
    let hs = half_i64(side);
    fits_i32(pad2) && fits_i32(padded) && fits_i32(cx) && fits_i32(cx - hs) && fits_i32(cy)
        && fits_i32(cy - hs)
}

impl FrameFollower {
    fn stabilize_fits(&self, anchor: Rect, physical: Rect) -> (ok: bool)
        ensures
            ok == self.stabilize_arith_ok(anchor, physical),
    {
        match (self.last_state_anchor, self.current_pet) {
            (Some(pa), Some(pp)) => {
                let dl = anchor.left as i64 - pa.left as i64;
                let dt = anchor.top as i64 - pa.top as i64;
                let jl = physical.left as i64 - pp.left as i64;
                let jt = physical.top as i64 - pp.top as i64;
                fits_i32_abs(dl) && fits_i32_abs(dt) && fits_i32(abs_i64(dl) + abs_i64(dt))
                    && fits_i32_abs(jl) && fits_i32_abs(jt) && fits_i32(abs_i64(jl) + abs_i64(jt))
            },
            _ => true,
        }
    }

    fn follow_fits(&self, inp: PetInputs) -> (ok: bool)
        ensures
            ok == self.follow_arith_ok(inp),
    {
        if inp.now > i64::MAX - RELEASE_FOLLOW_MS as i64 {
            return false;
        }
        let cursor = inp.cursor;
        if inp.mouse_down && self.drag_follow.is_none() {
            let pet = match self.current_pet {
                Some(p) => p,
                None => inp.state_pet_guess,
            };
            if !pet.contains_fits(cursor, DRAG_HIT_PADDING) {
                return false;
            }
            if pet.contains(cursor, DRAG_HIT_PADDING) {
                fits_i32(cursor.x as i64 - pet.left as i64) && fits_i32(
                    cursor.y as i64 - pet.top as i64,
                )
            } else {
                true
            }
        } else if !inp.mouse_down {
            true
        } else {
            match self.drag_follow {
                Some(d) => fits_i32(cursor.x as i64 - d.grab_x as i64) && fits_i32(
                    cursor.y as i64 - d.grab_y as i64,
                ),
                None => true,
            }
        }
    }

    /// The arithmetic of `frame_step` on `ev` stays in range: what the caller
    /// tests before handing `ev` over.
    pub fn step_fits(&self, ev: FrameEvent) -> (ok: bool)
        ensures
            ok == self.step_arith_ok(ev),
    {
        match ev {
            FrameEvent::Start(st) => st.now >= i64::MIN + PAST_DEADLINE_MS && match st.pet {
                Some(p) => self.follow_fits(p.inputs),
                None => true,
            },
            FrameEvent::JumpThreshold(_) => match self.phase {
                FramePhase::Followed { anchor: Some(a), physical, .. } => self.stabilize_fits(
                    a,
                    physical,
                ),
                _ => true,
            },
            FrameEvent::RingMetrics { padding, min_side } => match self.phase {
                FramePhase::Settled { physical, .. } => ring_fits(physical, padding, min_side),
                _ => true,
            },
            _ => true,
        }
    }
}

impl FrameFollower {
    /// A whole frame: it starts with `st`, then the caller hands back the
    /// jump threshold (where asked for), the ring metrics, the readout and the
    /// clock, in turn. The follower afterwards, and the actions in order.
    pub open spec fn run_frame(
        self,
        st: FrameStart,
        jump: i32,
        padding: i32,
        min_side: i32,
        show: bool,
        now: i64,
        button_down: bool,
    ) -> (Self, Seq<FrameAction>) {
        let (f1, a1) = self.frame_transition(FrameEvent::Start(st));
        if a1 is MeasureJump || a1 is MeasureRing {
            let (g, rest) = f1.run_rest(a1, jump, padding, min_side, show, now, button_down);
            (g, seq![a1] + rest)
        } else {
            (f1, seq![a1])
        }
    }

    /// The rest of a frame after its first action `a1`: the jump threshold
    /// where `a1` asks for it, then the ring metrics, the readout and the
    /// clock.
    pub open spec fn run_rest(
        self,
        a1: FrameAction,
        jump: i32,
        padding: i32,
        min_side: i32,
        show: bool,
        now: i64,
        button_down: bool,
    ) -> (Self, Seq<FrameAction>) {
        let (f2, a2) = self.frame_transition(FrameEvent::JumpThreshold(jump));
        let (f3, a3) = if a1 is MeasureJump {
            f2.frame_transition(FrameEvent::RingMetrics { padding, min_side })
        } else {
            self.frame_transition(FrameEvent::RingMetrics { padding, min_side })
        };
        let (f4, a4) = f3.frame_transition(FrameEvent::Readout(show));
        let (f5, a5) = f4.frame_transition(FrameEvent::Clock { now, button_down });
        if a1 is MeasureJump {
            (f5, seq![a2, a3, a4, a5])
        } else {
            (f5, seq![a3, a4, a5])
        }
    }
}

/// The frame after the pet frame is chosen: it is settled (with the jump
/// threshold where it is held to the last one), the ring window placed
/// around it, the rings drawn and the next frame scheduled.
proof fn lemma_rest_of_frame(
    s: FrameFollower,
    anchor: Option<Rect>,
    skip: bool,
    physical: Rect,
    window: usize,
    jump: i32,
    padding: i32,
    min_side: i32,
    show: bool,
    now: i64,
    button_down: bool,
)
    ensures
        ({
            let (f1, a1) = s.after_choice(anchor, skip, physical, window);
            let (g, rest) = f1.run_rest(a1, jump, padding, min_side, show, now, button_down);
            let settled = s.settle_step(anchor, skip, physical, jump as int);
            let b = ring_bounds(settled.1, padding as int, min_side as int);
            &&& a1 is MeasureJump || a1 is MeasureRing
            &&& g == (FrameFollower {
                phase: FramePhase::Idle,
                last_ring_bounds: Some(b),
                last_pet_window: window,
                last_show_readout: show,
                mouse_was_down: button_down,
                ..settled.0
            })
            &&& rest.len() >= 3
            &&& forall|i: int| 0 <= i < rest.len() ==> rest[i] != FrameAction::Nothing
            &&& rest[rest.len() - 3] == FrameAction::Place {
                placement: RingPlacement {
                    bounds: b,
                    moved: s.last_ring_bounds != Some(b),
                    restack: s.last_pet_window != window,
                },
                pet_window: window,
            }
            &&& rest[rest.len() - 2] == FrameAction::Draw {
                redraw: s.last_ring_bounds != Some(b) || s.last_show_readout != show,
                show_readout: show,
            }
            &&& rest[rest.len() - 1] == FrameAction::Schedule {
                interval: g.interval_at(now as int, button_down),
            }
        }),
{
    let (f1, a1) = s.after_choice(anchor, skip, physical, window);
    if s.needs_jump(anchor, skip) {
        let (f2, a2) = f1.frame_transition(FrameEvent::JumpThreshold(jump));
        assert(a2 != FrameAction::Nothing);
    } else {
        assert(s.settle_step(anchor, skip, physical, jump as int) == s.settle_step(
            anchor,
            skip,
            physical,
            0,
        ));
    }
}

/// A frame runs in order. Hidden rings are hidden at once. Otherwise the
/// pet frame is chosen (the fallback frame, or the pet followed through
/// drags and the live overlay) and settled, the square ring window is placed
/// around the settled frame, the rings are drawn where they moved or the
/// readout changed, and the next frame is scheduled, with no step refused.
pub proof fn law_frame_runs_in_order(
    f: FrameFollower,
    st: FrameStart,
    jump: i32,
    padding: i32,
    min_side: i32,
    show: bool,
    now: i64,
    button_down: bool,
)
    ensures
        ({
            let (g, acts) = f.run_frame(st, jump, padding, min_side, show, now, button_down);
            let source = frame_source_of(
                st.rings_visible,
                st.pet is Some,
                st.force_fallback,
                st.show_without_pet,
            );
            &&& source == FrameSource::Hidden ==> g == f.hidden(st.now as int) && acts == seq![
                FrameAction::Hide,
            ]
            &&& source != FrameSource::Hidden ==> {
                &&& g.phase == FramePhase::Idle
                &&& forall|i: int| 0 <= i < acts.len() ==> acts[i] != FrameAction::Nothing
                &&& g.current_pet matches Some(pet) && g.last_ring_bounds == Some(
                    ring_bounds(pet, padding as int, min_side as int),
                )
                &&& acts[acts.len() - 3] == FrameAction::Place {
                    placement: RingPlacement {
                        bounds: g.last_ring_bounds->0,
                        moved: f.last_ring_bounds != g.last_ring_bounds,
                        restack: f.last_pet_window != g.last_pet_window,
                    },
                    pet_window: g.last_pet_window,
                }
                &&& acts[acts.len() - 2] == FrameAction::Draw {
                    redraw: f.last_ring_bounds != g.last_ring_bounds || f.last_show_readout
                        != show,
                    show_readout: show,
                }
                &&& acts[acts.len() - 1] == FrameAction::Schedule {
                    interval: g.interval_at(now as int, button_down),
                }
                &&& g.last_show_readout == show
                &&& g.mouse_was_down == button_down
            }
            &&& source == FrameSource::Fallback ==> {
                &&& g.current_pet == Some(st.fallback)
                &&& g.last_state_anchor is None
                &&& g.last_pet_window == 0
            }
            &&& source == FrameSource::Pet ==> {
                let p = st.pet->0;
                let (s, fp) = f.follow_step(p.inputs);
                &&& g.current_pet == Some(
                    s.settle_step(Some(p.anchor), fp.skip_stabilize, fp.physical, jump as int).1,
                )
                &&& g.last_state_anchor == Some(p.anchor)
                &&& g.drag_follow == s.drag_follow
                &&& g.live_follow_until == s.live_follow_until
                &&& g.release_follow_until == s.release_follow_until
            }
        }),
{
    let source = frame_source_of(
        st.rings_visible,
        st.pet is Some,
        st.force_fallback,
        st.show_without_pet,
    );
    if source == FrameSource::Fallback {
        assert(f.frame_transition(FrameEvent::Start(st)) == f.after_choice(
            None,
            false,
            st.fallback,
            0,
        ));
        lemma_rest_of_frame(
            f,
            None,
            false,
            st.fallback,
            0,
            jump,
            padding,
            min_side,
            show,
            now,
            button_down,
        );
    } else if source == FrameSource::Pet {
        let p = st.pet->0;
        let (s, fp) = f.follow_step(p.inputs);
        let window = if p.inputs.live is Some {
            p.window
        } else {
            0
        };
        assert(s.last_ring_bounds == f.last_ring_bounds);
        assert(s.last_pet_window == f.last_pet_window);
        assert(s.last_show_readout == f.last_show_readout);
        assert(f.frame_transition(FrameEvent::Start(st)) == s.after_choice(
            Some(p.anchor),
            fp.skip_stabilize,
            fp.physical,
            window,
        ));
        lemma_rest_of_frame(
            s,
            Some(p.anchor),
            fp.skip_stabilize,
            fp.physical,
            window,
            jump,
            padding,
            min_side,
            show,
            now,
            button_down,
        );
    }
}

/// While the button stays down on a dragged pet, the pet frame is the one
/// the grab gives: the pet moves with the cursor, and the drag goes on.
pub proof fn law_drag_follows_cursor(f: FrameFollower, inp: PetInputs, d: DragFollow)
    requires
        f.drag_follow == Some(d),
        inp.mouse_down,
    ensures
        f.follow_step(inp).1.physical == dragged_frame(d, inp.cursor),
        f.follow_step(inp).0.drag_follow == Some(d),
        f.follow_step(inp).1.skip_stabilize,
{
}

/// Releasing a dragged pet ends the drag, skips holding the frame still, and
/// keeps following closely for `RELEASE_FOLLOW_MS`.
pub proof fn law_release_follows_closely(f: FrameFollower, inp: PetInputs)
    requires
        f.mouse_was_down,
        !inp.mouse_down,
        f.drag_follow is Some,
        inp.now + RELEASE_FOLLOW_MS <= i64::MAX,
    ensures
        f.follow_step(inp).0.drag_follow is None,
        f.follow_step(inp).1.skip_stabilize,
        f.follow_step(inp).0.release_follow_until == inp.now + RELEASE_FOLLOW_MS,
        f.follow_step(inp).0.live_follow_until >= inp.now + RELEASE_FOLLOW_MS,
{
}

/// Holding the frame still never changes its size, and does nothing when the
/// saved anchor moved by more than the tolerance.
pub proof fn law_stabilize_keeps_size(f: FrameFollower, anchor: Rect, physical: Rect, t: int)
    ensures
        f.stabilized(anchor, physical, t).width == physical.width,
        f.stabilized(anchor, physical, t).height == physical.height,
        (f.last_state_anchor matches Some(pa) && !FrameFollower::anchor_stable(pa, anchor))
            ==> f.stabilized(anchor, physical, t) == physical,
{
}

/// The ring window is a square whose side is at least `min_side` and leaves
/// `padding` around the pet's larger side.
pub proof fn law_ring_bounds_square(physical: Rect, padding: int, min_side: int)
    requires
        ring_arith_ok(physical, padding, min_side),
        in_i32(min_side),
    ensures
        ring_bounds(physical, padding, min_side).width == ring_bounds(
            physical,
            padding,
            min_side,
        ).height,
        ring_bounds(physical, padding, min_side).width >= min_side,
        ring_bounds(physical, padding, min_side).width >= physical.width + 2 * padding,
        ring_bounds(physical, padding, min_side).width >= physical.height + 2 * padding,
{
}

/// After the rings are hidden, the next placement counts as a move, so the
/// rings are placed and drawn again when they come back.
pub proof fn law_hidden_rings_redraw(f: FrameFollower, now: int, bounds: Rect)
    ensures
        f.hidden(now).last_ring_bounds != Some(bounds),
{
}

/// A press within 42 pixels of the pet (the last pet frame, or the saved one
/// before any) starts a drag that remembers where the cursor grabbed the pet
/// and the pet's own width and height; on that frame the pet stays where it
/// is, and it is not held against jitter.
pub proof fn law_press_on_pet_starts_drag(f: FrameFollower, inp: PetInputs, pet: Rect)
    requires
        f.drag_follow is None,
        inp.mouse_down,
        f.current_pet == Some(pet) || (f.current_pet is None && pet == inp.state_pet_guess),
        pet.left - 42 <= inp.cursor.x <= pet.left + pet.width + 42,
        pet.top - 42 <= inp.cursor.y <= pet.top + pet.height + 42,
        in_i32(inp.cursor.x - pet.left),
        in_i32(inp.cursor.y - pet.top),
    ensures
        f.follow_step(inp).0.drag_follow == Some(
            DragFollow {
                grab_x: (inp.cursor.x - pet.left) as i32,
                grab_y: (inp.cursor.y - pet.top) as i32,
                width: pet.width,
                height: pet.height,
            },
        ),
        f.follow_step(inp).1.physical == pet,
        f.follow_step(inp).1.skip_stabilize,
{
}

/// A press farther than 42 pixels from the pet starts no drag.
pub proof fn law_press_off_pet_starts_no_drag(f: FrameFollower, inp: PetInputs, pet: Rect)
    requires
        f.drag_follow is None,
        inp.mouse_down,
        f.current_pet == Some(pet) || (f.current_pet is None && pet == inp.state_pet_guess),
        inp.cursor.x < pet.left - 42 || inp.cursor.x > pet.left + pet.width + 42
            || inp.cursor.y < pet.top - 42 || inp.cursor.y > pet.top + pet.height + 42,
    ensures
        f.follow_step(inp).0.drag_follow is None,
{
}

/// Holding the frame still. With a last anchor `pa` and a last pet frame
/// `pp`, and a saved anchor that moved at most 4 pixels (horizontal plus
/// vertical), a frame that moved by the jump threshold or more (horizontal
/// plus vertical) keeps the last left and top with its own size, and one
/// that moved less stands as it is. Where the anchor moved more, the frame
/// stands as it is. Settling without a drag gives the same frame.
pub proof fn law_jump_is_held(
    f: FrameFollower,
    pa: Rect,
    pp: Rect,
    anchor: Rect,
    physical: Rect,
    t: int,
)
    requires
        f.last_state_anchor == Some(pa),
        f.current_pet == Some(pp),
    ensures
        ({
            let anchor_moved = abs_int(anchor.left - pa.left) + abs_int(anchor.top - pa.top);
            let jump = abs_int(physical.left - pp.left) + abs_int(physical.top - pp.top);
            &&& anchor_moved <= 4 && jump >= t ==> f.stabilized(anchor, physical, t) == Rect {
                left: pp.left,
                top: pp.top,
                width: physical.width,
                height: physical.height,
            }
            &&& (anchor_moved > 4 || jump < t) ==> f.stabilized(anchor, physical, t) == physical
            &&& f.settle_step(Some(anchor), false, physical, t).1 == f.stabilized(
                anchor,
                physical,
                t,
            )
            &&& f.settle_step(Some(anchor), true, physical, t).1 == physical
        }),
{
}

/// The ring window is stacked behind the pet's live overlay window: on a
/// frame that follows the pet through a tracked live overlay, the placement
/// names the window handed in with the pet and restacks exactly when it
/// differs from the last one; without a live overlay, and for the fallback
/// frame, the ring window is made topmost (window `0`).
pub proof fn law_rings_stack_behind_pet_window(
    f: FrameFollower,
    st: FrameStart,
    jump: i32,
    padding: i32,
    min_side: i32,
    show: bool,
    now: i64,
    button_down: bool,
)
    requires
        st.rings_visible,
        st.pet is Some || st.force_fallback || st.show_without_pet,
    ensures
        ({
            let (g, acts) = f.run_frame(st, jump, padding, min_side, show, now, button_down);
            let w = g.last_pet_window;
            &&& acts[acts.len() - 3] matches FrameAction::Place { placement, pet_window } && pet_window
                == w && placement.restack == (f.last_pet_window != w)
            &&& st.pet matches Some(p) ==> (p.inputs.live is Some ==> w == p.window) && (
            p.inputs.live is None ==> w == 0)
            &&& st.pet is None ==> w == 0
        }),
{
    law_frame_runs_in_order(f, st, jump, padding, min_side, show, now, button_down);
    if st.pet is None {
        assert(f.frame_transition(FrameEvent::Start(st)) == f.after_choice(
            None,
            false,
            st.fallback,
            0,
        ));
        lemma_rest_of_frame(
            f,
            None,
            false,
            st.fallback,
            0,
            jump,
            padding,
            min_side,
            show,
            now,
            button_down,
        );
    } else {
        let p = st.pet->0;
        let (s, fp) = f.follow_step(p.inputs);
        let window = if p.inputs.live is Some {
            p.window
        } else {
            0
        };
        assert(f.frame_transition(FrameEvent::Start(st)) == s.after_choice(
            Some(p.anchor),
            fp.skip_stabilize,
            fp.physical,
            window,
        ));
        lemma_rest_of_frame(
            s,
            Some(p.anchor),
            fp.skip_stabilize,
            fp.physical,
            window,
            jump,
            padding,
            min_side,
            show,
            now,
            button_down,
        );
    }
}

/// Without a drag under way the pet frame is the one the live overlay gives
/// where the overlay is tracked, else the one the saved state gives; a frame
/// with the button up is never a drag.
pub proof fn law_resting_pet_frame(f: FrameFollower, inp: PetInputs)
    requires
        !inp.mouse_down,
    ensures
        f.follow_step(inp).0.drag_follow is None,
        f.follow_step(inp).1.physical == match inp.live {
            Some(live) => live.pet,
            None => inp.state_pet_guess,
        },
{
}

/// The ring window's side is the pet's larger side plus the padding on both
/// ends, or `min_side` where that is more, and the window is centered on the
/// pet (both centers at the left or top edge plus half the side, rounded
/// toward zero).
pub proof fn law_ring_window_centered(physical: Rect, padding: int, min_side: int)
    requires
        ring_arith_ok(physical, padding, min_side),
        in_i32(min_side),
    ensures
        ({
            let larger: int = if physical.width >= physical.height {
                physical.width as int
            } else {
                physical.height as int
            };
            let side: int = if larger + 2 * padding >= min_side {
                larger + 2 * padding
            } else {
                min_side
            };
            let r = ring_bounds(physical, padding, min_side);
            &&& r.width == side && r.height == side
            &&& r.left + half_toward_zero(side) == physical.left + half_toward_zero(
                physical.width as int,
            )
            &&& r.top + half_toward_zero(side) == physical.top + half_toward_zero(
                physical.height as int,
            )
        }),
{
}

/// The next frame comes after 16 ms while the fast-redraw or the release
/// time runs or the button is down, and after 80 ms otherwise.
pub proof fn law_frame_pacing(f: FrameFollower, now: int, button_down: bool)
    ensures
        f.interval_at(now, button_down) == 16 <==> (now < f.live_follow_until || now
            < f.release_follow_until || button_down),
        f.interval_at(now, button_down) == 16 || f.interval_at(now, button_down) == 80,
{
}

} // verus!
