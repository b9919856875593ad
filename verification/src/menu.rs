//! The tray menu's commands and the settings they change.
use vstd::prelude::*;
use crate::geometry::{Point, Rect, in_i32};

verus! {

pub const CMD_SHOW: usize = 101;

pub const CMD_FALLBACK: usize = 102;

pub const CMD_REFRESH: usize = 103;

pub const CMD_LEFT: usize = 104;

pub const CMD_RIGHT: usize = 105;

pub const CMD_UP: usize = 106;

pub const CMD_DOWN: usize = 107;

pub const CMD_RESET: usize = 108;

pub const CMD_QUIT: usize = 109;

/// How far one nudge moves the rings, in pixels.
pub const NUDGE_PX: i32 = 5;

/// The settings that the menu changes.
#[derive(Clone, Copy, Debug, PartialEq, Eq, Structural)]
pub struct OverlaySettings {
    pub rings_visible: bool,
    pub show_without_pet: bool,
    pub offset_x: i32,
    pub offset_y: i32,
}

/// What the caller does after a command.
#[derive(Clone, Copy, Debug, PartialEq, Eq, Structural)]
pub enum Followup {
    /// Update the frame, showing the fallback frame if asked.
    Redraw { force_fallback: bool },
    /// Save the offsets, then update the frame.
    SaveOffsetsAndRedraw,
    /// Read the usage limits and the pet's position again: start a new read
    /// of the limits, then update the frame from the pet state.
    RefreshAndRedraw,
    /// Remove the tray icon and quit.
    Quit,
    /// Nothing: the command is not one of the menu's.
    Nothing,
}

/// The nudge of a direction command, if it is one.
pub open spec fn nudge_of(id: usize) -> Option<(int, int)> {
    if id == CMD_LEFT {
        Some((-NUDGE_PX as int, 0))
    } else if id == CMD_RIGHT {
        Some((NUDGE_PX as int, 0))
    } else if id == CMD_UP {
        Some((0, -NUDGE_PX as int))
    } else if id == CMD_DOWN {
        Some((0, NUDGE_PX as int))
    } else {
        None
    }
}

impl OverlaySettings {
    /// The settings after the command `id`, and what to do next.
    pub open spec fn command_step(self, id: usize) -> (Self, Followup) {
        if id == CMD_SHOW {
            (
                OverlaySettings { rings_visible: !self.rings_visible, ..self },
                Followup::Redraw { force_fallback: false },
            )
        } else if id == CMD_FALLBACK {
            (
                OverlaySettings { show_without_pet: !self.show_without_pet, ..self },
                Followup::Redraw { force_fallback: true },
            )
        } else if id == CMD_REFRESH {
            (self, Followup::RefreshAndRedraw)
        } else if id == CMD_RESET {
            (OverlaySettings { offset_x: 0, offset_y: 0, ..self }, Followup::SaveOffsetsAndRedraw)
        } else if id == CMD_QUIT {
            (self, Followup::Quit)
        } else {
            match nudge_of(id) {
                Some((dx, dy)) => (
                    OverlaySettings {
                        offset_x: (self.offset_x + dx) as i32,
                        offset_y: (self.offset_y + dy) as i32,
                        ..self
                    },
                    Followup::SaveOffsetsAndRedraw,
                ),
                None => (self, Followup::Nothing),
            }
        }
    }

    /// Moves the rings by `dx`, `dy` pixels.
    pub fn nudge(&mut self, dx: i32, dy: i32)
        requires
            in_i32(old(self).offset_x + dx),
            in_i32(old(self).offset_y + dy),
        ensures
            *final(self) == (OverlaySettings {
                offset_x: (old(self).offset_x + dx) as i32,
                offset_y: (old(self).offset_y + dy) as i32,
                ..*old(self)
            }),
    {
        self.offset_x = self.offset_x + dx;
        self.offset_y = self.offset_y + dy;
    }

    /// Moves the rings back to where Codex places the pet.
    pub fn reset_offset(&mut self)
        ensures
            *final(self) == (OverlaySettings { offset_x: 0, offset_y: 0, ..*old(self) }),
    {
        self.offset_x = 0;
        self.offset_y = 0;
    }

    /// Sets the offsets that put the center of `base`, the pet frame without
    /// offsets, under the cursor.
    pub fn calibrate_to_cursor(&mut self, cursor: Point, base: Rect)
        requires
            in_i32(base.center_x()),
            in_i32(base.center_y()),
            in_i32(cursor.x - base.center_x()),
            in_i32(cursor.y - base.center_y()),
        ensures
            *final(self) == (OverlaySettings {
                offset_x: (cursor.x - base.center_x()) as i32,
                offset_y: (cursor.y - base.center_y()) as i32,
                ..*old(self)
            }),
    {
        let (x, y) = crate::follow::calibration_offset(cursor, base);
        self.offset_x = x;
        self.offset_y = y;
    }

    /// Carries out the menu command `id`.
    pub fn command(&mut self, id: usize) -> (r: Followup)
        requires
            nudge_of(id) matches Some((dx, dy)) ==> in_i32(old(self).offset_x + dx) && in_i32(
                old(self).offset_y + dy,
            ),
        ensures
            (*final(self), r) == old(self).command_step(id),
    {
        if id == CMD_SHOW {
            self.rings_visible = !self.rings_visible;
            Followup::Redraw { force_fallback: false }
        } else if id == CMD_FALLBACK {
            self.show_without_pet = !self.show_without_pet;
            Followup::Redraw { force_fallback: true }
        } else if id == CMD_REFRESH {
            Followup::RefreshAndRedraw
        } else if id == CMD_LEFT {
            self.nudge(-NUDGE_PX, 0);
            Followup::SaveOffsetsAndRedraw
        } else if id == CMD_RIGHT {
            self.nudge(NUDGE_PX, 0);
            Followup::SaveOffsetsAndRedraw
        } else if id == CMD_UP {
            self.nudge(0, -NUDGE_PX);
            Followup::SaveOffsetsAndRedraw
        } else if id == CMD_DOWN {
            self.nudge(0, NUDGE_PX);
            Followup::SaveOffsetsAndRedraw
        } else if id == CMD_RESET {
            self.reset_offset();
            Followup::SaveOffsetsAndRedraw
        } else if id == CMD_QUIT {
            Followup::Quit
        } else {
            Followup::Nothing
        }
    }
}

/// `Show Rings` toggles the overlay without quitting: twice gives back the
/// same settings.
pub proof fn law_show_rings_toggles(s: OverlaySettings)
    ensures
        s.command_step(CMD_SHOW).0.command_step(CMD_SHOW).0 == s,
        s.command_step(CMD_SHOW).1 != Followup::Quit,
{
}

/// `Refresh Now` rereads both the usage limits and the pet's position, and
/// changes no setting.
pub proof fn law_refresh_rereads_limits_and_pet(s: OverlaySettings)
    ensures
        s.command_step(CMD_REFRESH) == (s, Followup::RefreshAndRedraw),
{
}

/// A nudge one way and one the other way cancel out.
pub proof fn law_nudges_cancel(s: OverlaySettings)
    requires
        in_i32(s.offset_x + NUDGE_PX),
    ensures
        s.command_step(CMD_RIGHT).0.command_step(CMD_LEFT).0 == s,
{
}

} // verus!
