use codex_pet_limit_rings::geometry::{Point, Rect};
use codex_pet_limit_rings::menu::{
    Followup, OverlaySettings, CMD_DOWN, CMD_FALLBACK, CMD_LEFT, CMD_QUIT, CMD_REFRESH, CMD_RESET,
    CMD_RIGHT, CMD_SHOW, CMD_UP,
};

fn settings() -> OverlaySettings {
    OverlaySettings { rings_visible: true, show_without_pet: false, offset_x: 3, offset_y: -2 }
}

#[test]
fn show_toggles_and_redraws() {
    let mut s = settings();
    assert_eq!(s.command(CMD_SHOW), Followup::Redraw { force_fallback: false });
    assert!(!s.rings_visible);
    s.command(CMD_SHOW);
    assert_eq!(s, settings());
}

#[test]
fn fallback_toggles_and_forces_fallback() {
    let mut s = settings();
    assert_eq!(s.command(CMD_FALLBACK), Followup::Redraw { force_fallback: true });
    assert!(s.show_without_pet);
}

#[test]
fn nudges_move_five_pixels() {
    let mut s = settings();
    assert_eq!(s.command(CMD_LEFT), Followup::SaveOffsetsAndRedraw);
    assert_eq!((s.offset_x, s.offset_y), (-2, -2));
    s.command(CMD_RIGHT);
    s.command(CMD_UP);
    assert_eq!((s.offset_x, s.offset_y), (3, -7));
    s.command(CMD_DOWN);
    assert_eq!(s, settings());
}

#[test]
fn reset_refresh_quit_and_unknown() {
    let mut s = settings();
    assert_eq!(s.command(CMD_RESET), Followup::SaveOffsetsAndRedraw);
    assert_eq!((s.offset_x, s.offset_y), (0, 0));
    assert_eq!(s.command(CMD_REFRESH), Followup::RefreshAndRedraw);
    assert_eq!(s.command(CMD_QUIT), Followup::Quit);
    assert_eq!(s.command(0), Followup::Nothing);
}

#[test]
fn calibration_centers_pet_under_cursor() {
    let mut s = settings();
    s.calibrate_to_cursor(Point { x: 500, y: 400 }, Rect { left: 100, top: 100, width: 81, height: 60 });
    assert_eq!((s.offset_x, s.offset_y), (360, 270));
}
