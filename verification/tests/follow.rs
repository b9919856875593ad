use codex_pet_limit_rings::follow::{
    fallback_pet_frame, frame_source, FrameSource, ring_bounds_for, DragFollow, FrameAction, FrameEvent,
    FrameFollower, FramePhase, FrameStart, LiveOverlay, PetFrameInputs, PetInputs, RingPlacement,
    FRAME_FAST_MS, FRAME_IDLE_MS, LIVE_FOLLOW_MS, RELEASE_FOLLOW_MS, RELEASE_LIVE_FOLLOW_MS,
};
use codex_pet_limit_rings::geometry::{Point, Rect};

fn rect(left: i32, top: i32, width: i32, height: i32) -> Rect {
    Rect { left, top, width, height }
}

fn inputs(now: i64, x: i32, y: i32, down: bool, live: Option<LiveOverlay>) -> PetInputs {
    PetInputs {
        now,
        cursor: Point { x, y },
        mouse_down: down,
        state_pet_guess: rect(100, 100, 80, 80),
        live,
    }
}

#[test]
fn resting_pet_uses_saved_frame_then_live_frame() {
    let mut f = FrameFollower::new(0);
    let r = f.follow_pet(inputs(10, 0, 0, false, None));
    assert_eq!(r.physical, rect(100, 100, 80, 80));
    assert!(!r.skip_stabilize);
    let live = LiveOverlay { bounds: rect(50, 50, 300, 300), pet: rect(120, 130, 80, 80) };
    let r2 = f.follow_pet(inputs(20, 0, 0, false, Some(live)));
    assert_eq!(r2.physical, rect(120, 130, 80, 80));
    assert_eq!(f.last_live_overlay, Some(rect(50, 50, 300, 300)));
}

#[test]
fn press_on_pet_starts_drag_that_follows_cursor() {
    let mut f = FrameFollower::new(0);
    // Press within the hit padding of the saved frame.
    let r = f.follow_pet(inputs(10, 110, 120, true, None));
    assert_eq!(f.drag_follow, Some(DragFollow { grab_x: 10, grab_y: 20, width: 80, height: 80 }));
    assert_eq!(r.physical, rect(100, 100, 80, 80));
    assert!(r.skip_stabilize);
    let r2 = f.follow_pet(inputs(20, 300, 400, true, None));
    assert_eq!(r2.physical, rect(290, 380, 80, 80));
}

#[test]
fn press_away_from_pet_starts_no_drag() {
    let mut f = FrameFollower::new(0);
    f.follow_pet(inputs(10, 500, 500, true, None));
    assert_eq!(f.drag_follow, None);
}

#[test]
fn release_keeps_following_closely() {
    let mut f = FrameFollower::new(0);
    f.follow_pet(inputs(10, 110, 120, true, None));
    f.finish_frame(true);
    let r = f.follow_pet(inputs(1000, 300, 400, false, None));
    assert_eq!(f.drag_follow, None);
    assert!(r.skip_stabilize);
    assert_eq!(f.release_follow_until, 1000 + RELEASE_FOLLOW_MS as i64);
    assert_eq!(f.live_follow_until, 1000 + RELEASE_FOLLOW_MS as i64);
    assert_eq!(f.frame_interval(1000 + RELEASE_FOLLOW_MS as i64 - 1, false), FRAME_FAST_MS);
    assert_eq!(f.frame_interval(1000 + RELEASE_FOLLOW_MS as i64, false), FRAME_IDLE_MS);
    assert_eq!(f.frame_interval(1000 + RELEASE_FOLLOW_MS as i64, true), FRAME_FAST_MS);
}

#[test]
fn moving_live_overlay_extends_fast_redraw() {
    let mut f = FrameFollower::new(0);
    let a = LiveOverlay { bounds: rect(50, 50, 300, 300), pet: rect(1, 1, 80, 80) };
    let b = LiveOverlay { bounds: rect(60, 50, 300, 300), pet: rect(11, 1, 80, 80) };
    f.follow_pet(inputs(100, 0, 0, false, Some(a)));
    assert_eq!(f.live_follow_until, -1000);
    f.follow_pet(inputs(200, 0, 0, false, Some(b)));
    assert_eq!(f.live_follow_until, 200 + LIVE_FOLLOW_MS as i64);
}

#[test]
fn moving_during_release_window_uses_short_extension() {
    let mut f = FrameFollower::new(0);
    f.release_follow_until = 5000;
    f.live_follow_until = 0;
    let a = LiveOverlay { bounds: rect(50, 50, 300, 300), pet: rect(1, 1, 80, 80) };
    let b = LiveOverlay { bounds: rect(50, 70, 300, 300), pet: rect(1, 21, 80, 80) };
    f.follow_pet(inputs(100, 0, 0, false, Some(a)));
    f.follow_pet(inputs(200, 0, 0, false, Some(b)));
    assert_eq!(f.live_follow_until, 200 + RELEASE_LIVE_FOLLOW_MS as i64);
}

#[test]
fn stabilize_holds_jumps_while_anchor_rests() {
    let mut f = FrameFollower::new(0);
    let anchor = rect(10, 10, 80, 80);
    f.settle_pet(Some(anchor), false, rect(100, 100, 80, 80), 18);
    // Anchor moved 3 px: stable; frame jumped 40 px: held.
    let held = f.settle_pet(Some(rect(12, 11, 80, 80)), false, rect(140, 100, 90, 90), 18);
    assert_eq!(held, rect(100, 100, 90, 90));
    // A small move passes.
    let moved = f.settle_pet(Some(rect(12, 11, 80, 80)), false, rect(110, 100, 90, 90), 18);
    assert_eq!(moved, rect(110, 100, 90, 90));
    // Anchor moved 5 px: not stable, frame passes.
    let passed = f.settle_pet(Some(rect(17, 11, 80, 80)), false, rect(300, 300, 90, 90), 18);
    assert_eq!(passed, rect(300, 300, 90, 90));
    // Skipping stabilization passes any frame.
    let skipped = f.settle_pet(Some(rect(17, 11, 80, 80)), true, rect(900, 900, 90, 90), 18);
    assert_eq!(skipped, rect(900, 900, 90, 90));
    assert_eq!(f.current_pet, Some(rect(900, 900, 90, 90)));
}

#[test]
fn settle_without_anchor_forgets_it() {
    let mut f = FrameFollower::new(0);
    f.settle_pet(Some(rect(1, 1, 1, 1)), false, rect(0, 0, 5, 5), 18);
    f.settle_pet(None, false, rect(0, 0, 5, 5), 18);
    assert_eq!(f.last_state_anchor, None);
}

#[test]
fn ring_bounds_are_centered_squares() {
    assert_eq!(ring_bounds_for(rect(100, 200, 80, 60), 38, 120), rect(62, 152, 156, 156));
    assert_eq!(ring_bounds_for(rect(100, 200, 10, 10), 38, 120), rect(45, 145, 120, 120));
    assert_eq!(ring_bounds_for(rect(0, 0, 81, 81), 1, 1), rect(-1, -1, 83, 83));
}

#[test]
fn fallback_frame_sits_bottom_right() {
    assert_eq!(fallback_pet_frame(220, 1920, 1080), rect(1728, 888, 144, 144));
    assert_eq!(fallback_pet_frame(100, 1920, 1080), rect(1776, 936, 96, 96));
}

#[test]
fn placement_reports_moves_and_restacks() {
    let mut f = FrameFollower::new(0);
    let p = f.place_rings(rect(1, 1, 100, 100), 0);
    assert!(p.moved && !p.restack);
    let p2 = f.place_rings(rect(1, 1, 100, 100), 0);
    assert!(!p2.moved && !p2.restack);
    let p3 = f.place_rings(rect(1, 1, 100, 100), 42);
    assert!(!p3.moved && p3.restack);
    assert!(f.needs_redraw(false, true));
    f.note_readout(true);
    assert!(!f.needs_redraw(false, true));
    assert!(f.should_animate(true));
    assert!(!f.should_animate(false));
    f.hide_rings(500);
    assert!(!f.should_animate(true));
    assert_eq!(f.release_follow_until, -500);
    assert!(f.place_rings(rect(1, 1, 100, 100), 42).moved);
}

#[test]
fn frame_source_rules() {
    assert_eq!(frame_source(false, true, true, true), FrameSource::Hidden);
    assert_eq!(frame_source(true, true, false, false), FrameSource::Pet);
    assert_eq!(frame_source(true, false, false, false), FrameSource::Hidden);
    assert_eq!(frame_source(true, false, true, false), FrameSource::Fallback);
    assert_eq!(frame_source(true, false, false, true), FrameSource::Fallback);
}

fn start(now: i64, visible: bool, pet: Option<PetFrameInputs>, show_without_pet: bool) -> FrameEvent {
    FrameEvent::Start(FrameStart {
        now,
        rings_visible: visible,
        force_fallback: false,
        show_without_pet,
        pet,
        fallback: rect(1728, 888, 144, 144),
    })
}

fn saved_pet(now: i64, guess: Rect) -> PetFrameInputs {
    PetFrameInputs {
        anchor: rect(10, 10, 40, 40),
        inputs: PetInputs {
            now,
            cursor: Point { x: 0, y: 0 },
            mouse_down: false,
            state_pet_guess: guess,
            live: None,
        },
        window: 9,
    }
}

#[test]
fn fallback_frame_runs_in_order() {
    let mut f = FrameFollower::new(0);
    let ring = rect(1690, 850, 220, 220);
    assert_eq!(f.frame_step(start(5, true, None, true)), FrameAction::MeasureRing { pet: rect(1728, 888, 144, 144) });
    assert_eq!(
        f.frame_step(FrameEvent::RingMetrics { padding: 38, min_side: 120 }),
        FrameAction::Place { placement: RingPlacement { bounds: ring, moved: true, restack: false }, pet_window: 0 }
    );
    assert_eq!(f.frame_step(FrameEvent::Readout(false)), FrameAction::Draw { redraw: true, show_readout: false });
    assert_eq!(
        f.frame_step(FrameEvent::Clock { now: 10, button_down: false }),
        FrameAction::Schedule { interval: FRAME_IDLE_MS }
    );
    assert_eq!(f.phase, FramePhase::Idle);
    assert_eq!(f.last_ring_bounds, Some(ring));
    // The same frame again: nothing moved, nothing to draw.
    f.frame_step(start(20, true, None, true));
    assert!(matches!(
        f.frame_step(FrameEvent::RingMetrics { padding: 38, min_side: 120 }),
        FrameAction::Place { placement: RingPlacement { moved: false, .. }, .. }
    ));
    assert_eq!(f.frame_step(FrameEvent::Readout(true)), FrameAction::Draw { redraw: true, show_readout: true });
    assert_eq!(
        f.frame_step(FrameEvent::Clock { now: 30, button_down: true }),
        FrameAction::Schedule { interval: FRAME_FAST_MS }
    );
    assert!(f.mouse_was_down);
    // An event out of turn changes nothing.
    let before = f;
    assert_eq!(f.frame_step(FrameEvent::Readout(false)), FrameAction::Nothing);
    assert_eq!(f, before);
}

#[test]
fn hidden_rings_end_the_frame_at_once() {
    let mut f = FrameFollower::new(0);
    f.frame_step(start(5, true, None, true));
    f.frame_step(FrameEvent::RingMetrics { padding: 38, min_side: 120 });
    assert_eq!(f.frame_step(start(50, false, Some(saved_pet(50, rect(100, 100, 80, 80))), true)), FrameAction::Hide);
    assert_eq!(f.phase, FramePhase::Idle);
    assert_eq!(f.last_ring_bounds, None);
    // Without a pet and without the fallback, the rings hide too.
    assert_eq!(f.frame_step(start(60, true, None, false)), FrameAction::Hide);
}

#[test]
fn pet_frame_is_held_against_a_jump() {
    let mut f = FrameFollower::new(0);
    let first = rect(100, 100, 80, 80);
    assert_eq!(f.frame_step(start(5, true, Some(saved_pet(5, first)), false)), FrameAction::MeasureRing { pet: first });
    assert!(matches!(
        f.frame_step(FrameEvent::RingMetrics { padding: 38, min_side: 120 }),
        FrameAction::Place { pet_window: 0, .. }
    ));
    f.frame_step(FrameEvent::Readout(false));
    f.frame_step(FrameEvent::Clock { now: 6, button_down: false });
    // The saved anchor stays put while the frame jumps by 30 pixels.
    let jumped = rect(130, 100, 80, 80);
    assert_eq!(
        f.frame_step(start(100, true, Some(saved_pet(100, jumped)), false)),
        FrameAction::MeasureJump { physical: jumped }
    );
    assert_eq!(f.frame_step(FrameEvent::JumpThreshold(18)), FrameAction::MeasureRing { pet: first });
    // A larger threshold lets the frame move.
    f.frame_step(FrameEvent::RingMetrics { padding: 38, min_side: 120 });
    f.frame_step(FrameEvent::Readout(false));
    f.frame_step(FrameEvent::Clock { now: 101, button_down: false });
    f.frame_step(start(200, true, Some(saved_pet(200, jumped)), false));
    assert_eq!(f.frame_step(FrameEvent::JumpThreshold(40)), FrameAction::MeasureRing { pet: jumped });
}

#[test]
fn step_fits_tells_overflowing_events() {
    let f = FrameFollower::new(0);
    assert!(f.step_fits(start(5, true, None, true)));
    assert!(!f.step_fits(start(i64::MIN, true, None, true)));
    assert!(!f.step_fits(start(i64::MAX, true, Some(saved_pet(i64::MAX, rect(0, 0, 80, 80))), false)));
    let mut g = FrameFollower::new(0);
    g.frame_step(start(5, true, Some(saved_pet(5, rect(i32::MAX - 100, 0, 80, 80))), false));
    assert!(g.step_fits(FrameEvent::RingMetrics { padding: 1, min_side: 1 }));
    assert!(!g.step_fits(FrameEvent::RingMetrics { padding: i32::MAX / 2, min_side: 1 }));
}
