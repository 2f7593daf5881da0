use terminal_rat::input::{dispatch, Action, InputEvent, KeyCode};
use terminal_rat::mood::Variant;
use terminal_rat::region::HitRegion;
use terminal_rat::state::{AppState, SimulationClock};

fn region() -> HitRegion {
    HitRegion { x: 2, y: 3, width: 10, height: 4 }
}

#[test]
fn quit_keys() {
    assert_eq!(dispatch(&InputEvent::KeyPress(KeyCode::Char('q')), &region()), Action::Quit);
    assert_eq!(dispatch(&InputEvent::KeyPress(KeyCode::Escape), &region()), Action::Quit);
}

#[test]
fn pet_keys() {
    assert_eq!(dispatch(&InputEvent::KeyPress(KeyCode::Char('p')), &region()), Action::Pet);
    assert_eq!(dispatch(&InputEvent::KeyPress(KeyCode::Char(' ')), &region()), Action::Pet);
    assert_eq!(dispatch(&InputEvent::KeyPress(KeyCode::Enter), &region()), Action::Pet);
}

#[test]
fn cycle_key() {
    assert_eq!(dispatch(&InputEvent::KeyPress(KeyCode::Char('s')), &region()), Action::CycleSkin);
}

#[test]
fn unrecognized_keys_do_nothing() {
    assert_eq!(dispatch(&InputEvent::KeyPress(KeyCode::Char('x')), &region()), Action::Nothing);
    assert_eq!(dispatch(&InputEvent::KeyPress(KeyCode::Other), &region()), Action::Nothing);
}

#[test]
fn non_press_events_do_nothing() {
    assert_eq!(dispatch(&InputEvent::KeyOther, &region()), Action::Nothing);
    assert_eq!(dispatch(&InputEvent::PointerOther, &region()), Action::Nothing);
    assert_eq!(dispatch(&InputEvent::Resize, &region()), Action::Nothing);
    assert_eq!(dispatch(&InputEvent::Other, &region()), Action::Nothing);
}

#[test]
fn pointer_press_inside_pets() {
    assert_eq!(dispatch(&InputEvent::PointerPress(2, 3), &region()), Action::Pet);
    assert_eq!(dispatch(&InputEvent::PointerPress(11, 6), &region()), Action::Pet);
    assert_eq!(dispatch(&InputEvent::PointerPress(5, 4), &region()), Action::Pet);
}

#[test]
fn pointer_press_outside_does_nothing() {
    assert_eq!(dispatch(&InputEvent::PointerPress(1, 3), &region()), Action::Nothing);
    assert_eq!(dispatch(&InputEvent::PointerPress(12, 3), &region()), Action::Nothing);
    assert_eq!(dispatch(&InputEvent::PointerPress(2, 2), &region()), Action::Nothing);
    assert_eq!(dispatch(&InputEvent::PointerPress(2, 7), &region()), Action::Nothing);
}

#[test]
fn empty_region_contains_no_cell() {
    let r = HitRegion::empty();
    assert!(!r.contains(0, 0));
    assert_eq!(dispatch(&InputEvent::PointerPress(0, 0), &r), Action::Nothing);
}

#[test]
fn region_containment_edges() {
    let r = region();
    assert!(r.contains(2, 3));
    assert!(r.contains(11, 6));
    assert!(!r.contains(12, 6));
    assert!(!r.contains(11, 7));
}

#[test]
fn clock_reports_elapsed_time() {
    let mut c = SimulationClock::new(100);
    assert_eq!(c.advance(100), 0);
    assert_eq!(c.advance(150), 50);
    assert_eq!(c.advance(183), 33);
    // A reading earlier than the previous one counts as no elapsed time.
    assert_eq!(c.advance(120), 0);
    assert_eq!(c.last_tick_ms, 120);
}

#[test]
fn end_to_end_scenario() {
    // Start: happiness one half, no squeaks, classic variant.
    let mut s = AppState::new(0);
    s.set_hit_region(HitRegion { x: 2, y: 3, width: 10, height: 4 });
    assert_eq!(s.mood.happiness, 500_000);

    // 'p' pets: happiness 0.58, one squeak, one cue.
    let a = s.handle_event(&InputEvent::KeyPress(KeyCode::Char('p')), 5);
    assert_eq!(a, Action::Pet);
    assert_eq!(s.mood.happiness, 580_000);
    assert_eq!(s.mood.squeak_count, 1);

    // One second of decay: happiness 0.565, vibe phase 0.9.
    s.tick(1000);
    assert_eq!(s.mood.happiness, 565_000);
    assert_eq!(s.mood.vibe_phase, 900_000);

    // 's' cycles the skin.
    let b = s.handle_event(&InputEvent::KeyPress(KeyCode::Char('s')), 6);
    assert_eq!(b, Action::CycleSkin);
    assert_eq!(s.mood.variant, Variant::LongTail);

    // A press outside the hit region changes nothing and cues nothing.
    let before = s;
    let c = s.handle_event(&InputEvent::PointerPress(0, 0), 7);
    assert_eq!(c, Action::Nothing);
    assert_eq!(s, before);
    assert_eq!(s.mood.squeak_count, 1);

    // 'q' quits, leaving the state as it is.
    let d = s.handle_event(&InputEvent::KeyPress(KeyCode::Char('q')), 8);
    assert_eq!(d, Action::Quit);
    assert_eq!(s, before);
}

#[test]
fn pointer_press_uses_the_most_recent_region() {
    let mut s = AppState::new(0);
    assert_eq!(s.handle_event(&InputEvent::PointerPress(5, 5), 1), Action::Nothing);
    s.set_hit_region(HitRegion { x: 0, y: 0, width: 20, height: 20 });
    assert_eq!(s.handle_event(&InputEvent::PointerPress(5, 5), 2), Action::Pet);
    assert_eq!(s.mood.squeak_count, 1);
}
