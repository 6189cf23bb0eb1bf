use drag_panels::drag::DragController;
use drag_panels::drag::DragSession;
use drag_panels::drag::Position;

#[test]
fn staggered_defaults() {
    let mut c = DragController::new(800, 600);
    assert_eq!(c.get_position(1), Position { x: 100, y: 300 });
    assert_eq!(c.get_position(3), Position { x: 200, y: 300 });
    assert_eq!(c.get_position(75), Position { x: 300, y: 300 });
}

#[test]
fn lookup_does_not_reseed() {
    let mut c = DragController::new(800, 600);
    assert_eq!(c.get_position(1), Position { x: 100, y: 300 });
    assert_eq!(c.get_position(1), Position { x: 100, y: 300 });
    assert_eq!(c.get_position(3), Position { x: 200, y: 300 });
    assert_eq!(c.get_position(1), Position { x: 100, y: 300 });
}

#[test]
fn default_with_odd_and_zero_dimensions() {
    let mut odd = DragController::new(801, 601);
    assert_eq!(odd.get_position(9), Position { x: 100, y: 300 });
    let mut tiny = DragController::new(0, 0);
    assert_eq!(tiny.get_position(9), Position { x: -300, y: 0 });
}

#[test]
fn begin_then_end_leaves_position_unchanged() {
    let mut c = DragController::new(800, 200);
    let before = c.get_position(7);
    c.begin_drag(7, 500, 400);
    c.end_drag();
    assert_eq!(c.try_position(7), Some(before));
    assert_eq!(c.active_session(), None);
}

#[test]
fn update_at_start_point_is_net_zero() {
    let mut c = DragController::new(800, 200);
    let before = c.get_position(7);
    c.begin_drag(7, 150, 120);
    c.update_drag(150, 120);
    assert_eq!(c.try_position(7), Some(before));
}

#[test]
fn update_without_session_mutates_nothing() {
    let mut c = DragController::new(800, 600);
    let a = c.get_position(1);
    let b = c.get_position(3);
    c.update_drag(999, -999);
    assert_eq!(c.try_position(1), Some(a));
    assert_eq!(c.try_position(3), Some(b));
    assert_eq!(c.try_position(42), None);
}

#[test]
fn full_drag_sequence() {
    // Panel at (100, 100); drag start at (150, 120) captures offset (50, 20);
    // moving to (200, 130) places the panel at (150, 110); releasing keeps it
    // there and later moves are no-ops.
    let mut c = DragController::new(800, 200);
    assert_eq!(c.get_position(7), Position { x: 100, y: 100 });
    c.begin_drag(7, 150, 120);
    assert_eq!(
        c.active_session(),
        Some(DragSession { panel: 7, offset_x: 50, offset_y: 20, start_x: 100, start_y: 100 })
    );
    c.update_drag(200, 130);
    assert_eq!(c.try_position(7), Some(Position { x: 150, y: 110 }));
    c.end_drag();
    assert_eq!(c.try_position(7), Some(Position { x: 150, y: 110 }));
    c.update_drag(700, 650);
    c.update_drag(-5, 12);
    assert_eq!(c.try_position(7), Some(Position { x: 150, y: 110 }));
}

#[test]
fn new_drag_leaves_other_panels_untouched() {
    let mut c = DragController::new(800, 600);
    c.get_position(1);
    c.get_position(3);
    // Drag panel 1 somewhere and release.
    c.begin_drag(1, 110, 310);
    c.update_drag(180, 340);
    c.end_drag();
    assert_eq!(c.try_position(1), Some(Position { x: 170, y: 330 }));
    // Starting and running a drag on panel 3 must not move panel 1.
    c.begin_drag(3, 200, 300);
    c.update_drag(260, 420);
    assert_eq!(c.try_position(1), Some(Position { x: 170, y: 330 }));
    assert_eq!(c.try_position(3), Some(Position { x: 260, y: 420 }));
}

#[test]
fn begin_replaces_prior_session() {
    let mut c = DragController::new(800, 600);
    let a = c.get_position(1);
    c.get_position(3);
    c.begin_drag(1, 100, 300);
    c.begin_drag(3, 200, 300);
    assert_eq!(c.active_session().map(|s| s.panel), Some(3));
    c.update_drag(250, 350);
    // Only panel 3 moved; panel 1 was abandoned where it stood.
    assert_eq!(c.try_position(1), Some(a));
    assert_eq!(c.try_position(3), Some(Position { x: 250, y: 350 }));
}

#[test]
fn panels_may_leave_the_viewport() {
    let mut c = DragController::new(640, 480);
    assert_eq!(c.get_position(2), Position { x: 20, y: 240 });
    c.begin_drag(2, 20, 240);
    c.update_drag(-5000, 9000);
    assert_eq!(c.try_position(2), Some(Position { x: -5000, y: 9000 }));
}

#[test]
fn end_drag_is_idempotent() {
    let mut c = DragController::new(800, 600);
    c.get_position(1);
    c.end_drag();
    assert_eq!(c.active_session(), None);
    c.begin_drag(1, 100, 300);
    c.end_drag();
    c.end_drag();
    assert_eq!(c.active_session(), None);
    assert_eq!(c.try_position(1), Some(Position { x: 100, y: 300 }));
}

#[test]
fn session_records_start_position() {
    let mut c = DragController::new(800, 200);
    c.get_position(7);
    c.begin_drag(7, 130, 90);
    c.update_drag(140, 95);
    // A second drag starts from the moved position.
    c.end_drag();
    c.begin_drag(7, 111, 106);
    assert_eq!(
        c.active_session(),
        Some(DragSession { panel: 7, offset_x: 1, offset_y: 1, start_x: 110, start_y: 105 })
    );
}
