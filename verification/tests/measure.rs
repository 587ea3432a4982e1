use mfekglif::events::{EditorEvent, MouseEventType};
use mfekglif::measure::Measure;

fn mouse(event_type: MouseEventType, x: f32, y: f32) -> EditorEvent<(f32, f32)> {
    EditorEvent::MouseEvent { event_type, position: (x, y) }
}

#[test]
fn new_measure_measures_nothing() {
    let m: Measure<(f32, f32)> = Measure::new();
    assert_eq!(m.measure_from(), None);
}

#[test]
fn press_starts_and_release_ends_a_measurement() {
    let mut m = Measure::new();
    m.event(mouse(MouseEventType::Pressed, 1.5, 2.0));
    assert_eq!(m.measure_from(), Some((1.5, 2.0)));
    m.event(mouse(MouseEventType::Moved, 9.0, 9.0));
    assert_eq!(m.measure_from(), Some((1.5, 2.0)));
    m.event(mouse(MouseEventType::Released, 9.0, 9.0));
    assert_eq!(m.measure_from(), None);
}

#[test]
fn other_events_leave_the_measurement() {
    let mut m = Measure::new();
    m.event(mouse(MouseEventType::Pressed, 3.0, 4.0));
    m.event(EditorEvent::Other);
    m.event(mouse(MouseEventType::DoubleClick, 0.0, 0.0));
    assert_eq!(m.measure_from(), Some((3.0, 4.0)));
}

#[test]
fn a_second_press_moves_the_start() {
    let mut m = Measure::new();
    m.event(mouse(MouseEventType::Pressed, 3.0, 4.0));
    m.event(mouse(MouseEventType::Pressed, 5.0, 6.0));
    assert_eq!(m.measure_from(), Some((5.0, 6.0)));
}
