use life_gl::frame_loop::{Action, FrameLoop, FrameStep, Key, WindowEvent};
use life_gl::grid::GridSize;

#[test]
fn fresh_loop_draws_and_pauses() {
    let l = FrameLoop::new(1, Some(20));
    assert!(l.is_running());
    assert_eq!(l.end_of_frame(), FrameStep::Draw { pause_ms: Some(20) });
    assert_eq!(FrameLoop::new(2, None).end_of_frame(), FrameStep::Draw { pause_ms: None });
}

#[test]
fn close_stops() {
    let mut l = FrameLoop::new(1, None);
    assert_eq!(l.handle_event(WindowEvent::CloseRequested), Action::Nothing);
    assert!(!l.is_running());
    assert_eq!(l.end_of_frame(), FrameStep::Stop);
}

#[test]
fn escape_stops() {
    let mut l = FrameLoop::new(1, None);
    assert_eq!(l.handle_event(WindowEvent::KeyPressed(Key::Escape)), Action::Nothing);
    assert_eq!(l.end_of_frame(), FrameStep::Stop);
}

#[test]
fn space_restarts() {
    let mut l = FrameLoop::new(1, None);
    assert_eq!(l.handle_event(WindowEvent::KeyPressed(Key::Space)), Action::Restart);
    assert!(l.is_running());
}

#[test]
fn other_events_do_nothing() {
    let mut l = FrameLoop::new(1, None);
    assert_eq!(l.handle_event(WindowEvent::KeyPressed(Key::Other)), Action::Nothing);
    assert_eq!(l.handle_event(WindowEvent::Other), Action::Nothing);
    assert!(l.is_running());
}

#[test]
fn resize_rebuilds_for_the_cell_size() {
    let mut l = FrameLoop::new(4, None);
    assert_eq!(
        l.handle_event(WindowEvent::Resized { width: 800, height: 601 }),
        Action::Rebuild(GridSize { cells_wide: 200, cells_high: 150 })
    );
    assert!(l.is_running());
    assert_eq!(l.grid_for(640, 480), GridSize { cells_wide: 160, cells_high: 120 });
}

#[test]
fn events_after_a_stop_are_still_handled() {
    let mut l = FrameLoop::new(1, None);
    l.handle_event(WindowEvent::CloseRequested);
    assert_eq!(l.handle_event(WindowEvent::KeyPressed(Key::Space)), Action::Restart);
    assert!(!l.is_running());
    assert_eq!(l.end_of_frame(), FrameStep::Stop);
}
