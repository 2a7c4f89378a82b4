use shape_viewer::geometry::Topology;
use shape_viewer::registry::{ShapeKind, ShapeRegistry};
use shape_viewer::viewer::{Action, ButtonState, InputEvent, PointerButton, Viewer};

fn click() -> InputEvent {
    InputEvent::Pointer { button: PointerButton::Primary, state: ButtonState::Pressed }
}

#[test]
fn clicks_cycle_through_all_shapes() {
    let mut v = Viewer::standard(800, 600);
    let mut seen = vec![v.cursor()];
    for _ in 0..3 {
        v.handle(click());
        seen.push(v.cursor());
    }
    assert_eq!(seen, vec![0, 1, 2, 0]);
}

#[test]
fn click_asks_for_render_of_new_cursor() {
    let mut v = Viewer::standard(800, 600);
    assert_eq!(v.handle(click()), Action::Render { cursor: 1 });
    assert_eq!(v.handle(click()), Action::Render { cursor: 2 });
    assert_eq!(v.handle(click()), Action::Render { cursor: 0 });
}

#[test]
fn other_buttons_and_releases_do_not_move_cursor() {
    let mut v = Viewer::standard(800, 600);
    v.handle(click());
    let events = vec![
        InputEvent::Pointer { button: PointerButton::Primary, state: ButtonState::Released },
        InputEvent::Pointer { button: PointerButton::Secondary, state: ButtonState::Pressed },
        InputEvent::Pointer { button: PointerButton::Middle, state: ButtonState::Pressed },
        InputEvent::Pointer { button: PointerButton::Other(7), state: ButtonState::Released },
    ];
    for e in events {
        assert_eq!(v.handle(e), Action::Nothing);
        assert_eq!(v.cursor(), 1);
    }
}

#[test]
fn resize_changes_only_dimensions() {
    let mut v = Viewer::standard(800, 600);
    v.handle(click());
    let a = v.handle(InputEvent::Resized { width: 1024, height: 768 });
    assert_eq!(a, Action::ResizeSurface { width: 1024, height: 768 });
    assert_eq!(v.cursor(), 1);
    assert_eq!(v.surface_size(), (1024, 768));
    assert!(!v.is_closed());
}

#[test]
fn idle_requests_redraw() {
    let mut v = Viewer::standard(1, 1);
    assert_eq!(v.handle(InputEvent::Idle), Action::RequestRedraw);
    assert_eq!(v.cursor(), 0);
}

#[test]
fn close_ends_event_handling() {
    let mut v = Viewer::standard(800, 600);
    assert_eq!(v.handle(InputEvent::CloseRequested), Action::Exit);
    assert!(v.is_closed());
    assert_eq!(v.handle(click()), Action::Nothing);
    assert_eq!(v.cursor(), 0);
}

#[test]
fn end_to_end_triangle_rectangle_circle() {
    let mut v = Viewer::standard(800, 600);
    assert_eq!(v.current_kind(), ShapeKind::Triangle);
    let first = v.current_shape();
    assert_eq!(first.vertices.len(), 3);
    assert_eq!(first.topology, Topology::Unindexed);

    v.handle(click());
    let second = v.current_shape();
    assert_eq!(v.current_kind(), ShapeKind::Rectangle);
    assert_eq!(second.vertices.len(), 4);
    match &second.topology {
        Topology::Indexed(ix) => assert_eq!(ix.len(), 6),
        Topology::Unindexed => panic!("rectangle must be indexed"),
    }

    v.handle(click());
    assert_eq!(v.current_shape().vertices.len(), 101);
    v.handle(click());
    assert_eq!(v.current_kind(), ShapeKind::Triangle);
    assert_eq!(v.current_shape(), first);
}

#[test]
fn single_shape_registry_stays_put() {
    let r = ShapeRegistry::new(vec![ShapeKind::Rectangle]).unwrap();
    let mut v = Viewer::new(r, 10, 10);
    assert_eq!(v.handle(click()), Action::Render { cursor: 0 });
    assert_eq!(v.cursor(), 0);
}
