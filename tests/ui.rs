use kindle_chess::ui::{AppEvent, BoardWidget, Rectangle, SidebarWidget, Square, TouchEvent, TouchKind};

#[test]
fn test_imports() {
    let _ = std::mem::size_of::<BoardWidget>();
    let _ = std::mem::size_of::<SidebarWidget>();
}

#[test]
fn algebraic_names() {
    assert_eq!(Square::new(0, 0).to_algebraic(), "a1");
    assert_eq!(Square::new(7, 7).to_algebraic(), "h8");
    assert_eq!(Square::new(4, 3).to_algebraic(), "e4");
}

#[test]
fn rectangle_bounds() {
    let r = Rectangle::new(10, 20, 5, 5);
    assert!(r.contains(10, 20));
    assert!(r.contains(14, 24));
    assert!(!r.contains(15, 20));
    assert!(!r.contains(9, 20));
    assert!(!r.contains(10, 25));
}

fn touch(x: i16, y: i16, kind: TouchKind) -> TouchEvent {
    TouchEvent { x, y, kind }
}

#[test]
fn select_then_move() {
    let mut w = BoardWidget::new(Rectangle::new(0, 0, 1072, 1072));
    match w.handle_touch(&touch(4 * 134 + 5, 6 * 134 + 5, TouchKind::Down)) {
        Some(AppEvent::SquareSelected(s)) => assert_eq!(s, Square::new(4, 1)),
        other => panic!("unexpected {:?}", other),
    }
    assert_eq!(w.last_touch, Some((4 * 134 + 5, 6 * 134 + 5)));
    w.handle_touch(&touch(0, 0, TouchKind::Up));
    assert_eq!(w.last_touch, None);
    match w.handle_touch(&touch(4 * 134 + 5, 4 * 134 + 5, TouchKind::Down)) {
        Some(AppEvent::MoveMade(m)) => {
            assert_eq!(m.from, Square::new(4, 1));
            assert_eq!(m.to, Square::new(4, 3));
        }
        other => panic!("unexpected {:?}", other),
    }
    assert_eq!(w.selected_square, None);
}

#[test]
fn same_square_deselects() {
    let mut w = BoardWidget::new(Rectangle::new(0, 0, 1072, 1072));
    w.handle_touch(&touch(5, 5, TouchKind::Down));
    assert_eq!(w.selected_square, Some(Square::new(0, 7)));
    assert!(w.handle_touch(&touch(6, 6, TouchKind::Down)).is_none());
    assert_eq!(w.selected_square, None);
}

#[test]
fn flipped_board_and_outside_touch() {
    let mut w = BoardWidget::new(Rectangle::new(0, 0, 1072, 1072));
    w.flipped = true;
    match w.handle_touch(&touch(5, 5, TouchKind::Down)) {
        Some(AppEvent::SquareSelected(s)) => assert_eq!(s, Square::new(7, 0)),
        other => panic!("unexpected {:?}", other),
    }
    assert!(w.handle_touch(&touch(5, 1100, TouchKind::Down)).is_none());
    assert_eq!(w.selected_square, Some(Square::new(7, 0)));
}

#[test]
fn sidebar_buttons() {
    let mut s = SidebarWidget::new(Rectangle::new(0, 1072, 1072, 376));
    assert_eq!(s.menu_button, Rectangle::new(10, 1082, 200, 60));
    assert!(matches!(s.handle_touch(&touch(20, 1090, TouchKind::Up)), Some(AppEvent::ShowMenu)));
    assert!(matches!(s.handle_touch(&touch(20, 1360, TouchKind::Up)), Some(AppEvent::Quit)));
    assert!(s.handle_touch(&touch(20, 1360, TouchKind::Down)).is_none());
    assert!(s.handle_touch(&touch(500, 1200, TouchKind::Up)).is_none());
    assert!(s.handle_touch(&touch(20, 100, TouchKind::Up)).is_none());
}

#[test]
fn event_counter_wraps() {
    let mut s = SidebarWidget::new(Rectangle::new(0, 0, 100, 100));
    s.increment_event_count();
    assert_eq!(s.event_count, 1);
    s.event_count = u32::MAX;
    s.increment_event_count();
    assert_eq!(s.event_count, 0);
}
