use kindle_chess::draw::{DrawColor, DrawCommand};
use kindle_chess::interaction::{ChessUi, UiResponse};
use kindle_chess::ui::{AppEvent, BoardWidget, Rectangle, SidebarWidget, Square, TouchEvent, TouchKind};

fn down(x: i16, y: i16) -> TouchEvent {
    TouchEvent { x, y, kind: TouchKind::Down }
}

#[test]
fn triple_tap_within_half_a_second_exits() {
    let mut ui = ChessUi::new();
    assert!(!ui.check_triple_tap(&down(500, 1200), 0));
    assert!(!ui.check_triple_tap(&down(520, 1210), 100));
    assert!(ui.check_triple_tap(&down(490, 1190), 200));
}

#[test]
fn slow_or_distant_taps_do_not_exit() {
    let mut ui = ChessUi::new();
    assert!(!ui.check_triple_tap(&down(500, 1200), 0));
    assert!(!ui.check_triple_tap(&down(500, 1200), 600));
    assert!(!ui.check_triple_tap(&down(500, 1200), 1200));
    assert_eq!(ui.tap_times, vec![1200]);
    assert!(!ui.check_triple_tap(&down(900, 1200), 1250));
    assert_eq!(ui.last_tap_pos, Some((900, 1200)));
    assert!(!ui.check_triple_tap(&TouchEvent { x: 900, y: 1200, kind: TouchKind::Up }, 1260));
}

#[test]
fn events_are_routed_to_widgets() {
    let mut ui = ChessUi::new();
    assert_eq!(ui.handle_event(AppEvent::Touch(down(5, 5)), 0), UiResponse::Redraw);
    assert_eq!(ui.board.selected_square, Some(Square::new(0, 7)));
    let up = TouchEvent { x: 20, y: 1360, kind: TouchKind::Up };
    assert_eq!(ui.handle_event(AppEvent::Touch(up), 1000), UiResponse::Exit);
    assert_eq!(ui.handle_event(AppEvent::Expose, 0), UiResponse::Redraw);
    assert_eq!(ui.handle_event(AppEvent::ShowMenu, 0), UiResponse::Idle);
    assert_eq!(ui.handle_event(AppEvent::Quit, 0), UiResponse::Exit);
    assert_eq!(ui.handle_event(AppEvent::WindowUnmapped, 0), UiResponse::Idle);
}

#[test]
fn empty_board_drawing() {
    let w = BoardWidget::new(Rectangle::new(0, 0, 1072, 1072));
    let cmds = w.render();
    assert_eq!(cmds.len(), 65);
    assert_eq!(
        cmds[0],
        DrawCommand::Rect { x: 0, y: 938, width: 134, height: 134, color: DrawColor::LightGray, filled: true }
    );
    assert_eq!(
        cmds[1],
        DrawCommand::Rect { x: 134, y: 938, width: 134, height: 134, color: DrawColor::DarkGray, filled: true }
    );
    assert_eq!(
        cmds[64],
        DrawCommand::Rect { x: 0, y: 0, width: 1072, height: 1072, color: DrawColor::Black, filled: false }
    );
}

#[test]
fn selection_and_touch_marker_are_drawn() {
    let mut w = BoardWidget::new(Rectangle::new(0, 0, 1072, 1072));
    w.handle_touch(&down(5, 5));
    let cmds = w.render();
    assert_eq!(cmds.len(), 65 + 3 + 3);
    assert_eq!(
        cmds[65],
        DrawCommand::Rect { x: 0, y: 0, width: 134, height: 134, color: DrawColor::Black, filled: false }
    );
    assert_eq!(
        cmds[67],
        DrawCommand::Rect { x: 2, y: 2, width: 130, height: 130, color: DrawColor::Black, filled: false }
    );
    assert_eq!(cmds[68], DrawCommand::Circle { x: 5, y: 5, radius: 30, color: DrawColor::Gray });
    assert_eq!(cmds[69], DrawCommand::Line { x1: -35, y1: 5, x2: 45, y2: 5, color: DrawColor::Gray });
}

#[test]
fn sidebar_drawing_counts_ticks() {
    let mut s = SidebarWidget::new(Rectangle::new(0, 1072, 1072, 376));
    assert_eq!(s.render().len(), 8);
    for _ in 0..13 {
        s.increment_event_count();
    }
    let cmds = s.render();
    assert_eq!(cmds.len(), 11);
    assert_eq!(
        cmds[10],
        DrawCommand::Rect { x: 60, y: 1172, width: 20, height: 20, color: DrawColor::Black, filled: true }
    );
    assert_eq!(
        cmds[5],
        DrawCommand::Rect { x: 10, y: 1372, width: 200, height: 10, color: DrawColor::DarkGray, filled: true }
    );
}
