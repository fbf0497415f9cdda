//! The application's reaction to events: the emergency triple tap, routing
//! touches to the widgets, and whether to redraw or to quit.

use vstd::prelude::*;
use crate::ui::{
    board_touch, sidebar_touch, AppEvent, BoardWidget, Rectangle, SidebarWidget, TouchEvent,
    TouchKind,
};

verus! {

/// Taps further apart than this many milliseconds do not count together.
pub const TRIPLE_TAP_MS: u64 = 500;

/// Taps further apart than this many pixels, on either axis, start over.
pub const TRIPLE_TAP_RADIUS: i32 = 50;

/// What the event loop does after an event.
#[derive(Debug, Clone, Copy, PartialEq, Eq, Structural)]
pub enum UiResponse {
    /// Nothing to show.
    Idle,
    /// Draw the widgets again.
    Redraw,
    /// Leave the application.
    Exit,
}

/// The tap times of `times` that lie less than the window before `now`.
pub open spec fn recent_taps(times: Seq<u64>, now: u64) -> Seq<u64>
    decreases times.len(),
{
    if times.len() == 0 {
        Seq::empty()
    } else {
        let rest = recent_taps(times.drop_last(), now);
        if now - times.last() < TRIPLE_TAP_MS {
            rest.push(times.last())
        } else {
            rest
        }
    }
}

pub open spec fn near(a: (i16, i16), b: (i16, i16)) -> bool {
    -TRIPLE_TAP_RADIUS <= a.0 - b.0 <= TRIPLE_TAP_RADIUS && -TRIPLE_TAP_RADIUS <= a.1 - b.1
        <= TRIPLE_TAP_RADIUS
}

/// Whether touch `t` at time `now` completes a triple tap on `ui`.
pub open spec fn completes_triple_tap(ui: ChessUi, t: TouchEvent, now: u64) -> bool {
    &&& t.kind == TouchKind::Down
    &&& ui.last_tap_pos matches Some(p) && near((t.x, t.y), p)
    &&& recent_taps(ui.tap_times@.push(now), now).len() >= 3
}

/// The response to an event other than a touch.
pub open spec fn event_response(e: AppEvent) -> UiResponse {
    match e {
        AppEvent::MoveMade(_) => UiResponse::Redraw,
        AppEvent::SquareSelected(_) => UiResponse::Redraw,
        AppEvent::Expose => UiResponse::Redraw,
        AppEvent::Quit => UiResponse::Exit,
        _ => UiResponse::Idle,
    }
}

/// The widgets on screen and the recent taps.
#[derive(Debug)]
pub struct ChessUi {
    pub board: BoardWidget,
    pub sidebar: SidebarWidget,
    /// Times of the taps near the first one, in milliseconds.
    pub tap_times: Vec<u64>,
    pub last_tap_pos: Option<(i16, i16)>,
}

impl ChessUi {
    /// The screen layout of a 1072 by 1448 panel: the board on top, the
    /// sidebar in the 376 rows below it.
    pub fn new() -> (r: ChessUi)
        ensures
            r.board.area == (Rectangle { x: 0, y: 0, width: 1072, height: 1072 }),
            r.board.selected_square is None && r.board.last_touch is None && !r.board.flipped,
            r.sidebar.area == (Rectangle { x: 0, y: 1072, width: 1072, height: 376 }),
            r.sidebar.event_count == 0,
            r.tap_times@ == Seq::<u64>::empty(),
            r.last_tap_pos is None,
    {
        ChessUi {
            board: BoardWidget::new(Rectangle::new(0, 0, 1072, 1072)),
            sidebar: SidebarWidget::new(Rectangle::new(0, 1072, 1072, 376)),
            tap_times: Vec::new(),
            last_tap_pos: None,
        }
    }

    /// Records a touch at time `now` (milliseconds) and says whether it
    /// completes a triple tap. Only presses count. A press near the first
    /// press of the series joins it, and the series keeps the presses of the
    /// last half second; three make a triple tap. A press elsewhere starts a
    /// new series.
    pub fn check_triple_tap(&mut self, touch: &TouchEvent, now: u64) -> (r: bool)
        ensures
            final(self).board == old(self).board,
            final(self).sidebar == old(self).sidebar,
            touch.kind != TouchKind::Down ==> !r && final(self).tap_times@ == old(self).tap_times@
                && final(self).last_tap_pos == old(self).last_tap_pos,
            touch.kind == TouchKind::Down ==> match old(self).last_tap_pos {
                Some(p) if near((touch.x, touch.y), p) => {
                    &&& final(self).tap_times@ == recent_taps(old(self).tap_times@.push(now), now)
                    &&& final(self).last_tap_pos == old(self).last_tap_pos
                    &&& r == (final(self).tap_times@.len() >= 3)
                },
                _ => {
                    &&& final(self).tap_times@ == seq![now]
                    &&& final(self).last_tap_pos == Some((touch.x, touch.y))
                    &&& !r
                },
            },
    {
        if touch.kind != TouchKind::Down {
            return false;
        }
        let close = match self.last_tap_pos {
            Some((lx, ly)) => {
                let dx = touch.x as i32 - lx as i32;
                let dy = touch.y as i32 - ly as i32;
                -TRIPLE_TAP_RADIUS <= dx && dx <= TRIPLE_TAP_RADIUS && -TRIPLE_TAP_RADIUS <= dy && dy
                    <= TRIPLE_TAP_RADIUS
            },
            None => false,
        };
        if close {
            self.tap_times.push(now);
            let ghost all = self.tap_times@;
            let mut kept: Vec<u64> = Vec::new();
            let mut i: usize = 0;
            while i < self.tap_times.len()
                invariant
                    all == self.tap_times@,
                    i <= all.len(),
                    kept@ == recent_taps(all.subrange(0, i as int), now),
                decreases all.len() - i,
            {
                let t = self.tap_times[i];
                let ghost pre = all.subrange(0, i as int);
                if now < t || now - t < TRIPLE_TAP_MS {
                    kept.push(t);
                }
                i = i + 1;
                assert(all.subrange(0, i as int).drop_last() =~= pre);
            }
            assert(all.subrange(0, i as int) =~= all);
            self.tap_times = kept;
            self.tap_times.len() >= 3
        } else {
            self.tap_times.clear();
            self.tap_times.push(now);
            self.last_tap_pos = Some((touch.x, touch.y));
            assert(self.tap_times@ =~= seq![now]);
            false
        }
    }

    /// Reacts to `event` at time `now`. A touch that completes a triple tap
    /// exits. Any other touch goes to the board, then, if the board raised
    /// nothing, to the sidebar; an event that a widget raises is answered as
    /// that event, and a touch that raised none redraws.
    pub fn handle_event(&mut self, event: AppEvent, now: u64) -> (r: UiResponse)
        ensures
            match event {
                AppEvent::Touch(t) => {
                    let (board, from_board) = board_touch(old(self).board, t);
                    let from_sidebar = sidebar_touch(old(self).sidebar, t);
                    if completes_triple_tap(*old(self), t, now) {
                        r == UiResponse::Exit && final(self).board == old(self).board
                    } else {
                        &&& final(self).board == board
                        &&& final(self).sidebar == old(self).sidebar
                        &&& r == match from_board {
                            Some(e) => event_response(e),
                            None => match from_sidebar {
                                Some(e) => event_response(e),
                                None => UiResponse::Redraw,
                            },
                        }
                    }
                },
                _ => *final(self) == *old(self) && r == event_response(event),
            },
    {
        match event {
            AppEvent::Touch(touch) => {
                if self.check_triple_tap(&touch, now) {
                    return UiResponse::Exit;
                }
                if let Some(e) = self.board.handle_touch(&touch) {
                    return Self::respond(&e);
                }
                if let Some(e) = self.sidebar.handle_touch(&touch) {
                    return Self::respond(&e);
                }
                UiResponse::Redraw
            },
            _ => Self::respond(&event),
        }
    }

    /// The response to an event other than a touch.
    pub fn respond(event: &AppEvent) -> (r: UiResponse)
        ensures
            r == event_response(*event),
    {
        match event {
            AppEvent::MoveMade(_) => UiResponse::Redraw,
            AppEvent::SquareSelected(_) => UiResponse::Redraw,
            AppEvent::Expose => UiResponse::Redraw,
            AppEvent::Quit => UiResponse::Exit,
            _ => UiResponse::Idle,
        }
    }
}

} // verus!
