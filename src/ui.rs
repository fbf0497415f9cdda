//! The touch screen: its events, and the two widgets that turn touches into
//! application events (the board and the sidebar).

use vstd::prelude::*;
use vstd::string::StringExecFns;
use crate::text::{decimal, push_char, push_decimal};
use std::time::Duration;

verus! {

#[derive(Debug)]
pub enum AppEvent {
    Touch(TouchEvent),
    Redraw,
    Tick(Duration),
    MoveMade(ChessMove),
    SquareSelected(Square),
    ShowMenu,
    ExitToMenu,
    Quit,
    Expose,
    WindowUnmapped,
}

#[derive(Debug, Clone, Copy)]
pub struct TouchEvent {
    pub x: i16,
    pub y: i16,
    pub kind: TouchKind,
}

#[derive(Debug, Clone, Copy, PartialEq, Eq, Structural)]
pub enum TouchKind {
    Down,
    Up,
    Move,
}

/// A square: `file` 0-7 for a-h, `rank` 0-7 for 1-8.
#[derive(Debug, Clone, Copy, PartialEq, Eq, Structural)]
pub struct Square {
    pub file: u8,
    pub rank: u8,
}

/// The letter of file `file` (0 is `a`).
pub open spec fn file_letter(file: u8) -> char {
    ((97 + file) as u8) as char
}

/// Algebraic name of a square: its file letter, then its rank counted from 1.
pub open spec fn algebraic(sq: Square) -> Seq<char> {
    seq![file_letter(sq.file)] + decimal(sq.rank as nat + 1)
}

impl Square {
    pub fn new(file: u8, rank: u8) -> (r: Square)
        ensures
            r == (Square { file, rank }),
    {
        Square { file, rank }
    }

    /// The square's name, `a1` to `h8` on the board. The file's letter is
    /// its byte `b'a' + file`, which must fit in a byte.
    pub fn to_algebraic(&self) -> (r: String)
        requires
            self.file <= 158,
        ensures
            r@ == algebraic(*self),
    {
        let mut s = String::new();
        push_char(&mut s, (97u8 + self.file) as char);
        push_decimal(&mut s, self.rank as u64 + 1);
        assert(s@ =~= algebraic(*self));
        s
    }
}

#[derive(Debug, Clone, Copy, PartialEq, Eq, Structural)]
pub struct ChessMove {
    pub from: Square,
    pub to: Square,
}

/// An area of the screen, `width` by `height` pixels from its top-left
/// corner `(x, y)`.
#[derive(Debug, Clone, Copy, PartialEq, Eq, Structural)]
pub struct Rectangle {
    pub x: i16,
    pub y: i16,
    pub width: u16,
    pub height: u16,
}

/// Whether pixel `(px, py)` lies in `r`.
pub open spec fn rect_contains(r: Rectangle, px: int, py: int) -> bool {
    r.x <= px < r.x + r.width && r.y <= py < r.y + r.height
}

impl Rectangle {
    pub fn new(x: i16, y: i16, width: u16, height: u16) -> (r: Rectangle)
        ensures
            r == (Rectangle { x, y, width, height }),
    {
        Rectangle { x, y, width, height }
    }

    pub fn contains(&self, px: i16, py: i16) -> (r: bool)
        ensures
            r == rect_contains(*self, px as int, py as int),
    {
        let x = self.x as i32;
        let y = self.y as i32;
        px as i32 >= x && (px as i32) < x + self.width as i32 && py as i32 >= y && (py as i32) < y
            + self.height as i32
    }
}

/// Side of a square on the screen, in pixels.
pub const SQUARE_SIZE: u16 = 134;

/// The square under pixel `(x, y)` of a board drawn in `area`, seen from
/// black's side when `flipped`; none outside the board.
pub open spec fn square_at(area: Rectangle, x: int, y: int, flipped: bool) -> Option<Square> {
    if !rect_contains(area, x, y) {
        None
    } else {
        let col = (x - area.x) / (SQUARE_SIZE as int);
        let row = (y - area.y) / (SQUARE_SIZE as int);
        if col > 7 || row > 7 {
            None
        } else {
            let file = col;
            let rank = 7 - row;
            Some(
                Square {
                    file: (if flipped {
                        7 - file
                    } else {
                        file
                    }) as u8,
                    rank: (if flipped {
                        7 - rank
                    } else {
                        rank
                    }) as u8,
                },
            )
        }
    }
}

/// The board after a touch, and the event it raises. Outside the board
/// nothing changes. Pressing down on a square records the touch point and
/// selects the square, or, with a square selected, makes the move to it (or
/// deselects it when it is the same square). Lifting the finger forgets the
/// touch point.
pub open spec fn board_touch(w: BoardWidget, t: TouchEvent) -> (BoardWidget, Option<AppEvent>) {
    match square_at(w.area, t.x as int, t.y as int, w.flipped) {
        None => (w, None),
        Some(sq) => match t.kind {
            TouchKind::Down => {
                let pressed = BoardWidget { last_touch: Some((t.x, t.y)), ..w };
                match w.selected_square {
                    Some(sel) => (
                        BoardWidget { selected_square: None, ..pressed },
                        if sel != sq {
                            Some(AppEvent::MoveMade(ChessMove { from: sel, to: sq }))
                        } else {
                            None
                        },
                    ),
                    None => (
                        BoardWidget { selected_square: Some(sq), ..pressed },
                        Some(AppEvent::SquareSelected(sq)),
                    ),
                }
            },
            TouchKind::Up => (BoardWidget { last_touch: None, ..w }, None),
            TouchKind::Move => (w, None),
        },
    }
}

/// The event that a touch on the sidebar raises: lifting the finger on the
/// menu button asks for the menu, on the exit button to quit.
pub open spec fn sidebar_touch(s: SidebarWidget, t: TouchEvent) -> Option<AppEvent> {
    if !rect_contains(s.area, t.x as int, t.y as int) || t.kind != TouchKind::Up {
        None
    } else if rect_contains(s.menu_button, t.x as int, t.y as int) {
        Some(AppEvent::ShowMenu)
    } else if rect_contains(s.exit_button, t.x as int, t.y as int) {
        Some(AppEvent::Quit)
    } else {
        None
    }
}

/// The chess board: a first touch selects a square, a touch on another
/// square makes the move, a touch on the same square deselects it.
#[derive(Debug)]
pub struct BoardWidget {
    pub area: Rectangle,
    pub selected_square: Option<Square>,
    pub last_touch: Option<(i16, i16)>,
    /// Viewed from black's side.
    pub flipped: bool,
}

impl BoardWidget {
    pub fn new(area: Rectangle) -> (r: BoardWidget)
        ensures
            r.area == area,
            r.selected_square is None,
            r.last_touch is None,
            !r.flipped,
    {
        BoardWidget { area, selected_square: None, last_touch: None, flipped: false }
    }

    /// Applies a touch; see [`board_touch`].
    pub fn handle_touch(&mut self, touch: &TouchEvent) -> (r: Option<AppEvent>)
        ensures
            (*final(self), r) == board_touch(*old(self), *touch),
    {
        if !self.area.contains(touch.x, touch.y) {
            return None;
        }
        let board_x = touch.x as i32 - self.area.x as i32;
        let board_y = touch.y as i32 - self.area.y as i32;
        let col = board_x / SQUARE_SIZE as i32;
        let row = board_y / SQUARE_SIZE as i32;
        if col > 7 || row > 7 {
            return None;
        }
        let file = col as u8;
        let rank = (7 - row) as u8;
        let square = Square::new(
            if self.flipped {
                7 - file
            } else {
                file
            },
            if self.flipped {
                7 - rank
            } else {
                rank
            },
        );
        match touch.kind {
            TouchKind::Down => {
                self.last_touch = Some((touch.x, touch.y));
                match self.selected_square {
                    Some(selected) => {
                        self.selected_square = None;
                        if selected != square {
                            return Some(AppEvent::MoveMade(ChessMove { from: selected, to: square }));
                        }
                    },
                    None => {
                        self.selected_square = Some(square);
                        return Some(AppEvent::SquareSelected(square));
                    },
                }
            },
            TouchKind::Up => {
                self.last_touch = None;
            },
            TouchKind::Move => {},
        }
        None
    }
}

/// The sidebar below the board, with a menu button and an exit button.
#[derive(Debug)]
pub struct SidebarWidget {
    pub area: Rectangle,
    pub menu_button: Rectangle,
    pub exit_button: Rectangle,
    pub event_count: u32,
}

impl SidebarWidget {
    /// A sidebar in `area`, its buttons 200 by 60 pixels, inset 10 pixels
    /// from the left, 10 and 280 pixels from the top.
    pub fn new(area: Rectangle) -> (r: SidebarWidget)
        requires
            area.x + 10 <= i16::MAX,
            area.y + 280 <= i16::MAX,
        ensures
            r.area == area,
            r.menu_button == (Rectangle { x: (area.x + 10) as i16, y: (area.y + 10) as i16, width: 200, height: 60 }),
            r.exit_button == (Rectangle { x: (area.x + 10) as i16, y: (area.y + 280) as i16, width: 200, height: 60 }),
            r.event_count == 0,
    {
        SidebarWidget {
            area,
            menu_button: Rectangle::new(area.x + 10, area.y + 10, 200, 60),
            exit_button: Rectangle::new(area.x + 10, area.y + 280, 200, 60),
            event_count: 0,
        }
    }

    /// Counts one more tick; the counter wraps around.
    pub fn increment_event_count(&mut self)
        ensures
            final(self).event_count == (old(self).event_count + 1) % 0x1_0000_0000,
            final(self).area == old(self).area,
            final(self).menu_button == old(self).menu_button,
            final(self).exit_button == old(self).exit_button,
    {
        if self.event_count == u32::MAX {
            self.event_count = 0;
        } else {
            self.event_count = self.event_count + 1;
        }
    }

    /// Reads a touch; see [`sidebar_touch`]. The sidebar does not change.
    pub fn handle_touch(&mut self, touch: &TouchEvent) -> (r: Option<AppEvent>)
        ensures
            *final(self) == *old(self),
            r == sidebar_touch(*old(self), *touch),
    {
        if !self.area.contains(touch.x, touch.y) {
            return None;
        }
        if touch.kind == TouchKind::Up {
            if self.menu_button.contains(touch.x, touch.y) {
                return Some(AppEvent::ShowMenu);
            }
            if self.exit_button.contains(touch.x, touch.y) {
                return Some(AppEvent::Quit);
            }
        }
        None
    }
}

} // verus!
