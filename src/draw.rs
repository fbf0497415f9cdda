//! What the widgets look like, as a list of drawing commands that the
//! renderer carries out in order. Coordinates are wide enough that no sum
//! overflows; the renderer clips them to the screen.

use vstd::prelude::*;
use crate::ui::{BoardWidget, Rectangle, SidebarWidget, Square, SQUARE_SIZE};

verus! {

#[derive(Debug, Clone, Copy, PartialEq, Eq, Structural, Hash)]
pub enum DrawColor {
    Black,
    White,
    Gray,
    DarkGray,
    LightGray,
}

#[derive(Debug, Clone, Copy, PartialEq, Eq, Structural)]
pub enum DrawCommand {
    Rect { x: i32, y: i32, width: u32, height: u32, color: DrawColor, filled: bool },
    Circle { x: i32, y: i32, radius: u32, color: DrawColor },
    Line { x1: i32, y1: i32, x2: i32, y2: i32, color: DrawColor },
}

/// A rectangle command covering `r`.
pub open spec fn rect_cmd(r: Rectangle, color: DrawColor, filled: bool) -> DrawCommand {
    DrawCommand::Rect { x: r.x as i32, y: r.y as i32, width: r.width as u32, height: r.height as u32, color, filled }
}

/// Square `i` of the board grid (rank `i / 8`, file `i % 8`, rank 0 at the
/// bottom), dark when rank and file differ in parity.
pub open spec fn grid_square(area: Rectangle, i: int) -> DrawCommand {
    let rank = i / 8;
    let file = i % 8;
    DrawCommand::Rect {
        x: (area.x + file * SQUARE_SIZE) as i32,
        y: (area.y + (7 - rank) * SQUARE_SIZE) as i32,
        width: SQUARE_SIZE as u32,
        height: SQUARE_SIZE as u32,
        color: if (rank + file) % 2 == 1 {
            DrawColor::DarkGray
        } else {
            DrawColor::LightGray
        },
        filled: true,
    }
}

/// The three nested outlines that mark the selected square `sq`.
pub open spec fn selection_outlines(area: Rectangle, flipped: bool, sq: Square) -> Seq<DrawCommand> {
    let file: int = if flipped {
        7 - sq.file
    } else {
        sq.file as int
    };
    let rank: int = if flipped {
        7 - sq.rank
    } else {
        sq.rank as int
    };
    let x = area.x + file * SQUARE_SIZE;
    let y = area.y + (7 - rank) * SQUARE_SIZE;
    Seq::new(
        3,
        |i: int|
            DrawCommand::Rect {
                x: (x + i) as i32,
                y: (y + i) as i32,
                width: (SQUARE_SIZE - 2 * i) as u32,
                height: (SQUARE_SIZE - 2 * i) as u32,
                color: DrawColor::Black,
                filled: false,
            },
    )
}

/// A circle of radius 30 and a cross of 80 pixels at the touch point.
pub open spec fn touch_marker(tx: i16, ty: i16) -> Seq<DrawCommand> {
    seq![
        DrawCommand::Circle { x: tx as i32, y: ty as i32, radius: 30, color: DrawColor::Gray },
        DrawCommand::Line { x1: (tx - 40) as i32, y1: ty as i32, x2: (tx + 40) as i32, y2: ty as i32, color: DrawColor::Gray },
        DrawCommand::Line { x1: tx as i32, y1: (ty - 40) as i32, x2: tx as i32, y2: (ty + 40) as i32, color: DrawColor::Gray },
    ]
}

/// The board: its 64 squares, its border, the selection and the touch point.
pub open spec fn board_drawing(w: BoardWidget) -> Seq<DrawCommand> {
    Seq::new(64, |i: int| grid_square(w.area, i)) + seq![rect_cmd(w.area, DrawColor::Black, false)]
        + match w.selected_square {
        Some(sq) => selection_outlines(w.area, w.flipped, sq),
        None => Seq::empty(),
    } + match w.last_touch {
        Some((tx, ty)) => touch_marker(tx, ty),
        None => Seq::empty(),
    }
}

/// Stripe `i` of the exit button.
pub open spec fn exit_stripe(exit: Rectangle, i: int) -> DrawCommand {
    DrawCommand::Rect {
        x: exit.x as i32,
        y: (exit.y + i * 20) as i32,
        width: exit.width as u32,
        height: 10,
        color: DrawColor::DarkGray,
        filled: true,
    }
}

/// Mark `i` of the tick counter.
pub open spec fn counter_mark(area: Rectangle, i: int) -> DrawCommand {
    DrawCommand::Rect {
        x: (area.x + 10 + i * 25) as i32,
        y: (area.y + 100) as i32,
        width: 20,
        height: 20,
        color: DrawColor::Black,
        filled: true,
    }
}

/// The sidebar: cleared and framed, the menu button, the striped exit
/// button, and one mark per tick modulo ten.
pub open spec fn sidebar_drawing(s: SidebarWidget) -> Seq<DrawCommand> {
    seq![
        rect_cmd(s.area, DrawColor::White, true),
        rect_cmd(s.area, DrawColor::Black, false),
        rect_cmd(s.menu_button, DrawColor::LightGray, true),
        rect_cmd(s.menu_button, DrawColor::Black, false),
    ] + Seq::new(3, |i: int| exit_stripe(s.exit_button, i)) + seq![
        rect_cmd(s.exit_button, DrawColor::Black, false),
    ] + Seq::new((s.event_count % 10) as nat, |i: int| counter_mark(s.area, i))
}

fn rect_of(r: Rectangle, color: DrawColor, filled: bool) -> (c: DrawCommand)
    ensures
        c == rect_cmd(r, color, filled),
{
    DrawCommand::Rect { x: r.x as i32, y: r.y as i32, width: r.width as u32, height: r.height as u32, color, filled }
}

impl BoardWidget {
    /// The commands that draw the board in its current state.
    pub fn render(&self) -> (r: Vec<DrawCommand>)
        ensures
            r@ == board_drawing(*self),
    {
        let mut out: Vec<DrawCommand> = Vec::new();
        let size = SQUARE_SIZE as i32;
        let mut i: usize = 0;
        while i < 64
            invariant
                i <= 64,
                size == SQUARE_SIZE,
                out@ == Seq::new(i as nat, |j: int| grid_square(self.area, j)),
            decreases 64 - i,
        {
            let rank = (i / 8) as i32;
            let file = (i % 8) as i32;
            let color = if (rank + file) % 2 == 1 {
                DrawColor::DarkGray
            } else {
                DrawColor::LightGray
            };
            out.push(DrawCommand::Rect {
                x: self.area.x as i32 + file * size,
                y: self.area.y as i32 + (7 - rank) * size,
                width: 134,
                height: 134,
                color,
                filled: true,
            });
            i = i + 1;
            assert(out@ =~= Seq::new(i as nat, |j: int| grid_square(self.area, j)));
        }
        out.push(rect_of(self.area, DrawColor::Black, false));
        let ghost base = out@;
        if let Some(sq) = self.selected_square {
            let file: i32 = if self.flipped {
                7 - sq.file as i32
            } else {
                sq.file as i32
            };
            let rank: i32 = if self.flipped {
                7 - sq.rank as i32
            } else {
                sq.rank as i32
            };
            let x = self.area.x as i32 + file * size;
            let y = self.area.y as i32 + (7 - rank) * size;
            let mut k: i32 = 0;
            while k < 3
                invariant
                    0 <= k <= 3,
                    size == SQUARE_SIZE,
                    x == self.area.x + file * SQUARE_SIZE,
                    y == self.area.y + (7 - rank) * SQUARE_SIZE,
                    file == (if self.flipped { 7 - sq.file } else { sq.file as int }),
                    rank == (if self.flipped { 7 - sq.rank } else { sq.rank as int }),
                    out@ == base + selection_outlines(self.area, self.flipped, sq).subrange(0, k as int),
                decreases 3 - k,
            {
                out.push(DrawCommand::Rect {
                    x: x + k,
                    y: y + k,
                    width: (134 - 2 * k) as u32,
                    height: (134 - 2 * k) as u32,
                    color: DrawColor::Black,
                    filled: false,
                });
                k = k + 1;
                assert(out@ =~= base + selection_outlines(self.area, self.flipped, sq).subrange(0, k as int));
            }
            assert(selection_outlines(self.area, self.flipped, sq).subrange(0, 3) =~= selection_outlines(self.area, self.flipped, sq));
        }
        let ghost mid = out@;
        if let Some((tx, ty)) = self.last_touch {
            let x = tx as i32;
            let y = ty as i32;
            out.push(DrawCommand::Circle { x, y, radius: 30, color: DrawColor::Gray });
            out.push(DrawCommand::Line { x1: x - 40, y1: y, x2: x + 40, y2: y, color: DrawColor::Gray });
            out.push(DrawCommand::Line { x1: x, y1: y - 40, x2: x, y2: y + 40, color: DrawColor::Gray });
            assert(out@ =~= mid + touch_marker(tx, ty));
        } else {
            assert(out@ =~= mid + Seq::<DrawCommand>::empty());
        }
        assert(out@ =~= board_drawing(*self));
        out
    }
}

impl SidebarWidget {
    /// The commands that draw the sidebar in its current state.
    pub fn render(&self) -> (r: Vec<DrawCommand>)
        ensures
            r@ == sidebar_drawing(*self),
    {
        let mut out: Vec<DrawCommand> = Vec::new();
        out.push(rect_of(self.area, DrawColor::White, true));
        out.push(rect_of(self.area, DrawColor::Black, false));
        out.push(rect_of(self.menu_button, DrawColor::LightGray, true));
        out.push(rect_of(self.menu_button, DrawColor::Black, false));
        let ghost head = out@;
        let mut i: i32 = 0;
        while i < 3
            invariant
                0 <= i <= 3,
                out@ == head + Seq::new(i as nat, |j: int| exit_stripe(self.exit_button, j)),
            decreases 3 - i,
        {
            out.push(DrawCommand::Rect {
                x: self.exit_button.x as i32,
                y: self.exit_button.y as i32 + i * 20,
                width: self.exit_button.width as u32,
                height: 10,
                color: DrawColor::DarkGray,
                filled: true,
            });
            i = i + 1;
            assert(out@ =~= head + Seq::new(i as nat, |j: int| exit_stripe(self.exit_button, j)));
        }
        out.push(rect_of(self.exit_button, DrawColor::Black, false));
        let ghost framed = out@;
        let count = self.event_count % 10;
        let mut k: u32 = 0;
        while k < count
            invariant
                k <= count,
                count == self.event_count % 10,
                out@ == framed + Seq::new(k as nat, |j: int| counter_mark(self.area, j)),
            decreases count - k,
        {
            out.push(DrawCommand::Rect {
                x: self.area.x as i32 + 10 + (k as i32) * 25,
                y: self.area.y as i32 + 100,
                width: 20,
                height: 20,
                color: DrawColor::Black,
                filled: true,
            });
            k = k + 1;
            assert(out@ =~= framed + Seq::new(k as nat, |j: int| counter_mark(self.area, j)));
        }
        assert(out@ =~= sidebar_drawing(*self));
        out
    }
}

} // verus!
