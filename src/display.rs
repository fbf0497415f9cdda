//! The e-ink panel's frame buffer: one byte of luma per pixel, in the
//! panel's own orientation, which is the logical one turned by a quarter.

use vstd::prelude::*;

verus! {

pub const PANEL_WIDTH: u32 = 1072;

pub const PANEL_HEIGHT: u32 = 1448;

/// How the panel is refreshed from the frame buffer.
#[derive(Debug, Clone, Copy, PartialEq, Eq, Structural)]
pub enum RefreshMode {
    /// Redraw the whole panel from a dump of the frame buffer.
    Full,
    Partial,
    Fast,
}

pub struct KindleDisplay {
    /// The frame buffer, one luma byte per pixel, `stride` bytes per row.
    pub framebuffer: Vec<u8>,
    pub width: u32,
    pub height: u32,
    pub stride: u32,
    pub rotation: u8,
}

/// Where logical pixel `(x, y)` lies in the frame buffer of a panel `width`
/// pixels wide with rows of `stride` bytes.
pub open spec fn pixel_index(x: int, y: int, width: int, stride: int) -> int {
    y + (width - 1 - x) * stride
}

impl KindleDisplay {
    /// The panel's geometry and a frame buffer that covers it.
    pub open spec fn wf(&self) -> bool {
        &&& self.width == PANEL_WIDTH
        &&& self.height == PANEL_HEIGHT
        &&& self.stride == PANEL_WIDTH
        &&& self.framebuffer@.len() == PANEL_WIDTH * PANEL_HEIGHT
    }

    /// A black panel of 1072 by 1448 pixels.
    pub fn new_test() -> (r: KindleDisplay)
        ensures
            r.wf(),
            r.rotation == 3,
            forall|i: int| 0 <= i < r.framebuffer@.len() ==> r.framebuffer@[i] == 0,
    {
        let framebuffer = vec![0u8; 1552256];
        KindleDisplay {
            framebuffer,
            width: PANEL_WIDTH,
            height: PANEL_HEIGHT,
            stride: PANEL_WIDTH,
            rotation: 3,
        }
    }

    /// Whether refreshing in `mode` needs the frame buffer written out.
    pub fn flush(&self, mode: RefreshMode) -> (r: bool)
        ensures
            r == (mode == RefreshMode::Full),
    {
        match mode {
            RefreshMode::Full => true,
            RefreshMode::Partial => false,
            RefreshMode::Fast => false,
        }
    }

    /// Sets logical pixel `(x, y)` to `luma`; pixels off the panel are
    /// ignored.
    pub fn draw_pixel(&mut self, x: i32, y: i32, luma: u8)
        requires
            old(self).wf(),
        ensures
            final(self).wf(),
            final(self).rotation == old(self).rotation,
            if 0 <= x < PANEL_WIDTH && 0 <= y < PANEL_HEIGHT {
                final(self).framebuffer@ == old(self).framebuffer@.update(
                    pixel_index(x as int, y as int, PANEL_WIDTH as int, PANEL_WIDTH as int),
                    luma,
                )
            } else {
                final(self).framebuffer@ == old(self).framebuffer@
            },
    {
        if 0 <= x && x < 1072 && 0 <= y && y < 1448 {
            let px = y as u32;
            let py = self.width - 1 - x as u32;
            assert(py * 1072 <= 1071 * 1072) by (nonlinear_arith)
                requires
                    py <= 1071,
            ;
            let index = px + py * self.stride;
            self.framebuffer.set(index as usize, luma);
        }
    }
}

} // verus!
