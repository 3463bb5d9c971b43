use vstd::prelude::*;

use crate::input::{Pos, Side};

verus! {

/// Minimum height, in pixels at scale 1, of the bands at the top and bottom
/// of the text area where dragging scrolls the selection.
pub const MIN_SELECTION_SCROLLING_HEIGHT: i64 = 5;

/// Pixels, at scale 1, past the edge for each further line of scrolling.
pub const SELECTION_SCROLLING_STEP: i64 = 10;

/// Largest cell size, padding, scale or grid dimension.
pub const GEOMETRY_MAX: usize = 0xffff;

/// The renderer's geometry, in physical pixels and cells.
#[derive(Clone, Copy, Debug, PartialEq, Eq, Structural)]
pub struct Layout {
    pub width: u32,
    pub height: u32,
    pub columns: usize,
    pub lines: usize,
    pub cell_width: usize,
    pub cell_height: usize,
    pub padding_x: usize,
    pub padding_y: usize,
    pub scale_factor: usize,
}

/// Product of two geometry values.
fn geometry_mul(a: usize, b: usize) -> (r: usize)
    requires
        a <= GEOMETRY_MAX,
        b <= GEOMETRY_MAX,
    ensures
        r == a * b,
        r <= GEOMETRY_MAX * GEOMETRY_MAX,
{
    assert(a * b <= GEOMETRY_MAX * GEOMETRY_MAX) by (nonlinear_arith)
        requires
            a <= GEOMETRY_MAX,
            b <= GEOMETRY_MAX,
    ;
    a * b
}

pub open spec fn sat_sub(a: int, b: int) -> int {
    if a > b {
        a - b
    } else {
        0
    }
}

impl Layout {
    pub open spec fn wf(&self) -> bool {
        &&& 1 <= self.width && 1 <= self.height
        &&& 1 <= self.columns <= GEOMETRY_MAX
        &&& 1 <= self.lines <= GEOMETRY_MAX
        &&& 1 <= self.cell_width <= GEOMETRY_MAX
        &&& 1 <= self.cell_height <= GEOMETRY_MAX
        &&& self.padding_x <= GEOMETRY_MAX
        &&& self.padding_y <= GEOMETRY_MAX
        &&& 1 <= self.scale_factor <= GEOMETRY_MAX
        &&& 2 * self.padding_x <= self.width
        &&& self.cell_width <= self.width
        &&& self.cell_height <= self.height
    }

    pub fn is_valid(&self) -> (r: bool)
        ensures
            r == self.wf(),
    {
        1 <= self.width && 1 <= self.height && 1 <= self.columns && self.columns <= GEOMETRY_MAX
            && 1 <= self.lines && self.lines <= GEOMETRY_MAX && 1 <= self.cell_width
            && self.cell_width <= GEOMETRY_MAX && 1 <= self.cell_height
            && self.cell_height <= GEOMETRY_MAX && self.padding_x <= GEOMETRY_MAX
            && self.padding_y <= GEOMETRY_MAX && 1 <= self.scale_factor
            && self.scale_factor <= GEOMETRY_MAX && 2 * (self.padding_x as u64) <= self.width as u64
            && self.cell_width as u64 <= self.width as u64 && self.cell_height as u64 <= self.height as u64
    }

    /// The cell under the pointer at `(x, y)`, with its row made relative
    /// to the viewport shifted `display_offset` lines into the scrollback.
    pub open spec fn cell_at_spec(&self, x: usize, y: usize, display_offset: usize) -> Pos {
        let col = sat_sub(x as int, self.padding_x as int) / (self.cell_width as int);
        let line = sat_sub(y as int, self.padding_y * self.scale_factor) / (self.cell_height as int);
        Pos {
            row: ((if line < self.lines - 1 { line } else { self.lines - 1 }) - display_offset) as i32,
            col: (if col < self.columns { col } else { self.columns as int }) as usize,
        }
    }

    pub fn cell_at(&self, x: usize, y: usize, display_offset: usize) -> (r: Pos)
        requires
            self.wf(),
            display_offset <= i32::MAX,
        ensures
            r == self.cell_at_spec(x, y, display_offset),
            r.col <= self.columns,
            r.row < self.lines,
    {
        let col = if x > self.padding_x { x - self.padding_x } else { 0 } / self.cell_width;
        let col = if col < self.columns { col } else { self.columns };
        let top = geometry_mul(self.padding_y, self.scale_factor);
        let line = if y > top { y - top } else { 0 } / self.cell_height;
        let line = if line < self.lines - 1 { line } else { self.lines - 1 };
        Pos { row: (line as i64 - display_offset as i64) as i32, col }
    }

    /// `true` iff `(x, y)` lies over the grid, right of and below the padding.
    pub open spec fn contains_point_spec(&self, x: usize, y: usize) -> bool {
        &&& x <= self.padding_x + self.columns * self.cell_width
        &&& x > self.padding_x
        &&& y <= self.padding_y + self.lines * self.cell_height
        &&& y > self.padding_y
    }

    pub fn contains_point(&self, x: usize, y: usize) -> (r: bool)
        requires
            self.wf(),
        ensures
            r == self.contains_point_spec(x, y),
    {
        let w = geometry_mul(self.columns, self.cell_width);
        let h = geometry_mul(self.lines, self.cell_height);
        x <= self.padding_x + w && x > self.padding_x && y <= self.padding_y + h && y > self.padding_y
    }

    /// The half of its cell that `x` falls in; past the last whole cell
    /// counts as the right half.
    pub open spec fn side_spec(&self, x: usize) -> Side {
        let w = self.cell_width as int;
        let cell_x = sat_sub(x as int, self.padding_x as int) % w;
        let extra = (self.width - 2 * self.padding_x) % w;
        let end_of_grid = self.width - self.padding_x - extra;
        if cell_x > w / 2 || x >= end_of_grid {
            Side::Right
        } else {
            Side::Left
        }
    }

    pub fn side_by_pos(&self, x: usize) -> (r: Side)
        requires
            self.wf(),
        ensures
            r == self.side_spec(x),
    {
        let w = self.cell_width;
        let cell_x = if x > self.padding_x { x - self.padding_x } else { 0 } % w;
        let width = self.width as u64;
        let pad = self.padding_x as u64;
        let span = width - 2 * pad;
        let wu = w as u64;
        let extra = span % wu;
        assert(extra <= span) by (nonlinear_arith)
            requires
                extra == span % wu,
                wu >= 1,
        ;
        let end_of_grid = width - pad - extra;
        if cell_x > w / 2 || x as u64 >= end_of_grid {
            Side::Right
        } else {
            Side::Left
        }
    }

    /// Lines to scroll while a drag is at pointer height `y`: positive near
    /// the top (into the scrollback), negative near the bottom, `None` in
    /// between.
    pub open spec fn selection_scroll_spec(&self, y: int) -> Option<int> {
        let min_height = MIN_SELECTION_SCROLLING_HEIGHT * self.scale_factor;
        let step = SELECTION_SCROLLING_STEP * self.scale_factor;
        let end_top = if min_height > self.padding_y { min_height } else { self.padding_y as int };
        let text_area_bottom = self.padding_y + self.lines * self.cell_height;
        let start_bottom = if self.height - min_height < text_area_bottom {
            self.height - min_height
        } else {
            text_area_bottom
        };
        if y < end_top {
            Some((end_top - y + step) / step)
        } else if y >= start_bottom {
            Some(-((y - start_bottom + step) / step))
        } else {
            None
        }
    }

    pub fn selection_scroll_lines(&self, y: i32) -> (r: Option<i64>)
        requires
            self.wf(),
        ensures
            r matches Some(n) ==> self.selection_scroll_spec(y as int) == Some(n as int),
            r is None ==> self.selection_scroll_spec(y as int) is None,
    {
        let scale = self.scale_factor as i64;
        let min_height = MIN_SELECTION_SCROLLING_HEIGHT * scale;
        let step = SELECTION_SCROLLING_STEP * scale;
        let end_top = if min_height > self.padding_y as i64 { min_height } else { self.padding_y as i64 };
        let area = geometry_mul(self.lines, self.cell_height) as i64;
        let text_area_bottom = self.padding_y as i64 + area;
        let start_bottom = if (self.height as i64) - min_height < text_area_bottom {
            (self.height as i64) - min_height
        } else {
            text_area_bottom
        };
        let y = y as i64;
        if y < end_top {
            let d = end_top - y + step;
            Some(((d as u64) / (step as u64)) as i64)
        } else if y >= start_bottom {
            let d = y - start_bottom + step;
            assert(d / step <= d) by (nonlinear_arith)
                requires
                    d >= 0,
                    step >= 1,
            ;
            Some(-(((d as u64) / (step as u64)) as i64))
        } else {
            None
        }
    }
}

} // verus!
