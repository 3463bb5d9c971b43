use vstd::prelude::*;

use crate::bindings::ViMotion;
use crate::input::Pos;
use crate::selection::Selection;

verus! {

/// How to move the viewport over the scrollback.
#[derive(Clone, Copy, Debug, PartialEq, Eq, Structural)]
pub enum Scroll {
    /// Lines to move up into the scrollback (negative: down).
    Delta(i64),
    Bottom,
}

/// The part of a session's grid that this core reads and drives: mode flags,
/// geometry, viewport offset into the scrollback, cursors and the selection
/// slot. The cells themselves belong to the escape-sequence interpreter.
#[derive(Clone, Copy, Debug)]
pub struct Terminal {
    pub mode: u32,
    pub columns: usize,
    pub screen_lines: usize,
    pub history_size: usize,
    pub display_offset: usize,
    pub cursor: Pos,
    pub vi_cursor: Pos,
    pub selection: Option<Selection>,
}

pub open spec fn clamp(v: int, lo: int, hi: int) -> int {
    if v < lo {
        lo
    } else if v > hi {
        hi
    } else {
        v
    }
}

/// The display offset after `scroll`: it never leaves `0..=history`.
pub open spec fn scrolled_offset(offset: usize, history: usize, scroll: Scroll) -> usize {
    match scroll {
        Scroll::Delta(n) => clamp(offset + n, 0, history as int) as usize,
        Scroll::Bottom => 0,
    }
}

/// `p` moved inside a grid of `lines` rows and `columns` columns.
pub open spec fn clamp_pos(p: Pos, lines: usize, columns: usize) -> Pos {
    Pos {
        row: clamp(p.row as int, 0, lines - 1) as i32,
        col: if p.col < columns { p.col } else { (columns - 1) as usize },
    }
}

/// Where a vi motion takes the vi cursor.
pub open spec fn vi_moved(p: Pos, motion: ViMotion, lines: usize, columns: usize) -> Pos {
    match motion {
        ViMotion::Up => if p.row > 0 { Pos { row: (p.row - 1) as i32, ..p } } else { p },
        ViMotion::Down => if p.row + 1 < lines { Pos { row: (p.row + 1) as i32, ..p } } else { p },
        ViMotion::Left => if p.col > 0 { Pos { col: (p.col - 1) as usize, ..p } } else { p },
        ViMotion::Right => if p.col + 1 < columns { Pos { col: (p.col + 1) as usize, ..p } } else { p },
        ViMotion::First => Pos { col: 0, ..p },
        ViMotion::Last => Pos { col: (columns - 1) as usize, ..p },
    }
}

fn clamp_row(row: i32, lines: usize) -> (r: i32)
    requires
        1 <= lines <= i32::MAX,
    ensures
        r == clamp(row as int, 0, lines - 1),
{
    if row < 0 {
        0
    } else if row as usize > lines - 1 {
        (lines - 1) as i32
    } else {
        row
    }
}

/// A grid just created with the given geometry.
pub open spec fn fresh_terminal(columns: usize, screen_lines: usize) -> Terminal {
    Terminal {
        mode: 0,
        columns,
        screen_lines,
        history_size: 0,
        display_offset: 0,
        cursor: Pos { row: 0, col: 0 },
        vi_cursor: Pos { row: 0, col: 0 },
        selection: None,
    }
}

impl Terminal {
    pub open spec fn wf(&self) -> bool {
        &&& 1 <= self.columns
        &&& 1 <= self.screen_lines <= i32::MAX
        &&& self.history_size <= i32::MAX
        &&& self.display_offset <= self.history_size
    }

    pub fn new(columns: usize, screen_lines: usize) -> (r: Terminal)
        requires
            1 <= columns,
            1 <= screen_lines <= i32::MAX,
        ensures
            r.wf(),
            r == fresh_terminal(columns, screen_lines),
    {
        Terminal {
            mode: 0,
            columns,
            screen_lines,
            history_size: 0,
            display_offset: 0,
            cursor: Pos { row: 0, col: 0 },
            vi_cursor: Pos { row: 0, col: 0 },
            selection: None,
        }
    }

    pub fn mode(&self) -> (r: u32)
        ensures
            r == self.mode,
    {
        self.mode
    }

    pub fn display_offset(&self) -> (r: usize)
        ensures
            r == self.display_offset,
    {
        self.display_offset
    }

    /// Row of the last visible line.
    pub fn bottommost_line(&self) -> (r: i32)
        requires
            self.wf(),
        ensures
            r == self.screen_lines - 1,
    {
        (self.screen_lines - 1) as i32
    }

    pub fn scroll_display(&mut self, scroll: Scroll)
        requires
            old(self).wf(),
        ensures
            final(self).wf(),
            *final(self) == (Terminal {
                display_offset: scrolled_offset(
                    old(self).display_offset,
                    old(self).history_size,
                    scroll,
                ),
                ..*old(self)
            }),
    {
        match scroll {
            Scroll::Delta(n) => {
                let t: i128 = self.display_offset as i128 + n as i128;
                let v: usize = if t < 0 {
                    0
                } else if t > self.history_size as i128 {
                    self.history_size
                } else {
                    t as usize
                };
                self.display_offset = v;
            },
            Scroll::Bottom => {
                self.display_offset = 0;
            },
        }
    }

    /// Records how many lines the scrollback now holds.
    pub fn set_history_size(&mut self, history_size: usize)
        requires
            old(self).wf(),
            history_size <= i32::MAX,
        ensures
            final(self).wf(),
            *final(self) == (Terminal {
                history_size,
                display_offset: if old(self).display_offset <= history_size {
                    old(self).display_offset
                } else {
                    history_size
                },
                ..*old(self)
            }),
    {
        self.history_size = history_size;
        if self.display_offset > history_size {
            self.display_offset = history_size;
        }
    }

    /// Takes the new geometry; the cursors are kept inside it.
    pub fn resize(&mut self, columns: usize, screen_lines: usize)
        requires
            old(self).wf(),
            1 <= columns,
            1 <= screen_lines <= i32::MAX,
        ensures
            final(self).wf(),
            *final(self) == (Terminal {
                columns,
                screen_lines,
                cursor: clamp_pos(old(self).cursor, screen_lines, columns),
                vi_cursor: clamp_pos(old(self).vi_cursor, screen_lines, columns),
                ..*old(self)
            }),
    {
        self.columns = columns;
        self.screen_lines = screen_lines;
        let c = self.cursor;
        self.cursor = Pos {
            row: clamp_row(c.row, screen_lines),
            col: if c.col < columns { c.col } else { columns - 1 },
        };
        let v = self.vi_cursor;
        self.vi_cursor = Pos {
            row: clamp_row(v.row, screen_lines),
            col: if v.col < columns { v.col } else { columns - 1 },
        };
    }

    pub fn vi_motion(&mut self, motion: ViMotion)
        requires
            old(self).wf(),
        ensures
            final(self).wf(),
            *final(self) == (Terminal {
                vi_cursor: vi_moved(
                    old(self).vi_cursor,
                    motion,
                    old(self).screen_lines,
                    old(self).columns,
                ),
                ..*old(self)
            }),
    {
        let p = self.vi_cursor;
        let lines = self.screen_lines;
        let columns = self.columns;
        self.vi_cursor = match motion {
            ViMotion::Up => if p.row > 0 { Pos { row: (p.row - 1) as i32, ..p } } else { p },
            ViMotion::Down => if (p.row as i64) + 1 < lines as i64 { Pos { row: (p.row + 1) as i32, ..p } } else { p },
            ViMotion::Left => if p.col > 0 { Pos { col: p.col - 1, ..p } } else { p },
            ViMotion::Right => if p.col < columns - 1 { Pos { col: p.col + 1, ..p } } else { p },
            ViMotion::First => Pos { col: 0, ..p },
            ViMotion::Last => Pos { col: columns - 1, ..p },
        };
    }
}

} // verus!
