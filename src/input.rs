use vstd::prelude::*;

verus! {

/// Terminal mode flags, as reported by the grid.
pub const MODE_VI: u32 = 0x1;
pub const MODE_ALT_SCREEN: u32 = 0x2;
pub const MODE_ALTERNATE_SCROLL: u32 = 0x4;
pub const MODE_BRACKETED_PASTE: u32 = 0x8;
pub const MODE_SGR_MOUSE: u32 = 0x10;
pub const MODE_UTF8_MOUSE: u32 = 0x20;
pub const MODE_MOUSE_REPORT_CLICK: u32 = 0x40;
pub const MODE_MOUSE_DRAG: u32 = 0x80;
pub const MODE_MOUSE_MOTION: u32 = 0x100;
pub const MODE_APP_CURSOR: u32 = 0x200;
pub const MODE_APP_KEYPAD: u32 = 0x400;

/// Any of the mouse reporting modes.
pub const MODE_MOUSE_MODE: u32 = 0x1c0;

/// `true` iff every bit of `flags` is set in `mode`.
pub open spec fn has_all(mode: u32, flags: u32) -> bool {
    mode & flags == flags
}

/// `true` iff some bit of `flags` is set in `mode`.
pub open spec fn has_any(mode: u32, flags: u32) -> bool {
    mode & flags != 0
}

pub fn contains(mode: u32, flags: u32) -> (r: bool)
    ensures
        r == has_all(mode, flags),
{
    mode & flags == flags
}

pub fn intersects(mode: u32, flags: u32) -> (r: bool)
    ensures
        r == has_any(mode, flags),
{
    mode & flags != 0
}

/// Keyboard modifiers held while an input event arrives.
#[derive(Clone, Copy, Debug, PartialEq, Eq, Structural, Default)]
pub struct Modifiers {
    pub shift: bool,
    pub ctrl: bool,
    pub alt: bool,
    pub logo: bool,
}

impl Modifiers {
    pub fn shift(&self) -> (r: bool)
        ensures
            r == self.shift,
    {
        self.shift
    }

    pub fn ctrl(&self) -> (r: bool)
        ensures
            r == self.ctrl,
    {
        self.ctrl
    }

    pub fn alt(&self) -> (r: bool)
        ensures
            r == self.alt,
    {
        self.alt
    }
}

/// Whether a button or key went down or up.
#[derive(Clone, Copy, Debug, PartialEq, Eq, Structural)]
pub enum ElementState {
    Pressed,
    Released,
}

/// Which half of a cell the pointer is over.
#[derive(Clone, Copy, Debug, PartialEq, Eq, Structural)]
pub enum Side {
    Left,
    Right,
}

/// Click classification supplied by the event loop.
#[derive(Clone, Copy, Debug, PartialEq, Eq, Structural)]
pub enum ClickState {
    Idle,
    Click,
    DoubleClick,
    TripleClick,
}

/// A cell position: `row` is relative to the top of the viewport (negative
/// rows lie in the scrollback), `col` counts from the left edge.
#[derive(Clone, Copy, Debug, PartialEq, Eq, Structural)]
pub struct Pos {
    pub row: i32,
    pub col: usize,
}

impl Pos {
    pub fn new(row: i32, col: usize) -> (r: Pos)
        ensures
            r.row == row,
            r.col == col,
    {
        Pos { row, col }
    }
}

/// Lexicographic order on positions: by row, then by column.
pub open spec fn pos_le(a: Pos, b: Pos) -> bool {
    a.row < b.row || (a.row == b.row && a.col <= b.col)
}

pub fn pos_lte(a: Pos, b: Pos) -> (r: bool)
    ensures
        r == pos_le(a, b),
{
    a.row < b.row || (a.row == b.row && a.col <= b.col)
}

} // verus!
