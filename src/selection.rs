use vstd::prelude::*;

use crate::input::{pos_le, pos_lte, Pos, Side};

verus! {

/// Granularity of a selection.
#[derive(Clone, Copy, Debug, PartialEq, Eq, Structural)]
pub enum SelectionType {
    Simple,
    Block,
    Semantic,
    Lines,
}

/// One end of a selection: a cell and the half of it that was hit.
#[derive(Clone, Copy, Debug, PartialEq, Eq, Structural)]
pub struct Anchor {
    pub pos: Pos,
    pub side: Side,
}

/// A selection as the grid holds it: where it started and where it is now.
#[derive(Clone, Copy, Debug, PartialEq, Eq, Structural)]
pub struct Selection {
    pub ty: SelectionType,
    pub start: Anchor,
    pub end: Anchor,
}

/// The cells a selection covers, from `start` to `end` inclusive; a block
/// range covers the rectangle with these corners.
#[derive(Clone, Copy, Debug, PartialEq, Eq, Structural)]
pub struct SelectionRange {
    pub start: Pos,
    pub end: Pos,
    pub is_block: bool,
}

/// The two anchors of `s`, the earlier first.
pub open spec fn ordered(s: Selection) -> (Anchor, Anchor) {
    if pos_le(s.start.pos, s.end.pos) {
        (s.start, s.end)
    } else {
        (s.end, s.start)
    }
}

/// The cells that `s` covers on a grid `columns` wide, or `None` when a
/// simple selection has not left the side of the cell where it started. A
/// semantic range spans its anchors; widening it to word boundaries needs
/// the cell contents, which the grid holds and this range does not.
pub open spec fn range_of(s: Selection, columns: usize) -> Option<SelectionRange> {
    let (a, b) = ordered(s);
    match s.ty {
        SelectionType::Simple => if a == b {
            None
        } else {
            Some(SelectionRange { start: a.pos, end: b.pos, is_block: false })
        },
        SelectionType::Semantic => Some(SelectionRange { start: a.pos, end: b.pos, is_block: false }),
        SelectionType::Lines => Some(
            SelectionRange {
                start: Pos { row: a.pos.row, col: 0 },
                end: Pos { row: b.pos.row, col: (columns - 1) as usize },
                is_block: false,
            },
        ),
        SelectionType::Block => Some(
            SelectionRange {
                start: Pos {
                    row: a.pos.row,
                    col: if a.pos.col <= b.pos.col { a.pos.col } else { b.pos.col },
                },
                end: Pos {
                    row: b.pos.row,
                    col: if a.pos.col <= b.pos.col { b.pos.col } else { a.pos.col },
                },
                is_block: true,
            },
        ),
    }
}

/// `s` with both ends covering whole cells: the earlier end from its left
/// half, the later one to its right half.
pub open spec fn widened(s: Selection) -> Selection {
    if pos_le(s.start.pos, s.end.pos) {
        Selection {
            start: Anchor { side: Side::Left, ..s.start },
            end: Anchor { side: Side::Right, ..s.end },
            ..s
        }
    } else {
        Selection {
            start: Anchor { side: Side::Right, ..s.start },
            end: Anchor { side: Side::Left, ..s.end },
            ..s
        }
    }
}

/// An empty selection of type `ty` anchored at `pos`.
pub open spec fn fresh_selection(ty: SelectionType, pos: Pos, side: Side) -> Selection {
    Selection { ty, start: Anchor { pos, side }, end: Anchor { pos, side } }
}

impl Selection {
    /// An empty selection of type `ty` anchored at `pos`.
    pub fn new(ty: SelectionType, pos: Pos, side: Side) -> (r: Selection)
        ensures
            r == fresh_selection(ty, pos, side),
    {
        Selection { ty, start: Anchor { pos, side }, end: Anchor { pos, side } }
    }

    /// Moves the free end of the selection.
    pub fn update(&mut self, pos: Pos, side: Side)
        ensures
            *final(self) == (Selection { end: Anchor { pos, side }, ..*old(self) }),
    {
        self.end = Anchor { pos, side };
    }

    /// Widens both ends to whole cells.
    pub fn include_all(&mut self)
        ensures
            *final(self) == widened(*old(self)),
            ordered(*final(self)).0.side == Side::Left,
            ordered(*final(self)).1.side == Side::Right,
    {
        if pos_lte(self.start.pos, self.end.pos) {
            self.start.side = Side::Left;
            self.end.side = Side::Right;
        } else {
            self.start.side = Side::Right;
            self.end.side = Side::Left;
        }
    }

    pub fn to_range(&self, columns: usize) -> (r: Option<SelectionRange>)
        requires
            columns >= 1,
        ensures
            r == range_of(*self, columns),
    {
        let (a, b) = if pos_lte(self.start.pos, self.end.pos) {
            (self.start, self.end)
        } else {
            (self.end, self.start)
        };
        match self.ty {
            SelectionType::Simple => {
                if a == b {
                    None
                } else {
                    Some(SelectionRange { start: a.pos, end: b.pos, is_block: false })
                }
            },
            SelectionType::Semantic => Some(
                SelectionRange { start: a.pos, end: b.pos, is_block: false },
            ),
            SelectionType::Lines => Some(
                SelectionRange {
                    start: Pos { row: a.pos.row, col: 0 },
                    end: Pos { row: b.pos.row, col: columns - 1 },
                    is_block: false,
                },
            ),
            SelectionType::Block => {
                let (lo, hi) = if a.pos.col <= b.pos.col {
                    (a.pos.col, b.pos.col)
                } else {
                    (b.pos.col, a.pos.col)
                };
                Some(
                    SelectionRange {
                        start: Pos { row: a.pos.row, col: lo },
                        end: Pos { row: b.pos.row, col: hi },
                        is_block: true,
                    },
                )
            },
        }
    }
}

} // verus!
