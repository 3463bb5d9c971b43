use vstd::prelude::*;

use crate::input::{has_all, contains, ElementState, Modifiers, Pos, MODE_SGR_MOUSE, MODE_UTF8_MOUSE};

verus! {

pub const ESC: u8 = 0x1b;

/// Decimal ASCII digits of `n`, most significant first.
pub open spec fn decimal(n: nat) -> Seq<u8>
    decreases n,
{
    if n < 10 {
        seq![(48 + n) as u8]
    } else {
        decimal(n / 10).push((48 + n % 10) as u8)
    }
}

/// Appends the decimal digits of `n` to `buf`.
pub fn push_decimal(buf: &mut Vec<u8>, n: u64)
    ensures
        final(buf)@ == old(buf)@ + decimal(n as nat),
    decreases n,
{
    if n < 10 {
        buf.push((48 + n) as u8);
    } else {
        push_decimal(buf, n / 10);
        buf.push((48 + n % 10) as u8);
    }
    assert(final(buf)@ =~= old(buf)@ + decimal(n as nat));
}

/// Value added to a button code for the held modifiers.
pub open spec fn modifier_value(mods: Modifiers) -> u8 {
    ((if mods.shift { 4int } else { 0 }) + (if mods.alt { 8int } else { 0 }) + (if mods.ctrl {
        16int
    } else {
        0
    })) as u8
}

pub fn modifier_code(mods: Modifiers) -> (r: u8)
    ensures
        r == modifier_value(mods),
        r <= 28,
{
    let mut m: u8 = 0;
    if mods.shift() {
        m = m + 4;
    }
    if mods.alt() {
        m = m + 8;
    }
    if mods.ctrl() {
        m = m + 16;
    }
    m
}

/// `ESC[<{code};{col+1};{row+1}M` on press, with a final `m` on release.
pub open spec fn sgr_bytes(pos: Pos, code: u8, state: ElementState) -> Seq<u8> {
    seq![ESC, 0x5b, 0x3c] + decimal(code as nat) + seq![0x3b] + decimal((pos.col + 1) as nat)
        + seq![0x3b] + decimal((pos.row + 1) as nat) + seq![
        if state == ElementState::Pressed { 0x4d } else { 0x6d },
    ]
}

/// The SGR extended report; coordinates are unbounded.
pub fn sgr_mouse_report(pos: Pos, code: u8, state: ElementState) -> (r: Vec<u8>)
    requires
        pos.row >= 0,
        pos.col < usize::MAX,
    ensures
        r@ == sgr_bytes(pos, code, state),
{
    let mut msg: Vec<u8> = vec![ESC, 0x5b, 0x3c];
    push_decimal(&mut msg, code as u64);
    msg.push(0x3b);
    push_decimal(&mut msg, (pos.col + 1) as u64);
    msg.push(0x3b);
    push_decimal(&mut msg, (pos.row as u64) + 1);
    let c: u8 = match state {
        ElementState::Pressed => 0x4d,
        ElementState::Released => 0x6d,
    };
    msg.push(c);
    assert(msg@ =~= sgr_bytes(pos, code, state));
    msg
}

/// Largest coordinate (exclusive) that the legacy encoding can carry.
pub open spec fn legacy_limit(utf8: bool) -> int {
    if utf8 { 2015 } else { 223 }
}

/// Bytes for one coordinate of the legacy encoding.
pub open spec fn legacy_coord(c: int, utf8: bool) -> Seq<u8> {
    if utf8 && c >= 95 {
        seq![(0xc0 + (33 + c) / 64) as u8, (0x80 + (33 + c) % 64) as u8]
    } else {
        seq![(33 + c) as u8]
    }
}

/// `ESC[M{32+code}{col}{row}`.
pub open spec fn legacy_bytes(pos: Pos, code: u8, utf8: bool) -> Seq<u8> {
    seq![ESC, 0x5b, 0x4d, (32 + code) as u8] + legacy_coord(pos.col as int, utf8)
        + legacy_coord(pos.row as int, utf8)
}

fn push_legacy_coord(buf: &mut Vec<u8>, c: usize, utf8: bool)
    requires
        c < legacy_limit(utf8),
    ensures
        final(buf)@ == old(buf)@ + legacy_coord(c as int, utf8),
{
    if utf8 && c >= 95 {
        let v = 33 + c;
        buf.push((0xc0 + v / 64) as u8);
        buf.push((0x80 + v % 64) as u8);
    } else {
        buf.push((33 + c) as u8);
    }
    assert(final(buf)@ =~= old(buf)@ + legacy_coord(c as int, utf8));
}

/// The legacy report, or `None` when a coordinate is beyond what it can carry.
pub fn normal_mouse_report(pos: Pos, code: u8, utf8: bool) -> (r: Option<Vec<u8>>)
    requires
        pos.row >= 0,
        code <= 223,
    ensures
        r is None <==> (pos.row >= legacy_limit(utf8) || pos.col >= legacy_limit(utf8)),
        r is Some ==> r->0@ == legacy_bytes(pos, code, utf8),
{
    let max_point: usize = if utf8 { 2015 } else { 223 };
    if pos.row as usize >= max_point || pos.col >= max_point {
        return None;
    }
    let mut msg: Vec<u8> = vec![ESC, 0x5b, 0x4d, 32 + code];
    push_legacy_coord(&mut msg, pos.col, utf8);
    push_legacy_coord(&mut msg, pos.row as usize, utf8);
    assert(msg@ =~= legacy_bytes(pos, code, utf8));
    Some(msg)
}

/// What a mouse button event reports, given the terminal mode: nothing for a
/// position above the viewport, else the SGR or the legacy encoding.
pub open spec fn mouse_report_spec(
    pos: Pos,
    button: u8,
    state: ElementState,
    mods: Modifiers,
    mode: u32,
) -> Option<Seq<u8>> {
    let m = modifier_value(mods);
    if pos.row < 0 {
        None
    } else if has_all(mode, MODE_SGR_MOUSE) {
        Some(sgr_bytes(pos, (button + m) as u8, state))
    } else {
        let code = if state == ElementState::Released { (3 + m) as u8 } else { (button + m) as u8 };
        let utf8 = has_all(mode, MODE_UTF8_MOUSE);
        if pos.row >= legacy_limit(utf8) || pos.col >= legacy_limit(utf8) {
            None
        } else {
            Some(legacy_bytes(pos, code, utf8))
        }
    }
}

/// Encodes a mouse button report; `button` is the logical button id.
pub fn encode_mouse_report(
    pos: Pos,
    button: u8,
    state: ElementState,
    mods: Modifiers,
    mode: u32,
) -> (r: Option<Vec<u8>>)
    requires
        button <= 195,
        pos.col < usize::MAX,
    ensures
        r matches Some(v) ==> mouse_report_spec(pos, button, state, mods, mode) == Some(v@),
        r is None ==> mouse_report_spec(pos, button, state, mods, mode) is None,
{
    if pos.row < 0 {
        return None;
    }
    let m = modifier_code(mods);
    if contains(mode, MODE_SGR_MOUSE) {
        Some(sgr_mouse_report(pos, button + m, state))
    } else {
        let code = match state {
            ElementState::Released => 3 + m,
            ElementState::Pressed => button + m,
        };
        normal_mouse_report(pos, code, contains(mode, MODE_UTF8_MOUSE))
    }
}

} // verus!
