use vstd::prelude::*;

use crate::input::{ClickState, Side};
use crate::report::ESC;

verus! {

/// Wheel movement, in pixels, not yet turned into lines or columns.
#[derive(Clone, Copy, Debug, PartialEq, Eq, Structural, Default)]
pub struct AccumulatedScroll {
    pub x: i64,
    pub y: i64,
}

impl AccumulatedScroll {
    pub open spec fn wf(&self) -> bool {
        &&& -ACCUMULATED_MAX <= self.x <= ACCUMULATED_MAX
        &&& -ACCUMULATED_MAX <= self.y <= ACCUMULATED_MAX
    }
}

/// Pointer state between events.
#[derive(Clone, Copy, Debug, PartialEq, Eq, Structural)]
pub struct Mouse {
    pub x: usize,
    pub y: usize,
    pub click_state: ClickState,
    pub square_side: Side,
    /// Factor applied to wheel movement over the scrollback.
    pub multiplier: i32,
}

/// Largest magnitude an accumulator holds between events.
pub const ACCUMULATED_MAX: i64 = 0xffff_ffff;

impl Mouse {
    pub fn new(multiplier: i32) -> (r: Mouse)
        ensures
            r.x == 0 && r.y == 0,
            r.click_state == ClickState::Idle,
            r.square_side == Side::Left,
            r.multiplier == multiplier,
    {
        Mouse {
            x: 0,
            y: 0,
            click_state: ClickState::Idle,
            square_side: Side::Left,
            multiplier,
        }
    }
}

/// Whole units of `unit` pixels in `total`, rounded toward zero.
pub open spec fn wheel_units(total: int, unit: int) -> int {
    if total >= 0 {
        total / unit
    } else {
        -((-total) / unit)
    }
}

/// What is left of `total` after its whole units are taken out.
pub open spec fn wheel_rest(total: int, unit: int) -> int {
    total - wheel_units(total, unit) * unit
}

/// Remainder of `v` by `m` with the sign of `v`.
pub open spec fn trunc_rem(v: int, m: int) -> int {
    if v >= 0 {
        v % m
    } else {
        -((-v) % m)
    }
}

/// Splits an accumulated amount into whole units and the rest.
pub fn wheel_step(total: i64, unit: u64) -> (r: (i64, i64))
    requires
        unit >= 1,
        total > i64::MIN,
    ensures
        r.0 == wheel_units(total as int, unit as int),
        r.1 == wheel_rest(total as int, unit as int),
{
    if total >= 0 {
        let t = total as u64;
        let n = t / unit;
        let rest = t % unit;
        assert(t == n * unit + rest && rest < unit && n <= t) by (nonlinear_arith)
            requires
                n == t / unit,
                rest == t % unit,
                unit >= 1,
        ;
        assert(wheel_units(total as int, unit as int) == n);
        assert(wheel_rest(total as int, unit as int) == rest);
        (n as i64, rest as i64)
    } else {
        let t = (-total) as u64;
        let n = t / unit;
        let rest = t % unit;
        assert(t == n * unit + rest && rest < unit && n <= t) by (nonlinear_arith)
            requires
                n == t / unit,
                rest == t % unit,
                unit >= 1,
        ;
        assert(wheel_units(total as int, unit as int) == -n);
        assert((-n) * unit == -(n * unit)) by (nonlinear_arith);
        assert(wheel_rest(total as int, unit as int) == -rest);
        (-(n as i64), -(rest as i64))
    }
}

/// `v` wrapped into `(-m, m)`, keeping its sign.
pub fn wrap(v: i64, m: u64) -> (r: i64)
    requires
        1 <= m <= 0xffff_ffff,
        v > i64::MIN,
    ensures
        r == trunc_rem(v as int, m as int),
        -(m as int) < r < m,
        (v >= 0 ==> 0 <= r <= v) && (v < 0 ==> v <= r <= 0),
{
    if v >= 0 {
        let r = (v as u64) % m;
        assert(r <= v) by (nonlinear_arith)
            requires
                r == (v as u64) % m,
                v >= 0,
                m >= 1,
        ;
        r as i64
    } else {
        let w = (-v) as u64;
        let r = w % m;
        assert(r <= w) by (nonlinear_arith)
            requires
                r == w % m,
                m >= 1,
        ;
        -(r as i64)
    }
}

/// A wheel event that leaves the accumulated amount under one unit scrolls
/// nothing and keeps all of it for the next event; otherwise exactly the
/// whole units crossed are scrolled, toward the sign of the amount, and what
/// is left is under one unit.
pub proof fn lemma_wheel_threshold(acc: int, delta: int, unit: int)
    requires
        unit >= 1,
    ensures
        -unit < acc + delta < unit ==> wheel_units(acc + delta, unit) == 0 && wheel_rest(
            acc + delta,
            unit,
        ) == acc + delta,
        wheel_units(acc + delta, unit) * unit + wheel_rest(acc + delta, unit) == acc + delta,
        -unit < wheel_rest(acc + delta, unit) < unit,
        forall|m: int| m >= unit && -unit < acc + delta < unit ==> #[trigger] trunc_rem(acc + delta, m) == acc + delta,
        acc + delta >= 0 ==> wheel_units(acc + delta, unit) >= 0 && wheel_units(acc + delta, unit)
            * unit <= acc + delta < (wheel_units(acc + delta, unit) + 1) * unit,
        acc + delta < 0 ==> wheel_units(acc + delta, unit) <= 0 && (wheel_units(acc + delta, unit)
            - 1) * unit < acc + delta <= wheel_units(acc + delta, unit) * unit,
{
    let t = acc + delta;
    if t >= 0 {
        let n = t / unit;
        assert(n * unit <= t < (n + 1) * unit && n >= 0 && (t < unit ==> n == 0)) by (nonlinear_arith)
            requires
                n == t / unit,
                unit >= 1,
                t >= 0,
        ;
        assert(wheel_units(t, unit) == n);
        assert((n + 1) * unit == n * unit + unit) by (nonlinear_arith);
        assert(0 * unit == 0);
        assert forall|m: int| m >= unit && t < unit implies trunc_rem(t, m) == t by {
            assert(t % m == t) by (nonlinear_arith)
                requires
                    0 <= t < m,
            ;
        }
    } else {
        let n = (-t) / unit;
        assert(n * unit <= -t < (n + 1) * unit && n >= 0 && (-t < unit ==> n == 0)) by (nonlinear_arith)
            requires
                n == (-t) / unit,
                unit >= 1,
                t < 0,
        ;
        assert(wheel_units(t, unit) == -n);
        assert((-n) * unit == -(n * unit)) by (nonlinear_arith);
        assert((-n - 1) * unit == -((n + 1) * unit)) by (nonlinear_arith);
        assert((n + 1) * unit == n * unit + unit) by (nonlinear_arith);
        assert(0 * unit == 0);
        assert forall|m: int| m >= unit && -unit < t implies trunc_rem(t, m) == t by {
            assert((-t) % m == -t) by (nonlinear_arith)
                requires
                    0 <= -t < m,
            ;
        }
    }
}

/// The bytes of `n` arrow-key presses in application-cursor form, `ESC O cmd`.
pub open spec fn arrow_keys(cmd: u8, n: nat) -> Seq<u8>
    decreases n,
{
    if n == 0 {
        seq![]
    } else {
        arrow_keys(cmd, (n - 1) as nat) + seq![ESC, 0x4f, cmd]
    }
}

pub fn push_arrow_keys(buf: &mut Vec<u8>, cmd: u8, n: u64)
    ensures
        final(buf)@ == old(buf)@ + arrow_keys(cmd, n as nat),
{
    let mut i: u64 = 0;
    while i < n
        invariant
            i <= n,
            buf@ == old(buf)@ + arrow_keys(cmd, i as nat),
        decreases n - i,
    {
        buf.push(ESC);
        buf.push(0x4f);
        buf.push(cmd);
        i = i + 1;
        assert(buf@ =~= old(buf)@ + arrow_keys(cmd, i as nat));
    }
}

} // verus!
