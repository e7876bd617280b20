use vstd::prelude::*;

use crate::gesture::abs;

verus! {

/// How far one scroll step moves.
pub const SCROLL_STEP: i32 = 10;

/// A button of the emulated pointer.
#[derive(Debug, Clone, Copy, PartialEq, Eq, Structural)]
pub enum PointerButton {
    Left,
    Middle,
    Right,
}

impl PointerButton {
    /// The glyph shown on a key that sends this button.
    pub fn glyph(&self) -> (r: &'static str)
        ensures
            *self == PointerButton::Left ==> r@ == "\u{2032}"@,
            *self == PointerButton::Middle ==> r@ == "\u{2033}"@,
            *self == PointerButton::Right ==> r@ == "\u{2034}"@,
    {
        match self {
            PointerButton::Left => "\u{2032}",
            PointerButton::Middle => "\u{2033}",
            PointerButton::Right => "\u{2034}",
        }
    }
}

/// A request for the emulated pointer.
#[derive(Debug, Clone, Copy, PartialEq, Eq, Structural)]
pub enum PointerMessage {
    ScrollUp,
    ScrollDown,
    ScrollLeft,
    ScrollRight,
    /// Relative motion.
    Move(i32, i32),
    Press(PointerButton),
    Release(PointerButton),
}

/// One call on the virtual pointer device.
#[derive(Debug, Clone, Copy, PartialEq, Eq, Structural)]
pub enum DeviceCall {
    /// Horizontal scroll; positive is to the right.
    ScrollX(i32),
    /// Vertical scroll; positive is up.
    ScrollY(i32),
    /// Relative motion.
    Move(i32, i32),
    Press(PointerButton),
    Release(PointerButton),
}

/// The device call that carries out a pointer request.
pub open spec fn device_call_of(m: PointerMessage) -> DeviceCall {
    match m {
        PointerMessage::ScrollUp => DeviceCall::ScrollY(SCROLL_STEP),
        PointerMessage::ScrollDown => DeviceCall::ScrollY((-SCROLL_STEP) as i32),
        PointerMessage::ScrollLeft => DeviceCall::ScrollX((-SCROLL_STEP) as i32),
        PointerMessage::ScrollRight => DeviceCall::ScrollX(SCROLL_STEP),
        PointerMessage::Move(x, y) => DeviceCall::Move(x, y),
        PointerMessage::Press(b) => DeviceCall::Press(b),
        PointerMessage::Release(b) => DeviceCall::Release(b),
    }
}

impl PointerMessage {
    /// The device call that carries out this request: one scroll step per
    /// scroll request, motion and buttons passed on as they are.
    pub fn device_call(&self) -> (r: DeviceCall)
        ensures
            r == device_call_of(*self),
    {
        match *self {
            PointerMessage::ScrollUp => DeviceCall::ScrollY(SCROLL_STEP),
            PointerMessage::ScrollDown => DeviceCall::ScrollY(-SCROLL_STEP),
            PointerMessage::ScrollLeft => DeviceCall::ScrollX(-SCROLL_STEP),
            PointerMessage::ScrollRight => DeviceCall::ScrollX(SCROLL_STEP),
            PointerMessage::Move(x, y) => DeviceCall::Move(x, y),
            PointerMessage::Press(b) => DeviceCall::Press(b),
            PointerMessage::Release(b) => DeviceCall::Release(b),
        }
    }
}


/// Pointer motion is the finger's motion times this, times the cube root
/// of how far the finger is from where it started.
pub const POINTER_SCALE: u128 = 2;

/// `c` is the integer cube root of `n`.
pub open spec fn is_cube_root(c: int, n: int) -> bool {
    0 <= c && c * c * c <= n && n < (c + 1) * (c + 1) * (c + 1)
}

/// The integer cube root of `n >= 0`.
pub open spec fn cube_root(n: int) -> int {
    choose|c: int| is_cube_root(c, n)
}

/// The integer nearest to the real cube root of `n >= 0`, halves up.
pub open spec fn nearest_cube_root(n: int) -> int {
    let r = cube_root(n);
    if (2 * r + 1) * (2 * r + 1) * (2 * r + 1) <= 8 * n {
        r + 1
    } else {
        r
    }
}

/// `v`, clamped to the range of `i32`.
pub open spec fn saturate(v: int) -> i32 {
    if v > i32::MAX {
        i32::MAX
    } else if v < i32::MIN {
        i32::MIN
    } else {
        v as i32
    }
}

/// The pointer motion for a finger motion `delta` at distance `offset`
/// from the start: `delta * POINTER_SCALE * |offset|^(1/3)` rounded to the
/// nearest integer, halves away from zero, and clamped to `i32`. Its size
/// is the cube root of `(POINTER_SCALE * |delta|)^3 * |offset|`, so it is
/// computed exactly in integers. Fine near the start, coarse far from it.
pub open spec fn scaled_motion_of(delta: int, offset: int) -> i32 {
    let s = POINTER_SCALE * abs(delta);
    let size = nearest_cube_root(s * s * s * abs(offset));
    saturate(
        if delta < 0 {
            -size
        } else {
            size
        },
    )
}

proof fn lemma_cube_monotonic(a: int, b: int)
    requires
        0 <= a <= b,
    ensures
        a * a * a <= b * b * b,
{
    assert(a * a * a <= b * b * b) by (nonlinear_arith)
        requires
            0 <= a <= b,
    ;
}

proof fn lemma_cube_strictly_monotonic(a: int, b: int)
    requires
        0 <= a < b,
    ensures
        a * a * a < b * b * b,
{
    assert(a * a * a < b * b * b) by (nonlinear_arith)
        requires
            0 <= a < b,
    ;
}

proof fn lemma_cube_root_unique(a: int, b: int, n: int)
    requires
        is_cube_root(a, n),
        is_cube_root(b, n),
    ensures
        a == b,
{
    if a < b {
        lemma_cube_monotonic(a + 1, b);
    } else if b < a {
        lemma_cube_monotonic(b + 1, a);
    }
}

proof fn lemma_cube_root_exists(n: int)
    requires
        n >= 0,
    ensures
        is_cube_root(cube_root(n), n),
    decreases n,
{
    if n == 0 {
        assert(is_cube_root(0, 0));
    } else {
        lemma_cube_root_exists(n - 1);
        let c = cube_root(n - 1);
        if (c + 1) * (c + 1) * (c + 1) <= n {
            lemma_cube_strictly_monotonic(c + 1, c + 2);
            assert(is_cube_root(c + 1, n));
        } else {
            assert(is_cube_root(c, n));
        }
    }
}

/// The cube root of a cube times at least one is at least the base.
proof fn lemma_cube_root_at_least(b: int, m: int)
    requires
        b >= 0,
        m >= 1,
    ensures
        cube_root(b * b * b * m) >= b,
{
    let n = b * b * b * m;
    assert(b * b * b <= n) by (nonlinear_arith)
        requires
            b >= 0,
            m >= 1,
            n == b * b * b * m,
    ;
    lemma_cube_root_exists(n);
    let r = cube_root(n);
    if r < b {
        lemma_cube_monotonic(r + 1, b);
    }
}

/// A bound above every cube root that `scaled_motion` takes.
const CUBE_LIMIT: u128 = 0x400_0000_0000;

/// The integer cube root, by bisection.
fn integer_cube_root(n: u128) -> (c: u128)
    requires
        n < CUBE_LIMIT * CUBE_LIMIT * CUBE_LIMIT,
    ensures
        c as int == cube_root(n as int),
        c < CUBE_LIMIT,
{
    let mut lo: u128 = 0;
    let mut hi: u128 = CUBE_LIMIT;
    while hi - lo > 1
        invariant
            lo < hi <= CUBE_LIMIT,
            lo * lo * lo <= n,
            n < hi * hi * hi,
        decreases hi - lo,
    {
        let mid: u128 = lo + (hi - lo) / 2;
        proof {
            lemma_cube_monotonic(mid as int, CUBE_LIMIT as int);
            assert(mid * mid <= CUBE_LIMIT * CUBE_LIMIT) by (nonlinear_arith)
                requires
                    mid <= CUBE_LIMIT,
            ;
        }
        if mid * mid * mid <= n {
            lo = mid;
        } else {
            hi = mid;
        }
    }
    proof {
        assert(is_cube_root(lo as int, n as int));
        lemma_cube_root_exists(n as int);
        lemma_cube_root_unique(cube_root(n as int), lo as int, n as int);
    }
    lo
}

/// The pointer motion for a finger motion `delta` at distance `offset`
/// from where the finger started.
pub fn scaled_motion(delta: i64, offset: i32) -> (r: i32)
    ensures
        r == scaled_motion_of(delta as int, offset as int),
{
    let abs_delta: u128 = if delta < 0 { (-(delta as i128)) as u128 } else { delta as u128 };
    let abs_offset: u128 = if offset < 0 { (-(offset as i64)) as u128 } else { offset as u128 };
    let ghost s = POINTER_SCALE * abs_delta;
    let ghost n = s * s * s * abs_offset;
    if abs_delta == 0 || abs_offset == 0 {
        proof {
            assert(n == 0) by (nonlinear_arith)
                requires
                    n == s * s * s * abs_offset,
                    s == POINTER_SCALE * abs_delta,
                    abs_delta == 0 || abs_offset == 0,
            ;
            assert(is_cube_root(0, 0));
            lemma_cube_root_exists(0);
            lemma_cube_root_unique(cube_root(0), 0, 0);
        }
        return 0;
    }
    if abs_delta >= 0x4000_0000 {
        // The motion is at least `POINTER_SCALE * |delta|`, beyond `i32`.
        proof {
            lemma_cube_root_at_least(s, abs_offset as int);
        }
        return if delta < 0 { i32::MIN } else { i32::MAX };
    }
    let scaled: u128 = POINTER_SCALE * abs_delta;
    proof {
        assert(scaled * scaled < 0x4000_0000_0000_0000) by (nonlinear_arith)
            requires
                scaled < 0x8000_0000,
        ;
        assert(scaled * scaled * scaled < 0x2000_0000_0000_0000_0000_0000) by (nonlinear_arith)
            requires
                scaled < 0x8000_0000,
                scaled * scaled < 0x4000_0000_0000_0000,
        ;
        assert(scaled * scaled * scaled * abs_offset < 0x1000_0000_0000_0000_0000_0000_0000_0000)
            by (nonlinear_arith)
            requires
                scaled < 0x8000_0000,
                abs_offset <= 0x8000_0000,
        ;
        assert(CUBE_LIMIT * CUBE_LIMIT * CUBE_LIMIT == 0x4000_0000_0000_0000_0000_0000_0000_0000)
            by (nonlinear_arith);
    }
    let cubed: u128 = scaled * scaled * scaled * abs_offset;
    let root = integer_cube_root(cubed);
    proof {
        lemma_cube_root_exists(cubed as int);
        let r = root as int;
        assert((2 * r + 1) * (2 * r + 1) * (2 * r + 1) < 0x1_0000_0000_0000_0000_0000_0000_0000_0000)
            by (nonlinear_arith)
            requires
                0 <= r < CUBE_LIMIT,
                r * r * r < 0x1000_0000_0000_0000_0000_0000_0000_0000,
        ;
    }
    let twice: u128 = 2 * root + 1;
    assert(twice * twice < 0x100_0000_0000_0000_0000_0000) by (nonlinear_arith)
        requires
            twice <= 2 * CUBE_LIMIT,
    ;
    let size: u128 = if twice * twice * twice <= 8 * cubed { root + 1 } else { root };
    if size > i32::MAX as u128 {
        if delta < 0 { i32::MIN } else { i32::MAX }
    } else if delta < 0 {
        -(size as i32)
    } else {
        size as i32
    }
}

} // verus!
