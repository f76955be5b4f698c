use vstd::prelude::*;

verus! {

/// The fixed-point unit: the integer `ONE` stands for the real number 1.
pub const ONE: i64 = 65536;

/// Width of the rendered grid, in pixels.
pub const WIDTH: usize = 256;

/// Height of the rendered grid, in pixels.
pub const HEIGHT: usize = 256;

/// Number of pixels of the rendered grid.
pub const PIXELS: usize = 65536;

/// A rational number `num / den`, with `den > 0`.
#[derive(Clone, Copy, Debug, PartialEq, Eq, Structural)]
pub struct Fraction {
    pub num: i64,
    pub den: i64,
}

/// Numerator of the domain scale `1 + rooms / 10` over the denominator `10 * ONE`,
/// for `rooms` in fixed point.
pub open spec fn scale_num(rooms: int) -> int {
    10 * ONE + rooms
}

pub open spec fn scale_den() -> int {
    10 * ONE
}

/// The domain scale `1 + rooms / 10`, for `rooms` given in fixed point.
pub fn domain_scale(rooms: i32) -> (s: Fraction)
    ensures
        s.num == scale_num(rooms as int),
        s.den == scale_den(),
        rooms == 0 ==> s.num == s.den,
{
    Fraction { num: 10 * ONE + rooms as i64, den: 10 * ONE }
}

/// Numerator of the sampling coordinate of grid index `i`,
/// `(i / WIDTH - 1/2) * scale`, over the denominator `coord_den()`.
pub open spec fn coord_num(i: int, rooms: int) -> int {
    (2 * i - WIDTH) * scale_num(rooms)
}

pub open spec fn coord_den() -> int {
    2 * WIDTH * scale_den()
}

/// The sampling coordinate `(i / WIDTH - 1/2) * (1 + rooms / 10)` of grid index
/// `i` along either axis (the grid is square), for `rooms` in fixed point.
pub fn sample_coordinate(i: u32, rooms: i32) -> (c: Fraction)
    requires
        i < WIDTH,
    ensures
        c.num == coord_num(i as int, rooms as int),
        c.den == coord_den(),
{
    let s = domain_scale(rooms);
    let k: i64 = 2 * i as i64 - WIDTH as i64;
    assert(-256 * 0x1_0000_0000 <= k * s.num <= 256 * 0x1_0000_0000) by (nonlinear_arith)
        requires
            -256 <= k <= 256,
            -0x1_0000_0000 <= s.num <= 0x1_0000_0000,
    ;
    Fraction { num: k * s.num, den: 2 * WIDTH as i64 * s.den }
}

/// The domain scale is exactly 1 at `rooms = 0` and grows strictly with
/// `rooms`; while the scale is not negative, a larger `rooms` moves every
/// sampling coordinate away from the centre, or leaves it there.
pub proof fn lemma_scale_grows(r1: int, r2: int, i: int)
    requires
        r1 < r2,
    ensures
        scale_num(0) == scale_den(),
        scale_num(r1) < scale_num(r2),
        scale_num(r1) >= 0 && 2 * i >= WIDTH ==> 0 <= coord_num(i, r1) <= coord_num(i, r2),
        scale_num(r1) >= 0 && 2 * i <= WIDTH ==> coord_num(i, r2) <= coord_num(i, r1) <= 0,
{
    let k = 2 * i - WIDTH;
    let a = scale_num(r1);
    let b = scale_num(r2);
    if a >= 0 && k >= 0 {
        assert(0 <= k * a <= k * b) by (nonlinear_arith)
            requires
                0 <= a < b,
                k >= 0,
        ;
    }
    if a >= 0 && k <= 0 {
        assert(k * b <= k * a <= 0) by (nonlinear_arith)
            requires
                0 <= a < b,
                k <= 0,
        ;
    }
}

} // verus!
