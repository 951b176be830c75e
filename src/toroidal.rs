//! Geometry on a torus whose axes wrap at `M` (`u32::MAX` or `u64::MAX`):
//! the coordinates `0` and `M` name the same position.

use vstd::prelude::*;

verus! {

/// Shortest arc between two positions on one axis that wraps at `m`.
pub open spec fn wrapped_delta(a: int, b: int, m: int) -> int {
    let d = if a > b { a - b } else { b - a };
    if d > m / 2 { m - d } else { d }
}

/// Squared wrap-around distance between `(x1, y1)` and `(x2, y2)`.
pub open spec fn torus_distance_squared(x1: int, y1: int, x2: int, y2: int, m: int) -> int {
    wrapped_delta(x1, x2, m) * wrapped_delta(x1, x2, m) + wrapped_delta(y1, y2, m)
        * wrapped_delta(y1, y2, m)
}

/// Squared wrap-around distance on the 32-bit torus.
pub open spec fn distance32(x1: int, y1: int, x2: int, y2: int) -> int {
    torus_distance_squared(x1, y1, x2, y2, u32::MAX as int)
}

/// Squared wrap-around distance between two points of the 32-bit torus.
pub fn toroidal_distance_squared(x1: u32, y1: u32, x2: u32, y2: u32) -> (r: u64)
    ensures
        r == distance32(x1 as int, y1 as int, x2 as int, y2 as int),
{
    let size: u32 = u32::MAX;
    let dx: u32 = if x1 > x2 { x1 - x2 } else { x2 - x1 };
    let dy: u32 = if y1 > y2 { y1 - y2 } else { y2 - y1 };
    let wrapped_dx: u32 = if dx > size / 2 { size - dx } else { dx };
    let wrapped_dy: u32 = if dy > size / 2 { size - dy } else { dy };
    let wx = wrapped_dx as u64;
    let wy = wrapped_dy as u64;
    assert(wx * wx <= 0x3fff_ffff_0000_0001) by (nonlinear_arith)
        requires wx <= 0x7fff_ffff;
    assert(wy * wy <= 0x3fff_ffff_0000_0001) by (nonlinear_arith)
        requires wy <= 0x7fff_ffff;
    wx * wx + wy * wy
}

/// Squared wrap-around distance on the 64-bit torus.
pub open spec fn distance64(x1: int, y1: int, x2: int, y2: int) -> int {
    torus_distance_squared(x1, y1, x2, y2, u64::MAX as int)
}

/// Squared wrap-around distance between two points of the 64-bit torus,
/// widened so that the sum of squares always fits.
pub fn toroidal_distance_squared_64(x1: u64, y1: u64, x2: u64, y2: u64) -> (r: u128)
    ensures
        r == distance64(x1 as int, y1 as int, x2 as int, y2 as int),
{
    let size: u64 = u64::MAX;
    let dx: u64 = if x1 > x2 { x1 - x2 } else { x2 - x1 };
    let dy: u64 = if y1 > y2 { y1 - y2 } else { y2 - y1 };
    let wrapped_dx: u64 = if dx > size / 2 { size - dx } else { dx };
    let wrapped_dy: u64 = if dy > size / 2 { size - dy } else { dy };
    let wx = wrapped_dx as u128;
    let wy = wrapped_dy as u128;
    assert(wx * wx <= 0x3fff_ffff_ffff_ffff_0000_0000_0000_0001) by (nonlinear_arith)
        requires wx <= 0x7fff_ffff_ffff_ffff;
    assert(wy * wy <= 0x3fff_ffff_ffff_ffff_0000_0000_0000_0001) by (nonlinear_arith)
        requires wy <= 0x7fff_ffff_ffff_ffff;
    wx * wx + wy * wy
}

/// Wrap-around midpoint on one axis of the torus that wraps at `m`: half the
/// shortest arc (truncated) is added to the smaller coordinate, and the sum is
/// reduced modulo `m`.
pub open spec fn midpoint_axis(a: int, b: int, m: int) -> int {
    let d = if a < b { b - a } else { a - b };
    let half = (if d <= m / 2 { d } else { m - d }) / 2;
    ((if a < b { a } else { b }) + half) % m
}

/// One axis of the 64-bit midpoint, computed without overflow.
fn midpoint_axis_64(a: u64, b: u64) -> (r: u64)
    ensures
        r == midpoint_axis(a as int, b as int, u64::MAX as int),
{
    let size: u64 = u64::MAX;
    let d: u64 = if a < b { b - a } else { a - b };
    let half: u64 = (if d <= size / 2 { d } else { size - d }) / 2;
    let low: u64 = if a < b { a } else { b };
    assert(low + half <= size);
    (low + half) % size
}

/// Wrap-around midpoint of `(x1, y1)` and `(x2, y2)` on the 64-bit torus.
/// Equal coordinates give that coordinate back, reduced modulo `u64::MAX`.
pub fn average_coordinates_toroidal(x1: u64, y1: u64, x2: u64, y2: u64) -> (r: (u64, u64))
    ensures
        r.0 == midpoint_axis(x1 as int, x2 as int, u64::MAX as int),
        r.1 == midpoint_axis(y1 as int, y2 as int, u64::MAX as int),
        x1 == x2 ==> r.0 == x1 % u64::MAX,
        y1 == y2 ==> r.1 == y1 % u64::MAX,
{
    (midpoint_axis_64(x1, x2), midpoint_axis_64(y1, y2))
}

/// Reduction of an integer to a `u32`, as wrapping addition leaves it.
pub open spec fn wrap32(v: int) -> int {
    v % 0x1_0000_0000
}

/// The two candidates for the point opposite `(x, y)` on the 32-bit torus:
/// `(x, y)` moved by half the modulus on each axis, and that point moved once
/// more by the full modulus.
pub open spec fn antipode_candidates(x: int, y: int) -> ((int, int), (int, int)) {
    let half = (u32::MAX / 2) as int;
    let c1 = (wrap32(x + half), wrap32(y + half));
    let c2 = (wrap32(c1.0 + u32::MAX), wrap32(c1.1 + u32::MAX));
    (c1, c2)
}

/// The candidate farther from `(x, y)`; the first one on a tie.
pub open spec fn antipode(x: int, y: int) -> (int, int) {
    let (c1, c2) = antipode_candidates(x, y);
    if distance32(c1.0, c1.1, x, y) >= distance32(c2.0, c2.1, x, y) {
        c1
    } else {
        c2
    }
}

/// The point of the 32-bit torus opposite `(x, y)`.
pub fn furthest_coordinates_toroidal(x: u32, y: u32) -> (r: (u32, u32))
    ensures
        r.0 as int == antipode(x as int, y as int).0,
        r.1 as int == antipode(x as int, y as int).1,
{
    let size: u32 = u32::MAX;
    let candidate_x_1 = x.wrapping_add(size / 2);
    let candidate_y_1 = y.wrapping_add(size / 2);
    let candidate_x_2 = candidate_x_1.wrapping_add(size);
    let candidate_y_2 = candidate_y_1.wrapping_add(size);
    let ghost cands = antipode_candidates(x as int, y as int);
    assert(candidate_x_1 as int == cands.0.0 && candidate_y_1 as int == cands.0.1);
    assert(candidate_x_2 as int == cands.1.0 && candidate_y_2 as int == cands.1.1);
    let dist1 = toroidal_distance_squared(candidate_x_1, candidate_y_1, x, y);
    let dist2 = toroidal_distance_squared(candidate_x_2, candidate_y_2, x, y);
    if dist1 >= dist2 {
        (candidate_x_1, candidate_y_1)
    } else {
        (candidate_x_2, candidate_y_2)
    }
}

/// The squared distance does not depend on which point comes first.
pub proof fn lemma_distance_symmetric(x1: int, y1: int, x2: int, y2: int, m: int)
    ensures
        torus_distance_squared(x1, y1, x2, y2, m) == torus_distance_squared(x2, y2, x1, y1, m),
{
}

proof fn lemma_axis_delta_zero(a: int, b: int, m: int)
    requires
        m > 0,
        0 <= a <= m,
        0 <= b <= m,
    ensures
        0 <= wrapped_delta(a, b, m),
        (wrapped_delta(a, b, m) == 0) <==> (a % m == b % m),
{
    vstd::arithmetic::div_mod::lemma_mod_self_0(m);
    if a < m {
        vstd::arithmetic::div_mod::lemma_small_mod(a as nat, m as nat);
    }
    if b < m {
        vstd::arithmetic::div_mod::lemma_small_mod(b as nat, m as nat);
    }
}

/// The squared distance is zero exactly when the two points name the same
/// position, `0` and the wrap value `m` being one position.
pub proof fn lemma_distance_zero_iff_same_position(x1: int, y1: int, x2: int, y2: int, m: int)
    requires
        m > 0,
        0 <= x1 <= m,
        0 <= y1 <= m,
        0 <= x2 <= m,
        0 <= y2 <= m,
    ensures
        (torus_distance_squared(x1, y1, x2, y2, m) == 0) <==> (x1 % m == x2 % m && y1 % m == y2
            % m),
{
    lemma_axis_delta_zero(x1, x2, m);
    lemma_axis_delta_zero(y1, y2, m);
    let a = wrapped_delta(x1, x2, m);
    let b = wrapped_delta(y1, y2, m);
    assert((a * a + b * b == 0) <==> (a == 0 && b == 0)) by (nonlinear_arith)
        requires a >= 0, b >= 0;
}

/// The midpoint of a point with itself is that point, reduced modulo the
/// wrap value: `M` itself comes back as `0`.
pub proof fn lemma_midpoint_of_equal_points(x: u64, y: u64)
    ensures
        midpoint_axis(x as int, x as int, u64::MAX as int) == x % u64::MAX,
        midpoint_axis(y as int, y as int, u64::MAX as int) == y % u64::MAX,
        midpoint_axis(u64::MAX as int, u64::MAX as int, u64::MAX as int) == 0,
{
}

} // verus!
