//! Piecewise-linear interpolation of a duty-cycle percentage from a
//! temperature, over a breakpoint table with strictly increasing temperatures.

use vstd::prelude::*;

verus! {

/// A breakpoint row is `[temperature, duty]`.
/// A table is well formed when it has at least two rows, its temperatures
/// increase strictly, and its duties are percentages.
pub open spec fn curve_wf(c: Seq<[u8; 2]>) -> bool {
    &&& c.len() >= 2
    &&& forall|i: int, j: int|
        0 <= i < j < c.len() ==> #[trigger] c[i][0] < #[trigger] c[j][0]
    &&& forall|i: int| 0 <= i < c.len() ==> #[trigger] c[i][1] <= 100
}

/// Duties that never step down as temperature rises.
pub open spec fn curve_duties_monotone(c: Seq<[u8; 2]>) -> bool {
    forall|i: int, j: int|
        0 <= i <= j < c.len() ==> #[trigger] c[i][1] <= #[trigger] c[j][1]
}

/// Linear interpolation between breakpoints `l` and `h` at temperature `t`,
/// in integer arithmetic, truncating toward zero.
pub open spec fn lerp(l: [u8; 2], h: [u8; 2], t: int) -> int {
    (l[1] * (h[0] - t) + h[1] * (t - l[0])) / (h[0] - l[0])
}

/// The scan of the table from row `n` on: the first row whose temperature
/// strictly exceeds `t` closes the bracketing segment, and a temperature at or
/// beyond the last row yields 100.
pub open spec fn interp_from(c: Seq<[u8; 2]>, t: int, n: int) -> int
    recommends
        1 <= n <= c.len(),
    decreases c.len() - n,
{
    if n < 1 || n >= c.len() {
        100
    } else if c[n][0] > t {
        lerp(c[n - 1], c[n], t)
    } else {
        interp_from(c, t, n + 1)
    }
}

/// The duty percentage the interpolator assigns to temperature `t`.
pub open spec fn interp_spec(c: Seq<[u8; 2]>, t: int) -> int {
    interp_from(c, t, 1)
}

/// Rows whose temperature does not exceed `t` are skipped: the scan's value
/// is unchanged by starting it past them.
proof fn lemma_interp_from_skip(c: Seq<[u8; 2]>, t: int, n: int)
    requires
        1 <= n <= c.len(),
        forall|i: int| 1 <= i < n ==> #[trigger] c[i][0] <= t,
    ensures
        interp_from(c, t, 1) == interp_from(c, t, n),
    decreases n,
{
    if n > 1 {
        assert(c[n - 1][0] <= t);
        lemma_interp_from_skip(c, t, n - 1);
    }
}

/// Map a temperature to a duty percentage by scanning the breakpoint table in
/// increasing-temperature order and linearly interpolating between the two
/// rows that bracket it; at or beyond the last row the duty is 100.
pub fn interpolate_curve(approx_temp: u8, curves: &[[u8; 2]]) -> (r: u8)
    requires
        curve_wf(curves@),
        curves@[0][0] <= approx_temp,
    ensures
        r == interp_spec(curves@, approx_temp as int),
        r <= 100,
{
    let ghost t = approx_temp as int;
    let len: usize = curves.len();
    let mut n: usize = 0;
    while n < len
        invariant
            curve_wf(curves@),
            curves@[0][0] <= approx_temp,
            0 <= n <= len,
            len == curves@.len(),
            t == approx_temp as int,
            forall|i: int| 0 <= i < n ==> #[trigger] curves@[i][0] <= approx_temp,
        decreases len - n,
    {
        if curves[n][0] > approx_temp {
            let h_temp = curves[n][0];
            let h_duty = curves[n][1];
            let l_temp = curves[n - 1][0];
            let l_duty = curves[n - 1][1];
            assert(l_temp <= approx_temp);
            assert(l_temp < h_temp);
            assert(l_duty * (h_temp - approx_temp) <= 100 * (h_temp - approx_temp)
                && 0 <= l_duty * (h_temp - approx_temp)) by (nonlinear_arith)
                requires
                    l_duty <= 100,
                    approx_temp <= h_temp;
            assert(h_duty * (approx_temp - l_temp) <= 100 * (approx_temp - l_temp)
                && 0 <= h_duty * (approx_temp - l_temp)) by (nonlinear_arith)
                requires
                    h_duty <= 100,
                    l_temp <= approx_temp;
            let left: u16 = (l_duty as u16) * ((h_temp - approx_temp) as u16);
            let right: u16 = (h_duty as u16) * ((approx_temp - l_temp) as u16);
            let sum: u16 = left + right;
            let divisor: u16 = (h_temp - l_temp) as u16;
            let q: u16 = sum / divisor;
            proof {
                assert(100 * (h_temp - approx_temp) + 100 * (approx_temp - l_temp)
                    == 100 * (h_temp - l_temp)) by (nonlinear_arith);
                vstd::arithmetic::div_mod::lemma_div_is_ordered(
                    sum as int,
                    100 * (h_temp - l_temp),
                    divisor as int,
                );
                assert(100 * (h_temp - l_temp) / (divisor as int) == 100) by {
                    vstd::arithmetic::div_mod::lemma_div_by_multiple(100, divisor as int);
                    assert(100 * (h_temp - l_temp) == 100 * (divisor as int));
                }
                assert(q <= 100);
                assert(n >= 1) by {
                    assert(curves@[0][0] <= approx_temp);
                }
                lemma_interp_from_skip(curves@, t, n as int);
                assert(interp_from(curves@, t, n as int) == lerp(curves@[n as int - 1], curves@[n as int], t));
                assert(q == lerp(curves@[n as int - 1], curves@[n as int], t));
            }
            return q as u8;
        }
        n = n + 1;
    }
    proof {
        lemma_interp_from_skip(curves@, t, len as int);
    }
    100
}

/// At or above the last breakpoint's temperature the interpolator returns 100.
pub proof fn lemma_interp_above_last(c: Seq<[u8; 2]>, t: int)
    requires
        curve_wf(c),
        t >= c[c.len() - 1][0],
    ensures
        interp_spec(c, t) == 100,
{
    assert forall|i: int| 1 <= i < c.len() implies #[trigger] c[i][0] <= t by {
        if i < c.len() - 1 {
            assert(c[i][0] < c[c.len() - 1][0]);
        }
    }
    lemma_interp_from_skip(c, t, c.len() as int);
}

/// At the first breakpoint's temperature the interpolator returns the first
/// breakpoint's duty: the degenerate interpolation from the table's floor.
/// (The temperature argument is a `u8`, so with the compiled-in tables, whose
/// first row is at temperature 0, this covers every input at or below it.)
pub proof fn lemma_interp_at_first(c: Seq<[u8; 2]>, t: int)
    requires
        curve_wf(c),
        t == c[0][0],
    ensures
        interp_spec(c, t) == c[0][1],
{
    assert(c[0][0] < c[1][0]);
    assert(interp_spec(c, t) == lerp(c[0], c[1], t));
    let l = c[0];
    let h = c[1];
    let d = h[0] - l[0];
    assert(l[1] * (h[0] - t) + h[1] * (t - l[0]) == l[1] * d) by (nonlinear_arith)
        requires t == l[0] && d == h[0] - l[0];
    vstd::arithmetic::div_mod::lemma_div_by_multiple(l[1] as int, d);
}

/// Interpolating inside one segment is monotone in temperature when the
/// segment's duties do not step down.
proof fn lemma_lerp_mono(l: [u8; 2], h: [u8; 2], t1: int, t2: int)
    requires
        l[0] <= t1 <= t2 < h[0],
        l[1] <= h[1],
    ensures
        lerp(l, h, t1) <= lerp(l, h, t2),
{
    assert(l[1] * (h[0] - t1) + h[1] * (t1 - l[0]) <= l[1] * (h[0] - t2) + h[1] * (t2 - l[0])
        && 0 <= l[1] * (h[0] - t1) + h[1] * (t1 - l[0])) by (nonlinear_arith)
        requires l[0] <= t1 <= t2 < h[0] && l[1] <= h[1];
    vstd::arithmetic::div_mod::lemma_div_is_ordered(
        l[1] * (h[0] - t1) + h[1] * (t1 - l[0]),
        l[1] * (h[0] - t2) + h[1] * (t2 - l[0]),
        h[0] - l[0],
    );
}

/// Inside one segment the interpolated duty stays between the segment's two
/// duties.
proof fn lemma_lerp_bounds(l: [u8; 2], h: [u8; 2], t: int)
    requires
        l[0] <= t < h[0],
        l[1] <= h[1],
    ensures
        l[1] <= lerp(l, h, t) <= h[1],
{
    let d = h[0] - l[0];
    let num = l[1] * (h[0] - t) + h[1] * (t - l[0]);
    assert(l[1] * d <= num <= h[1] * d) by (nonlinear_arith)
        requires l[0] <= t < h[0] && l[1] <= h[1] && d == h[0] - l[0]
            && num == l[1] * (h[0] - t) + h[1] * (t - l[0]);
    vstd::arithmetic::div_mod::lemma_div_is_ordered(l[1] * d, num, d);
    vstd::arithmetic::div_mod::lemma_div_is_ordered(num, h[1] * d, d);
    vstd::arithmetic::div_mod::lemma_div_by_multiple(l[1] as int, d);
    vstd::arithmetic::div_mod::lemma_div_by_multiple(h[1] as int, d);
}

/// Once the scan has passed a row, everything it can still return is at least
/// that row's duty.
proof fn lemma_interp_from_lb(c: Seq<[u8; 2]>, t: int, m: int)
    requires
        curve_wf(c),
        curve_duties_monotone(c),
        1 <= m <= c.len(),
        c[m - 1][0] <= t,
    ensures
        interp_from(c, t, m) >= c[m - 1][1],
    decreases c.len() - m,
{
    if m >= c.len() {
        assert(c[m - 1][1] <= 100);
    } else if c[m][0] > t {
        assert(c[m - 1][1] <= c[m][1]);
        lemma_lerp_bounds(c[m - 1], c[m], t);
    } else {
        lemma_interp_from_lb(c, t, m + 1);
        assert(c[m - 1][1] <= c[m][1]);
    }
}

/// Monotonicity of the scan from row `n` on, for two temperatures that have
/// both passed row `n - 1`.
proof fn lemma_interp_from_mono(c: Seq<[u8; 2]>, t1: int, t2: int, n: int)
    requires
        curve_wf(c),
        curve_duties_monotone(c),
        1 <= n <= c.len(),
        t1 <= t2,
        c[n - 1][0] <= t1,
    ensures
        interp_from(c, t1, n) <= interp_from(c, t2, n),
    decreases c.len() - n,
{
    if n >= c.len() {
    } else if c[n][0] > t1 {
        if c[n][0] > t2 {
            assert(c[n - 1][1] <= c[n][1]);
            lemma_lerp_mono(c[n - 1], c[n], t1, t2);
        } else {
            assert(c[n - 1][1] <= c[n][1]);
            lemma_lerp_bounds(c[n - 1], c[n], t1);
            lemma_interp_from_lb(c, t2, n + 1);
        }
    } else {
        lemma_interp_from_mono(c, t1, t2, n + 1);
    }
}

/// The interpolator is monotonically non-decreasing in temperature over any
/// well-formed table whose duties are themselves non-decreasing. (With duties
/// that step down somewhere, the interpolation inside that segment steps down
/// with them, so the monotone-duty assumption cannot be dropped.)
pub proof fn lemma_interp_monotone(c: Seq<[u8; 2]>, t1: int, t2: int)
    requires
        curve_wf(c),
        curve_duties_monotone(c),
        c[0][0] <= t1 <= t2,
    ensures
        interp_spec(c, t1) <= interp_spec(c, t2),
{
    lemma_interp_from_mono(c, t1, t2, 1);
}

} // verus!
