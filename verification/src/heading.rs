//! Integer square roots and the scaling of a vector to unit length.

use vstd::prelude::*;
use crate::geometry::{magnitude, sign, Vec2, Vec2View};
use crate::units::VEL_ONE;

verus! {

/// Whether `r` is the square root of `n`, rounded down.
pub open spec fn is_floor_sqrt(n: int, r: int) -> bool {
    0 <= r && r * r <= n < (r + 1) * (r + 1)
}

/// The square root of `n`, rounded down.
pub open spec fn floor_sqrt(n: int) -> int {
    choose|r: int| is_floor_sqrt(n, r)
}

/// A number has at most one rounded-down square root.
pub proof fn lemma_floor_sqrt_unique(n: int, r: int, q: int)
    requires
        is_floor_sqrt(n, r),
        is_floor_sqrt(n, q),
    ensures
        r == q,
{
    assert(r <= q) by (nonlinear_arith)
        requires
            0 <= r,
            0 <= q,
            r * r <= n,
            n < (q + 1) * (q + 1),
    ;
    assert(q <= r) by (nonlinear_arith)
        requires
            0 <= r,
            0 <= q,
            q * q <= n,
            n < (r + 1) * (r + 1),
    ;
}

/// Every number from 0 on has a rounded-down square root.
pub proof fn lemma_floor_sqrt_exists(n: nat)
    ensures
        is_floor_sqrt(n as int, floor_sqrt(n as int)),
    decreases n,
{
    if n == 0 {
        assert(is_floor_sqrt(0, 0));
    } else {
        lemma_floor_sqrt_exists((n - 1) as nat);
        let r = floor_sqrt(n - 1);
        if (r + 1) * (r + 1) <= n {
            assert((r + 1) * (r + 1) < (r + 2) * (r + 2)) by (nonlinear_arith)
                requires
                    0 <= r,
            ;
            assert(is_floor_sqrt(n as int, r + 1));
        } else {
            assert(is_floor_sqrt(n as int, r));
        }
    }
}

/// The rounded-down square root of a sum of two squares is at least the
/// magnitude of either number, and positive unless both are zero.
pub proof fn lemma_length_bounds(x: int, y: int, len: int)
    requires
        is_floor_sqrt(x * x + y * y, len),
    ensures
        magnitude(x) <= len,
        magnitude(y) <= len,
        x != 0 || y != 0 ==> len > 0,
{
    let mx = magnitude(x);
    let my = magnitude(y);
    assert(mx * mx == x * x && my * my == y * y) by (nonlinear_arith)
        requires
            mx == x || mx == -x,
            my == y || my == -y,
    ;
    assert(mx <= len && my <= len) by (nonlinear_arith)
        requires
            0 <= len,
            0 <= mx,
            0 <= my,
            mx * mx + my * my < (len + 1) * (len + 1),
    ;
}

/// The square root of `n`, rounded down.
pub fn isqrt(n: u64) -> (r: u64)
    ensures
        is_floor_sqrt(n as int, r as int),
        r == floor_sqrt(n as int),
{
    let mut lo: u64 = 0;
    let mut hi: u64 = 0x1_0000_0000;
    assert(n < hi * hi) by (nonlinear_arith)
        requires
            hi == 0x1_0000_0000,
            n <= u64::MAX,
    ;
    while hi - lo > 1
        invariant
            lo < hi <= 0x1_0000_0000,
            lo * lo <= n < hi * hi,
        decreases hi - lo,
    {
        let mid: u64 = lo + (hi - lo) / 2;
        assert(mid * mid <= 0xFFFF_FFFF * 0xFFFF_FFFF) by (nonlinear_arith)
            requires
                0 <= mid <= 0xFFFF_FFFF,
        ;
        if mid * mid <= n {
            lo = mid;
        } else {
            hi = mid;
        }
    }
    proof {
        assert(is_floor_sqrt(n as int, lo as int));
        lemma_floor_sqrt_unique(n as int, lo as int, floor_sqrt(n as int));
    }
    lo
}

/// A component `c` of a vector of length `len`, scaled so that the vector has
/// unit length: `c / len` in thousandths, rounded towards zero.
pub open spec fn scaled(c: int, len: int) -> int {
    sign(c) * ((magnitude(c) * VEL_ONE) / len)
}

impl Vec2View {
    /// The length of the vector, rounded down.
    pub open spec fn length(self) -> int {
        floor_sqrt(self.x * self.x + self.y * self.y)
    }

    /// The vector scaled to unit length: each component divided by the
    /// rounded-down length, in thousandths.
    pub open spec fn normalized(self) -> Vec2View {
        Vec2View { x: scaled(self.x, self.length()), y: scaled(self.y, self.length()) }
    }

    /// Whether neither component exceeds 1 in magnitude.
    pub open spec fn within_unit(self) -> bool {
        magnitude(self.x) <= VEL_ONE && magnitude(self.y) <= VEL_ONE
    }
}

/// The magnitude of a component.
fn size(c: i32) -> (r: u64)
    ensures
        r == magnitude(c as int),
        r <= 0x8000_0000,
{
    if c >= 0 {
        c as u64
    } else {
        (-(c as i64)) as u64
    }
}

/// A component scaled to unit length.
fn scale(c: i32, len: u64) -> (r: i32)
    requires
        0 < len,
        magnitude(c as int) <= len,
    ensures
        r == scaled(c as int, len as int),
        magnitude(r as int) <= VEL_ONE,
{
    let m: u64 = size(c);
    let one: u64 = VEL_ONE as u64;
    let q: u64 = m * one / len;
    assert(q <= one) by (nonlinear_arith)
        requires
            q == (m * one) / (len as int),
            0 <= m <= len,
            0 < len,
            0 <= one,
    ;
    if c > 0 {
        q as i32
    } else if c < 0 {
        -(q as i32)
    } else {
        0
    }
}

impl Vec2 {
    /// The vector scaled to unit length. The zero vector has no direction and
    /// is excluded.
    pub fn normalize(self) -> (r: Vec2)
        requires
            self.x != 0 || self.y != 0,
        ensures
            r@ == self@.normalized(),
            r@.within_unit(),
    {
        let mx: u64 = size(self.x);
        let my: u64 = size(self.y);
        assert(mx * mx <= 0x8000_0000 * 0x8000_0000 && my * my <= 0x8000_0000 * 0x8000_0000)
            by (nonlinear_arith)
            requires
                0 <= mx <= 0x8000_0000,
                0 <= my <= 0x8000_0000,
        ;
        assert(mx * mx == self.x * self.x && my * my == self.y * self.y) by (nonlinear_arith)
            requires
                mx == self.x || mx == -self.x,
                my == self.y || my == -self.y,
        ;
        let len: u64 = isqrt(mx * mx + my * my);
        proof {
            lemma_length_bounds(self.x as int, self.y as int, len as int);
        }
        Vec2 { x: scale(self.x, len), y: scale(self.y, len) }
    }
}

/// A vector at least 1 long has, scaled to unit length, a squared length
/// within half a percent of 1: rounding the length down stretches the result
/// by less than a thousandth, and rounding each component towards zero
/// shortens it by less than a thousandth.
pub proof fn lemma_normalized_is_unit(v: Vec2View)
    requires
        v.length() >= VEL_ONE,
    ensures
        ({
            let r = v.normalized();
            995_998 < r.x * r.x + r.y * r.y < 1_002_001
        }),
{
    let len = v.length();
    let n = v.x * v.x + v.y * v.y;
    let mx = magnitude(v.x);
    let my = magnitude(v.y);
    assert(mx * mx == v.x * v.x && my * my == v.y * v.y) by (nonlinear_arith)
        requires
            mx == v.x || mx == -v.x,
            my == v.y || my == -v.y,
    ;
    assert(n >= 0) by (nonlinear_arith)
        requires
            n == mx * mx + my * my,
    ;
    lemma_floor_sqrt_exists(n as nat);
    lemma_length_bounds(v.x, v.y, len);
    let a = mx * 1000;
    let b = my * 1000;
    let qx = a / len;
    let qy = b / len;
    let r = v.normalized();
    let sx = sign(v.x);
    let sy = sign(v.y);
    assert(sx * qx == qx || sx * qx == -qx || sx * qx == 0) by (nonlinear_arith)
        requires
            -1 <= sx <= 1,
    ;
    assert(sy * qy == qy || sy * qy == -qy || sy * qy == 0) by (nonlinear_arith)
        requires
            -1 <= sy <= 1,
    ;
    assert(sx == 0 ==> a == 0 && qx == 0);
    assert(sy == 0 ==> b == 0 && qy == 0);
    assert(sx != 0 && sx * qx == 0 ==> qx == 0) by (nonlinear_arith);
    assert(sy != 0 && sy * qy == 0 ==> qy == 0) by (nonlinear_arith);
    assert(r.x * r.x == qx * qx && r.y * r.y == qy * qy) by (nonlinear_arith)
        requires
            r.x == qx || r.x == -qx,
            r.y == qy || r.y == -qy,
    ;
    assert(0 <= qx && qx * len <= a < (qx + 1) * len && qx <= 1000) by (nonlinear_arith)
        requires
            qx == a / len,
            len > 0,
            0 <= a <= 1000 * len,
    ;
    assert(0 <= qy && qy * len <= b < (qy + 1) * len && qy <= 1000) by (nonlinear_arith)
        requires
            qy == b / len,
            len > 0,
            0 <= b <= 1000 * len,
    ;
    let s = qx * qx + qy * qy;
    assert((qx * len) * (qx * len) <= a * a && (qy * len) * (qy * len) <= b * b
        && a * a < ((qx + 1) * len) * ((qx + 1) * len) && b * b < ((qy + 1) * len) * ((qy + 1)
        * len)) by (nonlinear_arith)
        requires
            0 <= qx * len <= a < (qx + 1) * len,
            0 <= qy * len <= b < (qy + 1) * len,
    ;
    assert(a * a + b * b == 1_000_000 * n) by (nonlinear_arith)
        requires
            a == mx * 1000,
            b == my * 1000,
            n == mx * mx + my * my,
    ;
    assert(s * (len * len) == (qx * len) * (qx * len) + (qy * len) * (qy * len))
        by (nonlinear_arith)
        requires
            s == qx * qx + qy * qy,
    ;
    assert(((qx + 1) * (qx + 1) + (qy + 1) * (qy + 1)) * (len * len) == ((qx + 1) * len) * ((qx
        + 1) * len) + ((qy + 1) * len) * ((qy + 1) * len)) by (nonlinear_arith);
    assert(1_000_000 * ((len + 1) * (len + 1)) <= 1_002_001 * (len * len)) by (nonlinear_arith)
        requires
            len >= 1000,
    ;
    assert(s < 1_002_001) by (nonlinear_arith)
        requires
            s * (len * len) <= 1_000_000 * n,
            n < (len + 1) * (len + 1),
            1_000_000 * ((len + 1) * (len + 1)) <= 1_002_001 * (len * len),
            len >= 1000,
    ;
    assert((qx + 1) * (qx + 1) + (qy + 1) * (qy + 1) > 1_000_000) by (nonlinear_arith)
        requires
            ((qx + 1) * (qx + 1) + (qy + 1) * (qy + 1)) * (len * len) > 1_000_000 * n,
            n >= len * len,
            len >= 1000,
    ;
    assert((qx + 1) * (qx + 1) + (qy + 1) * (qy + 1) == s + 2 * qx + 2 * qy + 2)
        by (nonlinear_arith)
        requires
            s == qx * qx + qy * qy,
    ;
}

} // verus!
