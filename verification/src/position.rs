//! Where a character stands along the window, to a fraction of a pixel.
//!
//! A position is a whole number of `2^-24` logical pixels. After every step it is rounded to 24
//! significant bits, ties to even, which is what single precision arithmetic does with it: every
//! position that a character can reach is such a whole number.

use vstd::prelude::*;
use vstd::arithmetic::div_mod::lemma_div_denominator;
use vstd::arithmetic::div_mod::lemma_fundamental_div_mod;
use vstd::arithmetic::div_mod::lemma_mod_multiples_basic;
use vstd::arithmetic::power2::lemma2_to64;
use vstd::arithmetic::power2::lemma_pow2_pos;
use vstd::arithmetic::power2::lemma_pow2_unfold;
use vstd::arithmetic::power2::pow2;

verus! {

/// Positions per logical pixel.
pub const ONE: i64 = 0x100_0000;

/// The sprite's edge, in logical pixels.
pub const SPRITE: i32 = 32;

/// The window's width, in logical pixels.
pub const WIN_LW: i32 = 184;

/// The window's height, in logical pixels: room for bubbles above the characters.
pub const WIN_LH: i32 = 72;

/// The sprite's top, in logical pixels.
pub const BASE_OY: i32 = 38;

/// The rightmost position: the sprite touches the window's right edge.
pub const MAX_X: i64 = 2_550_136_832;

/// The farthest right end and the longest step that are reckoned with.
pub const FAR: i64 = 0x2000_0000_0000_0000;

/// The distance between neighbours of `n` among the numbers with 24 significant bits: the smallest
/// power of two that leaves fewer than `2^24` steps below `n`.
pub open spec fn grain(n: nat) -> nat
    decreases n,
{
    if n < ONE {
        1
    } else {
        2 * grain(n / 2)
    }
}

/// The number with 24 significant bits nearest to `n`, the even one of two equally near.
pub open spec fn rounded(n: nat) -> nat {
    let g = grain(n);
    let q = n / g;
    let r = n % g;
    if 2 * r < g || (2 * r == g && q % 2 == 0) {
        q * g
    } else {
        (q + 1) * g
    }
}

/// `n` has at most 24 significant bits.
pub open spec fn is_single(n: nat) -> bool {
    n % grain(n) == 0
}

/// A character's position and direction after a step of length `speed`: at an edge of its range,
/// which ends at `max_x`, it stops and turns round.
pub open spec fn glided(x: int, dir: int, max_x: int, speed: int) -> (int, int) {
    let raw = x + dir * speed;
    if raw <= 0 {
        (0, 1)
    } else if rounded(raw as nat) >= max_x {
        (max_x, -1)
    } else {
        (rounded(raw as nat) as int, dir)
    }
}

/// The device column of position `x` at scale `u`: the product rounded to 24 significant bits,
/// then cut to a whole number.
pub open spec fn device_column(x: int, u: int) -> int {
    rounded((x * u) as nat) as int / ONE as int
}

proof fn lemma_grain(n: nat)
    ensures
        grain(n) >= 1,
        n < ONE * grain(n),
        n >= ONE ==> n >= 0x80_0000 * grain(n),
        n < ONE ==> grain(n) == 1,
    decreases n,
{
    if n >= ONE {
        lemma_grain(n / 2);
    }
}

/// `n` rounded to 24 significant bits, ties to even.
pub fn round_single(n: u64) -> (r: u64)
    requires
        n < 0x8000_0000_0000_0000,
    ensures
        r == rounded(n as nat),
{
    let mut g: u64 = 1;
    while n / g >= 0x100_0000
        invariant
            1 <= g,
            g == 1 || n / g >= 0x80_0000,
            n < 0x8000_0000_0000_0000,
            grain(n as nat) == g * grain((n / g) as nat),
        decreases n / g,
    {
        assert(g <= n / 0x100_0000) by (nonlinear_arith)
            requires
                n / g >= 0x100_0000,
                g >= 1,
        ;
        let ghost m = (n / g) as nat;
        assert((n as int) / (2 * g) == m as int / 2) by {
            lemma_div_denominator(n as int, g as int, 2);
            assert(g * 2 == 2 * g);
        }
        assert(grain(m) == 2 * grain(m / 2));
        assert(g * grain(m) == (2 * g) * grain(m / 2)) by (nonlinear_arith)
            requires
                grain(m) == 2 * grain(m / 2),
        ;
        g = 2 * g;
    }
    assert(g * grain((n / g) as nat) == g) by (nonlinear_arith)
        requires
            grain((n / g) as nat) == 1,
    ;
    let q: u64 = n / g;
    let r: u64 = n % g;
    proof {
        lemma_fundamental_div_mod(n as int, g as int);
        assert((q + 1) * g == q * g + g) by (nonlinear_arith);
        assert(q * g >= 0) by (nonlinear_arith)
            requires
                q >= 0,
                g >= 0,
        ;
        assert(q * g + g <= 2 * n + 1) by (nonlinear_arith)
            requires
                n == g * q + r,
                0 <= r < g,
                g == 1 || q >= 1,
                q < 0x100_0000,
        ;
    }
    if r < g - r || (r == g - r && q % 2 == 0) {
        q * g
    } else {
        (q + 1) * g
    }
}

/// One step of length `speed` in direction `dir`, in a range that ends at `max_x`.
pub fn glide(x: i64, dir: i32, max_x: i64, speed: i64) -> (r: (i64, i32))
    requires
        0 <= x <= max_x <= FAR,
        dir == 1 || dir == -1,
        0 <= speed <= FAR,
    ensures
        (r.0 as int, r.1 as int) == glided(x as int, dir as int, max_x as int, speed as int),
        0 <= r.0 <= max_x,
        r.1 == 1 || r.1 == -1,
{
    let raw: i64 = if dir == 1 {
        x + speed
    } else {
        x - speed
    };
    assert(raw == x + dir * speed) by (nonlinear_arith)
        requires
            dir == 1 && raw == x + speed || dir == -1 && raw == x - speed,
    ;
    if raw <= 0 {
        return (0, 1);
    }
    proof {
        lemma_rounded_near(raw as nat);
        lemma_grain(raw as nat);
    }
    let p: u64 = round_single(raw as u64);
    if p >= max_x as u64 {
        (max_x, -1)
    } else {
        (p as i64, dir)
    }
}

/// The device column of position `x` at scale `u`.
pub fn scale_column(x: i64, u: i32) -> (col: i32)
    requires
        0 <= x <= MAX_X,
        1 <= u,
        WIN_LW * u <= i32::MAX,
    ensures
        col == device_column(x as int, u as int),
        0 <= col <= WIN_LW * u,
{
    assert(0 <= x * u <= MAX_X * u) by (nonlinear_arith)
        requires
            0 <= x <= MAX_X,
            1 <= u,
    ;
    let n: u64 = x as u64 * u as u64;
    proof {
        lemma_rounded_near(n as nat);
        lemma_grain(n as nat);
    }
    let p: u64 = round_single(n);
    (p / 0x100_0000) as i32
}

/// Rounding moves a number by at most half the distance between its neighbours.
pub proof fn lemma_rounded_near(n: nat)
    ensures
        2 * rounded(n) <= 2 * n + grain(n),
        2 * rounded(n) + grain(n) >= 2 * n,
{
    lemma_grain(n);
    let g = grain(n) as int;
    let q = n as int / g;
    lemma_fundamental_div_mod(n as int, g);
    assert((q + 1) * g == q * g + g) by (nonlinear_arith);
    assert(q * g == g * q) by (nonlinear_arith);
}

proof fn lemma_multiple(k: int, a: int, b: int)
    requires
        b > 0,
        a % b == 0,
    ensures
        (k * a) % b == 0,
{
    lemma_fundamental_div_mod(a, b);
    assert(k * a == (k * (a / b)) * b) by (nonlinear_arith)
        requires
            a == b * (a / b),
    ;
    lemma_mod_multiples_basic(k * (a / b), b);
}

proof fn lemma_doubled(a: int, b: int)
    requires
        b > 0,
        a % b == 0,
    ensures
        (2 * a) % (2 * b) == 0,
{
    lemma_fundamental_div_mod(a, b);
    assert(2 * a == (a / b) * (2 * b)) by (nonlinear_arith)
        requires
            a == b * (a / b),
    ;
    lemma_mod_multiples_basic(a / b, 2 * b);
}

/// Where the numbers with 24 significant bits lie `grain(n)` apart, so lie the multiples of
/// `grain(m)` for every `m` below.
proof fn lemma_grain_divides(n: nat, m: nat)
    requires
        m < ONE * grain(n),
    ensures
        grain(n) % grain(m) == 0,
    decreases n,
{
    lemma_grain(n);
    lemma_grain(m);
    if m >= ONE {
        lemma_grain_divides(n / 2, m / 2);
        lemma_grain(m / 2);
        lemma_doubled(grain(n / 2) as int, grain(m / 2) as int);
    }
}

/// A rounded number has at most 24 significant bits.
pub proof fn law_rounding_gives_singles(n: nat)
    ensures
        is_single(rounded(n)),
{
    lemma_grain(n);
    let g = grain(n) as int;
    let q = n as int / g;
    lemma_fundamental_div_mod(n as int, g);
    assert(q < ONE) by (nonlinear_arith)
        requires
            n == g * q + n as int % g,
            0 <= n as int % g < g,
            n < ONE * g,
    ;
    assert(q >= 0) by (nonlinear_arith)
        requires
            q == n as int / g,
            g > 0,
            n >= 0,
    ;
    let k = if rounded(n) == q * g {
        q
    } else {
        q + 1
    };
    let m = rounded(n);
    lemma_grain(m);
    if k < ONE {
        assert(m < ONE * g) by (nonlinear_arith)
            requires
                m == k * g,
                k < ONE,
                g > 0,
        ;
        lemma_grain_divides(n, m);
        lemma_multiple(k, g, grain(m) as int);
    } else {
        assert(m == 0x80_0000 * (2 * g));
        assert(m / 2 == 0x80_0000 * g);
        lemma_grain(m / 2);
        lemma_grain_divides(n, m / 2);
        lemma_doubled(g, grain(m / 2) as int);
        lemma_multiple(0x80_0000, 2 * g, grain(m) as int);
    }
}

/// A number that already has at most 24 significant bits is left alone.
pub proof fn law_rounding_keeps_singles(n: nat)
    requires
        is_single(n),
    ensures
        rounded(n) == n,
{
    lemma_grain(n);
    lemma_fundamental_div_mod(n as int, grain(n) as int);
    assert(n as int / grain(n) as int * grain(n) as int == grain(n) as int * (n as int / grain(
        n,
    ) as int)) by (nonlinear_arith);
}

/// Rounding does not carry a number past one with at most 24 significant bits.
pub proof fn law_rounding_does_not_pass_singles(n: nat, m: nat)
    requires
        is_single(m),
    ensures
        n <= m ==> rounded(n) <= m,
        m <= n ==> m <= rounded(n),
{
    lemma_grain(n);
    lemma_grain(m);
    let g = grain(n) as int;
    let q = n as int / g;
    lemma_fundamental_div_mod(n as int, g);
    assert(q * g == g * q) by (nonlinear_arith);
    assert((q + 1) * g == q * g + g) by (nonlinear_arith);
    if n < m {
        assert(ONE * grain(m) > n);
        lemma_grain_divides(m, n);
        lemma_fundamental_div_mod(m as int, grain(m) as int);
        assert(grain(m) as int * (m as int / grain(m) as int) == (m as int / grain(m) as int)
            * grain(m) as int) by (nonlinear_arith);
        lemma_multiple(m as int / grain(m) as int, grain(m) as int, g);
        lemma_fundamental_div_mod(m as int, g);
        let p = m as int / g;
        assert(p >= q + 1) by (nonlinear_arith)
            requires
                m == g * p,
                m > g * q,
                g > 0,
        ;
        assert(p * g >= (q + 1) * g) by (nonlinear_arith)
            requires
                p >= q + 1,
                g > 0,
        ;
        assert(p * g == g * p) by (nonlinear_arith);
    } else if m == n {
        law_rounding_keeps_singles(n);
    } else {
        // Every number between the multiple of `g` below `n` and `n` has the grain `g` or a
        // smaller one that `m` would have to be a multiple of.
        if m > q * g {
            assert(m < ONE * g);
            lemma_grain_divides(n, m);
            if g > 1 {
                assert(q >= 0x80_0000) by (nonlinear_arith)
                    requires
                        n == g * q + n as int % g,
                        0 <= n as int % g < g,
                        n >= 0x80_0000 * g,
                ;
                assert(q * g >= 0x80_0000 * g) by (nonlinear_arith)
                    requires
                        q >= 0x80_0000,
                        g > 0,
                ;
                lemma_same_grain(m, n);
                lemma_fundamental_div_mod(m as int, g);
                let p = m as int / g;
                assert(p > q) by (nonlinear_arith)
                    requires
                        m == g * p,
                        m > g * q,
                        g > 0,
                ;
                assert(p < q + 1) by (nonlinear_arith)
                    requires
                        m == g * p,
                        m < g * q + g,
                        g > 0,
                ;
            }
        }
    }
}

/// Two numbers in the same binade have the same grain.
proof fn lemma_same_grain(m: nat, n: nat)
    requires
        m <= n,
        n >= ONE,
        m >= 0x80_0000 * grain(n),
    ensures
        grain(m) == grain(n),
    decreases n,
{
    lemma_grain(n);
    assert(grain(n) == 2 * grain(n / 2));
    lemma_grain(n / 2);
    assert(m >= ONE * grain(n / 2));
    if n / 2 >= ONE {
        assert(m / 2 >= 0x80_0000 * grain(n / 2));
        lemma_same_grain(m / 2, n / 2);
    } else {
        assert(m / 2 < ONE);
    }
}

/// A step leaves a character inside its range, facing one way or the other, and at a position that
/// a single precision number can hold. Where it has come to an end of the range it faces back.
pub proof fn law_steps_stay_in_range(x: int, dir: int, max_x: int, speed: int)
    requires
        0 <= x <= max_x,
        0 < max_x,
        is_single(max_x as nat),
        dir == 1 || dir == -1,
        0 <= speed,
    ensures
        ({
            let (x1, dir1) = glided(x, dir, max_x, speed);
            &&& 0 <= x1 <= max_x
            &&& dir1 == 1 || dir1 == -1
            &&& is_single(x1 as nat)
            &&& x1 == 0 && x1 != x ==> dir1 == 1
            &&& x1 == max_x && x1 != x ==> dir1 == -1
        }),
{
    let raw = x + dir * speed;
    if raw > 0 {
        law_rounding_gives_singles(raw as nat);
        assert(1nat % grain(1) == 0);
        law_rounding_does_not_pass_singles(raw as nat, 1);
    }
    assert(0nat % grain(0) == 0);
}

/// At every scale up to the largest whole number of columns with 24 bits, a sprite at a position in
/// range lies wholly inside the window.
pub proof fn law_sprite_stays_in_window(x: int, u: int)
    requires
        0 <= x <= MAX_X,
        1 <= u,
        (WIN_LW - SPRITE) * u < ONE,
    ensures
        0 <= device_column(x, u),
        device_column(x, u) + SPRITE * u <= WIN_LW * u,
{
    let n = (x * u) as nat;
    let m = (152 * u * ONE) as nat;
    assert(0 <= x * u <= MAX_X * u) by (nonlinear_arith)
        requires
            0 <= x <= MAX_X,
            1 <= u,
    ;
    lemma_whole_pixels_are_singles((152 * u) as nat);
    law_rounding_does_not_pass_singles(n, m);
}

/// A whole number of pixels below `2^24` has at most 24 significant bits.
pub proof fn lemma_whole_pixels_are_singles(k: nat)
    requires
        k < ONE,
    ensures
        is_single(k * ONE as nat),
{
    let m = k * ONE as nat;
    lemma_grain(m);
    lemma2_to64();
    assert(pow2(24) == 0x100_0000);
    assert(m < ONE * pow2(24)) by (nonlinear_arith)
        requires
            m == k * ONE as nat,
            k < ONE,
            pow2(24) == ONE,
    ;
    lemma_grain_at_most(m, 24);
    lemma_multiple(k as int, ONE as int, grain(m) as int);
}

/// Below `2^(24 + bits)` the grain divides `2^bits`.
proof fn lemma_grain_at_most(n: nat, bits: nat)
    requires
        n < ONE * pow2(bits),
    ensures
        pow2(bits) % grain(n) == 0,
    decreases bits,
{
    lemma_grain(n);
    if n >= ONE {
        lemma2_to64();
        lemma_pow2_unfold(bits);
        lemma_grain_at_most(n / 2, (bits - 1) as nat);
        lemma_grain(n / 2);
        lemma_doubled(pow2((bits - 1) as nat) as int, grain(n / 2) as int);
    }
}

/// No number with at most 24 significant bits lies between the two neighbours of `n` among them.
proof fn lemma_neighbours(n: nat, m: nat)
    requires
        is_single(m),
    ensures
        m <= n ==> m <= n / grain(n) * grain(n),
        n < m ==> (n / grain(n) + 1) * grain(n) <= m,
{
    lemma_grain(n);
    lemma_grain(m);
    let g = grain(n) as int;
    let q = n as int / g;
    lemma_fundamental_div_mod(n as int, g);
    assert(q * g == g * q) by (nonlinear_arith);
    assert((q + 1) * g == q * g + g) by (nonlinear_arith);
    assert(0 <= q) by (nonlinear_arith)
        requires
            n == g * q + n as int % g,
            0 <= n as int % g < g,
            0 <= n,
    ;
    if m <= n && m > q * g {
        assert(m < ONE * g);
        if g > 1 {
            assert(q >= 0x80_0000) by (nonlinear_arith)
                requires
                    n == g * q + n as int % g,
                    0 <= n as int % g < g,
                    n >= 0x80_0000 * g,
            ;
            assert(q * g >= 0x80_0000 * g) by (nonlinear_arith)
                requires
                    q >= 0x80_0000,
                    g > 0,
            ;
            lemma_same_grain(m, n);
            lemma_fundamental_div_mod(m as int, g);
            let p = m as int / g;
            assert(p > q) by (nonlinear_arith)
                requires
                    m == g * p,
                    m > g * q,
                    g > 0,
            ;
            assert(p < q + 1) by (nonlinear_arith)
                requires
                    m == g * p,
                    m < g * q + g,
                    g > 0,
            ;
        }
    }
    if n < m {
        assert(ONE * grain(m) > n);
        lemma_grain_divides(m, n);
        lemma_fundamental_div_mod(m as int, grain(m) as int);
        assert(grain(m) as int * (m as int / grain(m) as int) == (m as int / grain(m) as int)
            * grain(m) as int) by (nonlinear_arith);
        lemma_multiple(m as int / grain(m) as int, grain(m) as int, g);
        lemma_fundamental_div_mod(m as int, g);
        let p = m as int / g;
        assert(p >= q + 1) by (nonlinear_arith)
            requires
                m == g * p,
                m > g * q,
                g > 0,
        ;
        assert(p * g >= (q + 1) * g) by (nonlinear_arith)
            requires
                p >= q + 1,
                g > 0,
        ;
        assert(p * g == g * p) by (nonlinear_arith);
    }
}

/// How far two numbers are apart.
pub open spec fn gap(a: int, b: int) -> int {
    if a >= b {
        a - b
    } else {
        b - a
    }
}

/// A whole number below `2^24`, doubled any number of times, has at most 24 significant bits.
pub proof fn law_singles_are_24_bits_and_a_shift(a: nat, k: nat)
    requires
        a < 0x100_0000,
    ensures
        is_single(a * pow2(k)),
{
    let m = a * pow2(k);
    lemma_pow2_pos(k);
    assert(m < ONE * pow2(k)) by (nonlinear_arith)
        requires
            m == a * pow2(k),
            a < ONE,
            pow2(k) > 0,
    ;
    lemma_grain(m);
    lemma_grain_at_most(m, k);
    lemma_multiple(a as int, pow2(k) as int, grain(m) as int);
}

/// Rounding gives the nearest number with at most 24 significant bits: no other is nearer.
pub proof fn law_rounding_is_to_the_nearest(n: nat, m: nat)
    requires
        is_single(m),
    ensures
        gap(rounded(n) as int, n as int) <= gap(m as int, n as int),
{
    lemma_grain(n);
    lemma_fundamental_div_mod(n as int, grain(n) as int);
    let g = grain(n) as int;
    let q = n as int / g;
    assert(q * g == g * q) by (nonlinear_arith);
    assert((q + 1) * g == q * g + g) by (nonlinear_arith);
    lemma_neighbours(n, m);
}

/// A step goes as far as the speed says, to the nearest position that can be held, unless it comes
/// to an end of the range. In the middle of the range the direction stays.
pub proof fn law_steps_cover_their_distance(x: int, dir: int, max_x: int, speed: int, m: nat)
    requires
        dir == 1 || dir == -1,
        0 < x + dir * speed,
        is_single(m),
    ensures
        ({
            let raw = x + dir * speed;
            let (x1, dir1) = glided(x, dir, max_x, speed);
            x1 < max_x ==> {
                &&& dir1 == dir
                &&& is_single(x1 as nat)
                &&& gap(x1, raw) <= gap(m as int, raw)
            }
        }),
        max_x <= x + dir * speed && is_single(max_x as nat) && 0 < max_x ==> glided(
            x,
            dir,
            max_x,
            speed,
        ) == (max_x, -1int),
{
    let raw = (x + dir * speed) as nat;
    law_rounding_is_to_the_nearest(raw, m);
    law_rounding_gives_singles(raw);
    if 0 < max_x && is_single(max_x as nat) {
        law_rounding_does_not_pass_singles(raw, max_x as nat);
    }
}

/// A step that would go past the left end stops there, facing right.
pub proof fn law_steps_stop_at_the_left_end(x: int, dir: int, max_x: int, speed: int)
    requires
        x + dir * speed <= 0,
    ensures
        glided(x, dir, max_x, speed) == (0int, 1int),
{
}

/// On a whole pixel a character's device column is that pixel times the scale.
pub proof fn law_columns_of_whole_pixels(k: nat, u: int)
    requires
        1 <= u,
        k * u < ONE,
    ensures
        device_column(k * ONE, u) == k * u,
{
    let n = (k * ONE) * u;
    assert((k * ONE) * u == (k * u) * ONE) by (nonlinear_arith);
    assert(0 <= k * u) by (nonlinear_arith)
        requires
            0 <= k,
            1 <= u,
    ;
    lemma_whole_pixels_are_singles((k * u) as nat);
    law_rounding_keeps_singles(n as nat);
}

/// A character's device column grows with its position: the column of a position between two whole
/// pixels lies between the columns of those.
pub proof fn law_columns_keep_order(x: int, k: nat, u: int)
    requires
        1 <= u,
        0 <= x,
        k * u < ONE,
    ensures
        x <= k * ONE ==> device_column(x, u) <= k * u,
        k * ONE <= x ==> k * u <= device_column(x, u),
{
    assert((k * ONE) * u == (k * u) * ONE) by (nonlinear_arith);
    assert(0 <= k * u) by (nonlinear_arith)
        requires
            0 <= k,
            1 <= u,
    ;
    lemma_whole_pixels_are_singles((k * u) as nat);
    let m = ((k * u) * ONE) as nat;
    assert(x <= k * ONE ==> x * u <= (k * ONE) * u) by (nonlinear_arith)
        requires
            1 <= u,
    ;
    assert(k * ONE <= x ==> (k * ONE) * u <= x * u) by (nonlinear_arith)
        requires
            1 <= u,
    ;
    assert(0 <= x * u) by (nonlinear_arith)
        requires
            0 <= x,
            1 <= u,
    ;
    law_rounding_does_not_pass_singles((x * u) as nat, m);
}

/// A position is scaled before it is cut to a whole column: the column never passes a whole number
/// of pixels that the scaled position does not pass, and nothing but the fraction is lost of a scaled
/// position that can be held.
pub proof fn law_columns_are_scaled_positions(x: int, u: int, k: nat)
    requires
        0 <= x,
        1 <= u,
        k < ONE,
    ensures
        x * u <= k * ONE ==> device_column(x, u) <= k,
        k * ONE <= x * u ==> k <= device_column(x, u),
        is_single((x * u) as nat) ==> device_column(x, u) * ONE <= x * u < (device_column(x, u) + 1)
            * ONE,
{
    let n = (x * u) as nat;
    let m = k * ONE as nat;
    assert(0 <= x * u) by (nonlinear_arith)
        requires
            0 <= x,
            1 <= u,
    ;
    lemma_whole_pixels_are_singles(k);
    law_rounding_does_not_pass_singles(n, m);
    if is_single(n) {
        law_rounding_keeps_singles(n);
    }
}

/// Halfway between two neighbours rounding goes to the even one.
pub proof fn law_ties_go_to_even(n: nat)
    requires
        2 * (n % grain(n)) == grain(n),
    ensures
        rounded(n) % (2 * grain(n)) == 0,
        gap(rounded(n) as int, n as int) * 2 == grain(n),
{
    lemma_grain(n);
    let g = grain(n) as int;
    let q = n as int / g;
    lemma_fundamental_div_mod(n as int, g);
    let even = if q % 2 == 0 {
        q / 2
    } else {
        (q + 1) / 2
    };
    assert(rounded(n) == even * (2 * g)) by (nonlinear_arith)
        requires
            rounded(n) == if q % 2 == 0 {
                q * g
            } else {
                (q + 1) * g
            },
            even == if q % 2 == 0 {
                q / 2
            } else {
                (q + 1) / 2
            },
    ;
    lemma_mod_multiples_basic(even, 2 * g);
    assert(q * g == g * q) by (nonlinear_arith);
    assert((q + 1) * g == q * g + g) by (nonlinear_arith);
}

} // verus!
