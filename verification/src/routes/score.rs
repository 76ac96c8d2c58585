//! The score of a trade route and its order.
//!
//! A route's score is its profit per unit of volume and of distance, times
//! the ship's speed:
//! `profit * speed / (volume_per_unit * distance)`, with
//! `profit = sell_price_per_unit - purchase_price_per_unit` and `distance`
//! the square root of the squared distance. The score is a real number, or
//! infinite where the divisor is zero, or undefined where both are zero. Its
//! sign and its order are decided here on the integers it is made of.

use crate::db::DbRoute;
use crate::routes::distance::{distance_squared, spec_distance_squared, squared_gap};
use vstd::prelude::*;

verus! {

/// The profit made on one unit of the route's good.
pub open spec fn profit(route: DbRoute) -> int {
    route.sell_price_per_unit - route.purchase_price_per_unit
}

/// The dividend of the score: profit times speed.
pub open spec fn score_dividend(route: DbRoute) -> int {
    profit(route) * route.ship_speed
}

/// The score is greater than zero. A zero divisor counts as a positive zero
/// unless the volume is negative, so a positive dividend over it is
/// positive infinity.
pub open spec fn spec_score_positive(route: DbRoute) -> bool {
    ||| score_dividend(route) > 0 && route.volume_per_unit >= 0
    ||| score_dividend(route) < 0 && route.volume_per_unit < 0
}

/// Decides whether the route's score is greater than zero.
pub fn score_positive(route: &DbRoute) -> (positive: bool)
    ensures
        positive == spec_score_positive(*route),
{
    let gain: i64 = route.sell_price_per_unit as i64 - route.purchase_price_per_unit as i64;
    let speed: i64 = route.ship_speed as i64;
    let dividend_positive = (gain > 0 && speed > 0) || (gain < 0 && speed < 0);
    let dividend_negative = (gain > 0 && speed < 0) || (gain < 0 && speed > 0);
    proof {
        let n = score_dividend(*route);
        assert(n == gain * speed);
        assert(dividend_positive == (n > 0)) by (nonlinear_arith)
            requires
                n == gain * speed,
                dividend_positive == ((gain > 0 && speed > 0) || (gain < 0 && speed < 0)),
        ;
        assert(dividend_negative == (n < 0)) by (nonlinear_arith)
            requires
                n == gain * speed,
                dividend_negative == ((gain > 0 && speed < 0) || (gain < 0 && speed > 0)),
        ;
    }
    (dividend_positive && route.volume_per_unit >= 0) || (dividend_negative
        && route.volume_per_unit < 0)
}

/// How two quantities stand to each other.
#[derive(Debug, Clone, Copy, PartialEq, Eq, Structural)]
pub enum Standing {
    Below,
    Level,
    Above,
}

/// How the fraction `a / b` stands to the fraction `c / d`, for positive
/// divisors: decided by cross-multiplication.
pub open spec fn fraction_standing(a: int, b: int, c: int, d: int) -> Standing {
    if a * d < c * b {
        Standing::Below
    } else if a * d == c * b {
        Standing::Level
    } else {
        Standing::Above
    }
}

/// The standing of two fractions turns round when both are turned upside
/// down and exchanged; with equal whole parts it is the standing of the
/// remainders' fractions.
proof fn lemma_fraction_step(a: int, b: int, c: int, d: int, q: int, r1: int, r2: int)
    requires
        b > 0,
        d > 0,
        a == q * b + r1,
        c == q * d + r2,
    ensures
        a * d - c * b == d * r1 - b * r2,
{
    assert(a * d - c * b == d * r1 - b * r2) by (nonlinear_arith)
        requires
            a == q * b + r1,
            c == q * d + r2,
    ;
}

proof fn lemma_fraction_gap(a: int, b: int, c: int, d: int, q1: int, q2: int)
    requires
        b > 0,
        d > 0,
        0 <= a - q1 * b < b,
        0 <= c - q2 * d,
        q1 < q2,
    ensures
        a * d < c * b,
{
    assert((q1 + 1) * b == q1 * b + b) by (nonlinear_arith);
    assert(a * d < c * b) by (nonlinear_arith)
        requires
            b > 0,
            d > 0,
            a < (q1 + 1) * b,
            c >= q2 * d,
            q1 + 1 <= q2,
    ;
}

/// Compares two fractions of 128-bit numbers without leaving 128 bits: the
/// whole parts decide, and where they agree the remainders' fractions,
/// turned upside down.
pub fn compare_fractions(a: u128, b: u128, c: u128, d: u128) -> (standing: Standing)
    requires
        b > 0,
        d > 0,
    ensures
        standing == fraction_standing(a as int, b as int, c as int, d as int),
    decreases b + d,
{
    let q1: u128 = a / b;
    let r1: u128 = a % b;
    let q2: u128 = c / d;
    let r2: u128 = c % d;
    proof {
        assert(a as int == q1 as int * b as int + r1 as int) by (nonlinear_arith)
            requires
                b > 0,
                q1 as int == a as int / b as int,
                r1 as int == a as int % b as int,
        ;
        assert(c as int == q2 as int * d as int + r2 as int) by (nonlinear_arith)
            requires
                d > 0,
                q2 as int == c as int / d as int,
                r2 as int == c as int % d as int,
        ;
    }
    if q1 < q2 {
        proof {
            lemma_fraction_gap(a as int, b as int, c as int, d as int, q1 as int, q2 as int);
        }
        Standing::Below
    } else if q1 > q2 {
        proof {
            lemma_fraction_gap(c as int, d as int, a as int, b as int, q2 as int, q1 as int);
        }
        Standing::Above
    } else {
        proof {
            lemma_fraction_step(
                a as int,
                b as int,
                c as int,
                d as int,
                q1 as int,
                r1 as int,
                r2 as int,
            );
        }
        if r1 == 0 && r2 == 0 {
            Standing::Level
        } else if r1 == 0 {
            assert((d as int) * 0 - (b as int) * (r2 as int) < 0) by (nonlinear_arith)
                requires
                    b > 0,
                    r2 > 0,
            ;
            Standing::Below
        } else if r2 == 0 {
            assert((d as int) * (r1 as int) - (b as int) * 0 > 0) by (nonlinear_arith)
                requires
                    d > 0,
                    r1 > 0,
            ;
            Standing::Above
        } else {
            compare_fractions(d, r2, b, r1)
        }
    }
}

/// The score's divisor is zero: the good has no volume, or the two places
/// lie on the same spot.
pub open spec fn zero_divisor(route: DbRoute) -> bool {
    route.volume_per_unit == 0 || spec_distance_squared(route) == 0
}

/// The score is a number or infinite. It is undefined where nothing is
/// divided by nothing.
pub open spec fn score_defined(route: DbRoute) -> bool {
    !(score_dividend(route) == 0 && zero_divisor(route))
}

/// Where a defined score lies: `-2` at negative infinity, `-1` among the
/// negative numbers, `0` at zero, `1` among the positive numbers, `2` at
/// positive infinity.
pub open spec fn score_level(route: DbRoute) -> int {
    let n = score_dividend(route);
    let sign: int = if n == 0 {
        0
    } else if (n > 0) == (route.volume_per_unit >= 0) {
        1
    } else {
        -1
    };
    if zero_divisor(route) {
        2 * sign
    } else {
        sign
    }
}

/// The square of the score is `square_dividend / square_divisor`.
pub open spec fn square_dividend(route: DbRoute) -> int {
    score_dividend(route) * score_dividend(route)
}

pub open spec fn square_divisor(route: DbRoute) -> int {
    route.volume_per_unit * route.volume_per_unit * spec_distance_squared(route)
}

/// The score of `a` is greater than the score of `b`. An undefined score is
/// neither greater nor smaller than any other.
pub open spec fn spec_score_exceeds(a: DbRoute, b: DbRoute) -> bool {
    &&& score_defined(a)
    &&& score_defined(b)
    &&& {
        ||| score_level(a) > score_level(b)
        ||| score_level(a) == 1 && score_level(b) == 1 && square_dividend(a) * square_divisor(b)
            > square_dividend(b) * square_divisor(a)
        ||| score_level(a) == -1 && score_level(b) == -1 && square_dividend(a) * square_divisor(b)
            < square_dividend(b) * square_divisor(a)
    }
}

/// A route's score is positive exactly when it lies above zero.
pub proof fn lemma_positive_is_level(route: DbRoute)
    ensures
        spec_score_positive(route) == (score_level(route) > 0),
{
}

/// The parts of a route's score that its order is decided on.
pub struct ScoreParts {
    pub defined: bool,
    pub level: i8,
    pub square_dividend: u128,
    pub square_divisor: u128,
}

/// Works out the parts of a route's score.
pub fn score_parts(route: &DbRoute) -> (parts: ScoreParts)
    ensures
        parts.defined == score_defined(*route),
        parts.level as int == score_level(*route),
        parts.square_dividend as int == square_dividend(*route),
        parts.square_divisor as int == square_divisor(*route),
        (parts.level == 1 || parts.level == -1) ==> parts.square_divisor > 0,
{
    let gain: i128 = route.sell_price_per_unit as i128 - route.purchase_price_per_unit as i128;
    let speed: i128 = route.ship_speed as i128;
    assert(-0x8000_0000_0000_0000 <= gain * speed <= 0x8000_0000_0000_0000) by (nonlinear_arith)
        requires
            -0x1_0000_0000 <= gain <= 0x1_0000_0000,
            -0x8000_0000 <= speed <= 0x8000_0000,
    ;
    let n: i128 = gain * speed;
    assert(0 <= n * n <= 0x4000_0000_0000_0000_0000_0000_0000_0000) by (nonlinear_arith)
        requires
            -0x8000_0000_0000_0000 <= n <= 0x8000_0000_0000_0000,
    ;
    let x: u128 = (n * n) as u128;
    let v: i128 = route.volume_per_unit as i128;
    assert(0 <= v * v <= 0x4000_0000_0000_0000) by (nonlinear_arith)
        requires
            -0x8000_0000 <= v <= 0x8000_0000,
    ;
    let vv: u128 = (v * v) as u128;
    let d: u128 = distance_squared(route);
    assert(0 <= vv * d <= 0x8000_0000_0000_0000_0000_0000_0000_0000) by (nonlinear_arith)
        requires
            0 <= vv <= 0x4000_0000_0000_0000,
            0 <= d <= 0x2_0000_0000_0000_0000,
    ;
    let y: u128 = vv * d;
    let no_divisor = route.volume_per_unit == 0 || d == 0;
    let sign: i8 = if n == 0 {
        0
    } else if (n > 0) == (route.volume_per_unit >= 0) {
        1
    } else {
        -1
    };
    proof {
        assert(vv > 0 && d > 0 ==> vv * d > 0) by (nonlinear_arith);
        assert(v != 0 ==> v * v > 0) by (nonlinear_arith);
    }
    ScoreParts {
        defined: !(n == 0 && no_divisor),
        level: if no_divisor {
            2 * sign
        } else {
            sign
        },
        square_dividend: x,
        square_divisor: y,
    }
}

/// Decides whether the score of `a` is greater than the score of `b`.
pub fn score_exceeds(a: &DbRoute, b: &DbRoute) -> (exceeds: bool)
    ensures
        exceeds == spec_score_exceeds(*a, *b),
{
    let pa = score_parts(a);
    let pb = score_parts(b);
    if !pa.defined || !pb.defined {
        false
    } else if pa.level != pb.level {
        pa.level > pb.level
    } else if pa.level == 1 {
        let standing = compare_fractions(
            pa.square_dividend,
            pa.square_divisor,
            pb.square_dividend,
            pb.square_divisor,
        );
        standing == Standing::Above
    } else if pa.level == -1 {
        let standing = compare_fractions(
            pa.square_dividend,
            pa.square_divisor,
            pb.square_dividend,
            pb.square_divisor,
        );
        standing == Standing::Below
    } else {
        false
    }
}

/// The divisor of a finite score's square is positive.
proof fn lemma_square_divisor_positive(route: DbRoute)
    requires
        !zero_divisor(route),
    ensures
        square_divisor(route) > 0,
        square_dividend(route) >= 0,
{
    reveal(squared_gap);
    let v = route.volume_per_unit as int;
    let dx = route.purchase_x - route.sell_x;
    let dy = route.purchase_y - route.sell_y;
    let n = score_dividend(route);
    assert(dx * dx >= 0) by (nonlinear_arith);
    assert(dy * dy >= 0) by (nonlinear_arith);
    assert(v * v > 0) by (nonlinear_arith)
        requires
            v != 0,
    ;
    assert(n * n >= 0) by (nonlinear_arith);
    let d = spec_distance_squared(route);
    assert(v * v * d > 0) by (nonlinear_arith)
        requires
            v * v > 0,
            d > 0,
    ;
}

/// Of three fractions with positive divisors, where the first is at most the
/// second and the second at most the third, the first is at most the third.
proof fn lemma_fractions_chain(xa: int, ya: int, xb: int, yb: int, xc: int, yc: int)
    requires
        ya > 0,
        yb > 0,
        yc > 0,
        xa * yb <= xb * ya,
        xb * yc <= xc * yb,
    ensures
        xa * yc <= xc * ya,
{
    assert((xa * yb) * yc <= (xb * ya) * yc) by (nonlinear_arith)
        requires
            xa * yb <= xb * ya,
            yc > 0,
    ;
    assert((xb * yc) * ya <= (xc * yb) * ya) by (nonlinear_arith)
        requires
            xb * yc <= xc * yb,
            ya > 0,
    ;
    assert((xb * ya) * yc == (xb * yc) * ya) by (nonlinear_arith);
    assert((xa * yb) * yc == (xa * yc) * yb) by (nonlinear_arith);
    assert((xc * yb) * ya == (xc * ya) * yb) by (nonlinear_arith);
    assert(xa * yc <= xc * ya) by (nonlinear_arith)
        requires
            (xa * yc) * yb <= (xc * ya) * yb,
            yb > 0,
    ;
}

/// No score exceeds a score that exceeds it.
pub proof fn lemma_exceeds_one_way(a: DbRoute, b: DbRoute)
    requires
        spec_score_exceeds(a, b),
    ensures
        !spec_score_exceeds(b, a),
{
}

/// Among defined scores, "does not exceed" carries over: where `a` does not
/// exceed `b` and `b` does not exceed `c`, `a` does not exceed `c`.
pub proof fn lemma_not_exceeding_chain(a: DbRoute, b: DbRoute, c: DbRoute)
    requires
        score_defined(a),
        score_defined(b),
        score_defined(c),
        !spec_score_exceeds(a, b),
        !spec_score_exceeds(b, c),
    ensures
        !spec_score_exceeds(a, c),
{
    let la = score_level(a);
    let lb = score_level(b);
    let lc = score_level(c);
    if la == lb && lb == lc && (la == 1 || la == -1) {
        lemma_square_divisor_positive(a);
        lemma_square_divisor_positive(b);
        lemma_square_divisor_positive(c);
        let xa = square_dividend(a);
        let ya = square_divisor(a);
        let xb = square_dividend(b);
        let yb = square_divisor(b);
        let xc = square_dividend(c);
        let yc = square_divisor(c);
        if la == 1 {
            lemma_fractions_chain(xa, ya, xb, yb, xc, yc);
        } else {
            lemma_fractions_chain(xc, yc, xb, yb, xa, ya);
        }
    }
}

} // verus!
