use crate::unit::TempUnit;
use vstd::arithmetic::div_mod::{
    lemma_div_is_ordered, lemma_div_pos_is_pos, lemma_fundamental_div_mod,
    lemma_fundamental_div_mod_converse, lemma_mod_bound,
};
use vstd::prelude::*;

verus! {

/// Truncating (round-toward-zero) division for a positive divisor, as
/// Rust's `/` computes it on signed integers. On `int`, `/` is Euclidean
/// division, which differs from truncation for negative dividends, so the
/// model spells the truncating form out.
pub open spec fn tdiv(a: int, b: int) -> int
    recommends
        b > 0,
{
    if a >= 0 {
        a / b
    } else {
        -((-a) / b)
    }
}

/// The value `t`, read in unit `u`, expressed on the Kelvin scale.
pub open spec fn spec_to_kelvin(t: int, u: TempUnit) -> int {
    match u {
        TempUnit::Celsius => t + 273,
        TempUnit::Fahrenheit => tdiv((t - 32) * 5, 9) + 273,
        TempUnit::Kelvin => t,
    }
}

/// The Kelvin value `k` expressed in unit `u`.
pub open spec fn spec_from_kelvin(k: int, u: TempUnit) -> int {
    match u {
        TempUnit::Celsius => k - 273,
        TempUnit::Fahrenheit => tdiv(k * 9, 5) - 459,
        TempUnit::Kelvin => k,
    }
}

/// Conversion of `t` from unit `from` to unit `to`, routed through the
/// Kelvin intermediate.
pub open spec fn spec_convert(t: int, from: TempUnit, to: TempUnit) -> int {
    spec_from_kelvin(spec_to_kelvin(t, from), to)
}

/// No intermediate step of converting `t` from unit `u` to Kelvin leaves
/// the `i16` range.
pub open spec fn to_kelvin_in_range(t: int, u: TempUnit) -> bool {
    match u {
        TempUnit::Celsius => t + 273 <= i16::MAX,
        TempUnit::Fahrenheit => i16::MIN <= (t - 32) * 5 && (t - 32) * 5 <= i16::MAX,
        TempUnit::Kelvin => true,
    }
}

/// No intermediate step of converting `t` from unit `from` to unit `to`
/// leaves the `i16` range. This is the band within which the executable
/// conversion is proved exact; outside it the 16-bit arithmetic would
/// overflow.
pub open spec fn conv_in_range(t: int, from: TempUnit, to: TempUnit) -> bool {
    &&& to_kelvin_in_range(t, from)
    &&& match to {
        TempUnit::Celsius => i16::MIN + 273 <= spec_to_kelvin(t, from),
        TempUnit::Fahrenheit => i16::MIN <= spec_to_kelvin(t, from) * 9
            && spec_to_kelvin(t, from) * 9 <= i16::MAX,
        TempUnit::Kelvin => true,
    }
}

/// Truncating division is determined by any decomposition `a == q * b + r`
/// whose remainder lies strictly within one divisor of zero: the quotient
/// is `q`, corrected by one when the remainder's sign disagrees with `a`'s.
proof fn lemma_tdiv_shift(b: int, q: int, r: int)
    requires
        b > 0,
        -b < r < b,
    ensures
        tdiv(q * b + r, b) == (if q * b + r >= 0 {
            if r >= 0 {
                q
            } else {
                q - 1
            }
        } else {
            if r <= 0 {
                q
            } else {
                q + 1
            }
        }),
{
    let a: int = q * b + r;
    if a >= 0 {
        if r >= 0 {
            lemma_fundamental_div_mod_converse(a, b, q, r);
        } else {
            assert(a == (q - 1) * b + (r + b)) by (nonlinear_arith)
                requires
                    a == q * b + r,
            ;
            lemma_fundamental_div_mod_converse(a, b, q - 1, r + b);
        }
    } else {
        if r <= 0 {
            assert(-a == (-q) * b + (-r)) by (nonlinear_arith)
                requires
                    a == q * b + r,
            ;
            lemma_fundamental_div_mod_converse(-a, b, -q, -r);
        } else {
            assert(-a == (-q - 1) * b + (b - r)) by (nonlinear_arith)
                requires
                    a == q * b + r,
            ;
            lemma_fundamental_div_mod_converse(-a, b, -q - 1, b - r);
        }
    }
}

/// Truncating division is unique: a decomposition `a == q * b + r` whose
/// remainder has the sign of `a` (or is zero) pins the quotient down.
proof fn lemma_tdiv_unique(a: int, b: int, q: int, r: int)
    requires
        b > 0,
        a == q * b + r,
        a >= 0 ==> 0 <= r < b,
        a < 0 ==> -b < r <= 0,
    ensures
        tdiv(a, b) == q,
{
    lemma_tdiv_shift(b, q, r);
}

/// The remainder that truncating division leaves, `a - b * tdiv(a, b)`,
/// lies strictly within one divisor of zero and has the sign of `a`.
proof fn lemma_tdiv_decomp(a: int, b: int)
    requires
        b > 0,
    ensures
        a >= 0 ==> 0 <= a - b * tdiv(a, b) < b,
        a < 0 ==> -b < a - b * tdiv(a, b) <= 0,
{
    if a >= 0 {
        lemma_fundamental_div_mod(a, b);
        lemma_mod_bound(a, b);
    } else {
        lemma_fundamental_div_mod(-a, b);
        lemma_mod_bound(-a, b);
        assert(b * -((-a) / b) == -(b * ((-a) / b))) by (nonlinear_arith);
    }
}

/// On a Fahrenheit value whose offset from 32 divides evenly by 9 and
/// which is at or above -459 (approximately absolute zero in Fahrenheit),
/// the two truncating divisions of the Kelvin round trip lose nothing.
proof fn lemma_fahrenheit_even(v: int)
    requires
        (v - 32) % 9 == 0,
        v >= -459,
    ensures
        spec_to_kelvin(v, TempUnit::Fahrenheit) == 5 * ((v - 32) / 9) + 273,
        spec_from_kelvin(spec_to_kelvin(v, TempUnit::Fahrenheit), TempUnit::Fahrenheit) == v,
{
    let m: int = (v - 32) / 9;
    lemma_fundamental_div_mod(v - 32, 9);
    assert(v - 32 == 9 * m);
    assert((v - 32) * 5 == (5 * m) * 9 + 0);
    lemma_tdiv_unique((v - 32) * 5, 9, 5 * m, 0);
    let k: int = 5 * m + 273;
    assert(spec_to_kelvin(v, TempUnit::Fahrenheit) == k);
    assert(m >= -54);
    assert(k * 9 == (9 * m + 491) * 5 + 2);
    assert(k * 9 >= 0);
    lemma_tdiv_unique(k * 9, 5, 9 * m + 491, 2);
    assert(spec_from_kelvin(k, TempUnit::Fahrenheit) == 9 * m + 491 - 459);
    assert(9 * m + 32 == v);
}

/// The Fahrenheit round trip through Kelvin — to Kelvin and straight
/// back — drifts by at most two, whatever the value: each truncating
/// division loses strictly less than one divisor, and the 9/5 scaling
/// keeps the combined loss under two whole degrees.
proof fn lemma_fahrenheit_drift(v: int)
    ensures
        -2 <= spec_from_kelvin(spec_to_kelvin(v, TempUnit::Fahrenheit), TempUnit::Fahrenheit) - v
            <= 2,
{
    let q: int = tdiv((v - 32) * 5, 9);
    lemma_tdiv_decomp((v - 32) * 5, 9);
    let s: int = (v - 32) * 5 - 9 * q;
    let k1: int = q + 273;
    let r: int = 2 - s;
    assert(k1 * 9 == (v + 459) * 5 + r);
    if r >= 10 {
        assert(k1 * 9 == (v + 461) * 5 + (r - 10));
        lemma_tdiv_shift(5, v + 461, r - 10);
    } else if r >= 5 {
        assert(k1 * 9 == (v + 460) * 5 + (r - 5));
        lemma_tdiv_shift(5, v + 460, r - 5);
    } else if r >= -4 {
        lemma_tdiv_shift(5, v + 459, r);
    } else {
        assert(k1 * 9 == (v + 458) * 5 + (r + 5));
        lemma_tdiv_shift(5, v + 458, r + 5);
    }
}

/// Identity law: converting a value from a unit to itself returns it
/// unchanged. For Celsius and Kelvin this holds for every value. For
/// Fahrenheit the round trip through Kelvin truncates twice and can
/// drift (`spec_convert(25, F, F) == 27`), so the law asks that the
/// offset from 32 °F divide evenly by 9 and that the value lie at or
/// above -459 °F, where the drift is provably zero.
pub proof fn lemma_identity(v: int, u: TempUnit)
    requires
        u is Fahrenheit ==> (v - 32) % 9 == 0 && v >= -459,
    ensures
        spec_convert(v, u, u) == v,
{
    match u {
        TempUnit::Celsius => {},
        TempUnit::Fahrenheit => {
            lemma_fahrenheit_even(v);
        },
        TempUnit::Kelvin => {},
    }
}

/// Round-trip law: converting from `u1` to `u2` and back returns the
/// original value up to one unit of truncation drift; the result is
/// exact whenever the value leaves the Fahrenheit scale evenly (the
/// condition of the identity law) or never passes through it at all.
/// A Fahrenheit source value off that grid can drift further, e.g.
/// `spec_convert(spec_convert(25, F, K), K, F) == 27`.
pub proof fn lemma_round_trip(v: int, u1: TempUnit, u2: TempUnit)
    requires
        u1 is Fahrenheit ==> (v - 32) % 9 == 0 && v >= -459,
    ensures
        -1 <= spec_convert(spec_convert(v, u1, u2), u2, u1) - v <= 1,
        u1 is Fahrenheit || !(u2 is Fahrenheit) ==> spec_convert(
            spec_convert(v, u1, u2),
            u2,
            u1,
        ) == v,
{
    match u1 {
        TempUnit::Fahrenheit => {
            lemma_fahrenheit_even(v);
        },
        _ => {
            if u2 is Fahrenheit {
                // Kelvin value of `v` under `u1`; both remaining units are
                // linear in it, so only the Fahrenheit leg truncates.
                let k1: int = spec_to_kelvin(v, u1);
                let p: int = tdiv(k1 * 9, 5);
                lemma_tdiv_decomp(k1 * 9, 5);
                let s: int = k1 * 9 - 5 * p;
                let f: int = p - 459;
                assert(spec_convert(v, u1, u2) == f);
                assert((f - 32) * 5 == (k1 - 273) * 9 + (2 - s));
                lemma_tdiv_shift(9, k1 - 273, 2 - s);
            }
        },
    }
}

/// Truncating division by a positive divisor is monotone.
proof fn lemma_tdiv_ordered(a: int, b: int, c: int)
    requires
        a <= b,
        c > 0,
    ensures
        tdiv(a, c) <= tdiv(b, c),
{
    if a >= 0 {
        lemma_div_is_ordered(a, b, c);
    } else if b < 0 {
        lemma_div_is_ordered(-b, -a, c);
    } else {
        lemma_div_pos_is_pos(-a, c);
        lemma_div_pos_is_pos(b, c);
    }
}

/// Band preservation: a value inside the slider band of unit `s` — 0 to
/// 100 degrees Celsius expressed in `s` — converts to any unit `t`
/// without leaving the `i16` range, and the result lies inside the
/// slider band of `t`. The state logic can therefore re-express a
/// slider value in a freshly selected unit indefinitely and stay inside
/// the verified input band.
pub proof fn lemma_band_preserved(v: int, s: TempUnit, t: TempUnit)
    requires
        spec_convert(0, TempUnit::Celsius, s) <= v <= spec_convert(100, TempUnit::Celsius, s),
    ensures
        conv_in_range(v, s, t),
        spec_convert(0, TempUnit::Celsius, t) <= spec_convert(v, s, t) <= spec_convert(
            100,
            TempUnit::Celsius,
            t,
        ),
{
    let k: int = spec_to_kelvin(v, s);
    match s {
        TempUnit::Celsius => {},
        TempUnit::Kelvin => {},
        TempUnit::Fahrenheit => {
            lemma_tdiv_ordered(0, (v - 32) * 5, 9);
            lemma_tdiv_ordered((v - 32) * 5, 900, 9);
        },
    }
    assert(273 <= k <= 373);
    match t {
        TempUnit::Celsius => {},
        TempUnit::Kelvin => {},
        TempUnit::Fahrenheit => {
            lemma_tdiv_ordered(2457, k * 9, 5);
            lemma_tdiv_ordered(k * 9, 3357, 5);
        },
    }
}

/// Unconditional round-trip bound: converting any value from `u1` to
/// `u2` and back lands within four of where it started — within two
/// when only the source unit is Fahrenheit, and within one when the
/// source is not Fahrenheit at all. Unlike the round-trip law proper,
/// this holds for every value, on or off the Fahrenheit grid.
pub proof fn lemma_round_trip_drift(v: int, u1: TempUnit, u2: TempUnit)
    ensures
        -4 <= spec_convert(spec_convert(v, u1, u2), u2, u1) - v <= 4,
        !(u1 is Fahrenheit) ==> -1 <= spec_convert(spec_convert(v, u1, u2), u2, u1) - v <= 1,
        u1 is Fahrenheit && !(u2 is Fahrenheit) ==> -2 <= spec_convert(
            spec_convert(v, u1, u2),
            u2,
            u1,
        ) - v <= 2,
{
    if u1 is Fahrenheit {
        let k1: int = spec_to_kelvin(v, u1);
        let mid: int = spec_convert(v, u1, u2);
        if u2 is Fahrenheit {
            // Two full Fahrenheit round trips through Kelvin, each off
            // by at most two.
            lemma_fahrenheit_drift(v);
            lemma_fahrenheit_drift(mid);
        } else {
            // Celsius and Kelvin are exact, so the trip reduces to the
            // single Fahrenheit round trip through Kelvin.
            assert(spec_to_kelvin(mid, u2) == k1);
            lemma_fahrenheit_drift(v);
        }
    } else {
        lemma_round_trip(v, u1, u2);
    }
}

} // verus!
