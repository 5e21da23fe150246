//! Window geometry: dimension parsing and monitor-relative bounds.
//!
//! A requested dimension is an absolute pixel count or a percentage of the
//! target monitor's working area; percentages are resolved exactly, as
//! rationals rounded half away from zero. Monitor-relative placement
//! shifts the requested origin by the monitor's corner and optionally
//! undoes the monitor's DPI scaling.

use vstd::prelude::*;

use crate::bangs::{spec_get_last, spec_split_first, split_first_str, BangParams};
use crate::commands::Bounds;
use crate::text::{all_digits, dec_val, is_dec_digit};

verus! {

/// Ten to the `k`.
pub open spec fn pow10(k: nat) -> nat
    decreases k,
{
    if k == 0 {
        1nat
    } else {
        10 * pow10((k - 1) as nat)
    }
}

/// `a / b` rounded half away from zero (`b > 0`).
pub open spec fn spec_round_away(a: int, b: int) -> int
    recommends
        b > 0,
{
    if a >= 0 {
        (2 * a + b) / (2 * b)
    } else {
        -((2 * (-a) + b) / (2 * b))
    }
}

/// `v` forced into the `i32` range.
pub open spec fn spec_clamp_i32(v: int) -> int {
    if v < -2147483648 {
        -2147483648
    } else if v > 2147483647 {
        2147483647
    } else {
        v
    }
}

/// An optional leading sign, and what follows it.
pub open spec fn spec_sign_split(s: Seq<char>) -> (bool, Seq<char>) {
    if s.len() > 0 && s[0] == '-' {
        (true, s.skip(1))
    } else if s.len() > 0 && s[0] == '+' {
        (false, s.skip(1))
    } else {
        (false, s)
    }
}

/// The value of a percentage body (the text before `%`) against `max`:
/// optional sign, then digits with at most one point and at most nine
/// digits on either side; the result is `max` scaled by that percentage,
/// rounded half away from zero and forced into the `i32` range.
pub open spec fn spec_percent_value(body: Seq<char>, max: int) -> Option<int> {
    let sign = spec_sign_split(body);
    let parts = spec_split_first(sign.1, '.');
    let ip = parts.0;
    let fr = match parts.1 {
        None => Seq::<char>::empty(),
        Some(f) => f,
    };
    if all_digits(ip) && all_digits(fr) && ip.len() + fr.len() >= 1 && ip.len() <= 9 && fr.len()
        <= 9 {
        let num = (dec_val(ip) * pow10(fr.len()) + dec_val(fr)) as int;
        let den = (100 * pow10(fr.len())) as int;
        let signed = if sign.0 {
            -num
        } else {
            num
        };
        Some(spec_clamp_i32(spec_round_away(signed * max, den)))
    } else {
        None
    }
}

/// The value of an absolute dimension: optional sign, digits, and it must
/// fit in an `i32`.
pub open spec fn spec_int_value(s: Seq<char>) -> Option<int> {
    let sign = spec_sign_split(s);
    let mag = sign.1;
    if mag.len() >= 1 && all_digits(mag) {
        let v = if sign.0 {
            -(dec_val(mag) as int)
        } else {
            dec_val(mag) as int
        };
        if -2147483648 <= v && v <= 2147483647 {
            Some(v)
        } else {
            None
        }
    } else {
        None
    }
}

/// What `parse_dimension` accepts and returns: a trailing `%` makes a
/// percentage of `max`, anything else an absolute count.
pub open spec fn spec_parse_dimension(s: Seq<char>, max: int) -> Option<int> {
    if s.len() > 0 && s.last() == '%' {
        spec_percent_value(s.drop_last(), max)
    } else {
        spec_int_value(s)
    }
}

proof fn lemma_pow10_values()
    ensures
        pow10(0) == 1,
        pow10(1) == 10,
        pow10(2) == 100,
        pow10(3) == 1000,
        pow10(4) == 10000,
        pow10(5) == 100000,
        pow10(6) == 1000000,
        pow10(7) == 10000000,
        pow10(8) == 100000000,
        pow10(9) == 1000000000,
{
    assert(pow10(0) == 1);
    assert(pow10(1) == 10);
    assert(pow10(2) == 100);
    assert(pow10(3) == 1000);
    assert(pow10(4) == 10000);
    assert(pow10(5) == 100000);
    assert(pow10(6) == 1000000);
    assert(pow10(7) == 10000000);
    assert(pow10(8) == 100000000);
    assert(pow10(9) == 1000000000);
}

proof fn lemma_pow10_bounds(k: nat)
    requires
        k <= 9,
    ensures
        1 <= pow10(k) <= 1000000000,
{
    lemma_pow10_values();
}

proof fn lemma_dec_val_bound(s: Seq<char>)
    requires
        all_digits(s),
    ensures
        dec_val(s) < pow10(s.len()),
    decreases s.len(),
{
    if s.len() > 0 {
        assert(all_digits(s.drop_last()));
        lemma_dec_val_bound(s.drop_last());
        assert(is_dec_digit(s.last()));
    }
}

/// Whether every character of `s` is a decimal digit.
fn is_all_digits(s: &str) -> (r: bool)
    ensures
        r == all_digits(s@),
{
    let len = s.unicode_len();
    let mut i: usize = 0;
    while i < len
        invariant
            i <= len,
            len == s@.len(),
            forall|j: int| 0 <= j < i ==> is_dec_digit(s@[j]),
        decreases len - i,
    {
        let v = s.get_char(i) as u32;
        if v < 48 || v > 57 {
            return false;
        }
        i += 1;
    }
    true
}

/// The number a digit string of at most nine digits denotes.
fn dec_value_u32(s: &str) -> (r: u32)
    requires
        s@.len() <= 9,
        all_digits(s@),
    ensures
        r as nat == dec_val(s@),
        r < 1000000000,
{
    proof {
        lemma_dec_val_bound(s@);
        lemma_pow10_bounds(s@.len());
    }
    let len = s.unicode_len();
    let mut acc: u32 = 0;
    let mut i: usize = 0;
    while i < len
        invariant
            i <= len,
            len == s@.len(),
            len <= 9,
            all_digits(s@),
            acc as nat == dec_val(s@.take(i as int)),
            (acc as nat) < pow10(i as nat),
        decreases len - i,
    {
        let c = s.get_char(i);
        let v = c as u32;
        proof {
            assert(is_dec_digit(s@[i as int]));
            assert(48 <= v <= 57);
            assert(s@.take(i + 1).drop_last() =~= s@.take(i as int));
            assert(s@.take(i + 1).last() == s@[i as int]);
            lemma_pow10_values();
            assert(pow10(i as nat) <= 100000000);
        }
        acc = acc * 10 + (v - 48);
        i += 1;
    }
    proof {
        assert(s@.take(len as int) =~= s@);
        lemma_pow10_bounds(len as nat);
    }
    acc
}

fn pow10_u64(k: usize) -> (r: u64)
    requires
        k <= 9,
    ensures
        r as nat == pow10(k as nat),
        1 <= r <= 1000000000,
{
    proof {
        lemma_pow10_bounds(k as nat);
    }
    let mut r: u64 = 1;
    let mut i: usize = 0;
    while i < k
        invariant
            i <= k,
            k <= 9,
            r as nat == pow10(i as nat),
            1 <= r <= 1000000000,
        decreases k - i,
    {
        proof {
            lemma_pow10_bounds((i + 1) as nat);
        }
        r = r * 10;
        i += 1;
    }
    r
}

struct SignSplit {
    neg: bool,
    mag: String,
}

fn sign_split(s: &str) -> (r: SignSplit)
    ensures
        r.neg == spec_sign_split(s@).0,
        r.mag@ == spec_sign_split(s@).1,
{
    let len = s.unicode_len();
    if len > 0 {
        let c = s.get_char(0);
        if c == '-' {
            proof {
                assert(s@.subrange(1, s@.len() as int) =~= s@.skip(1));
            }
            return SignSplit { neg: true, mag: String::from_str(s.substring_char(1, len)) };
        }
        if c == '+' {
            proof {
                assert(s@.subrange(1, s@.len() as int) =~= s@.skip(1));
            }
            return SignSplit { neg: false, mag: String::from_str(s.substring_char(1, len)) };
        }
    }
    SignSplit { neg: false, mag: String::from_str(s) }
}

fn clamp_i32(v: i128) -> (r: i32)
    ensures
        r as int == spec_clamp_i32(v as int),
{
    if v < -2147483648i128 {
        -2147483648i32
    } else if v > 2147483647i128 {
        2147483647i32
    } else {
        v as i32
    }
}

/// Divides with rounding half away from zero, the numerator given by sign
/// and magnitude.
fn round_away_magnitude(mag: u128, neg: bool, den: u128) -> (r: i128)
    requires
        0 < den <= 0x1_0000_0000_0000_0000u128,
        mag <= 0x1000_0000_0000_0000_0000_0000u128,
    ensures
        r as int == spec_round_away(if neg { -(mag as int) } else { mag as int }, den as int),
{
    let q = (2 * mag + den) / (2 * den);
    proof {
        vstd::arithmetic::div_mod::lemma_div_nonincreasing((2 * mag + den) as int, (2 * den) as int);
        assert(q <= 2 * mag + den);
        if mag == 0 {
            assert(((den as int) + 0) / (2 * (den as int)) == 0) by (nonlinear_arith)
                requires
                    den > 0,
            ;
        }
    }
    if neg {
        if mag == 0 {
            0i128
        } else {
            -(q as i128)
        }
    } else {
        q as i128
    }
}

/// Parses one requested dimension against the axis bound `max`: either an
/// absolute pixel count that fits an `i32`, or `<number>%` resolved
/// against `max` exactly and rounded half away from zero.
pub fn parse_dimension(value: &str, max: i32) -> (r: Option<i32>)
    ensures
        match r {
            Some(v) => spec_parse_dimension(value@, max as int) == Some(v as int),
            None => spec_parse_dimension(value@, max as int) is None,
        },
{
    let len = value.unicode_len();
    if len > 0 && value.get_char(len - 1) == '%' {
        proof {
            assert(value@.subrange(0, len - 1) =~= value@.drop_last());
        }
        let body = String::from_str(value.substring_char(0, len - 1));
        percent_value(body.as_str(), max)
    } else {
        int_value(value)
    }
}

fn int_value(s: &str) -> (r: Option<i32>)
    ensures
        match r {
            Some(v) => spec_int_value(s@) == Some(v as int),
            None => spec_int_value(s@) is None,
        },
{
    let sign = sign_split(s);
    match crate::text::parse_u64(sign.mag.as_str()) {
        None => None,
        Some(v) => {
            if sign.neg {
                if v <= 2147483648u64 {
                    Some((-(v as i64)) as i32)
                } else {
                    None
                }
            } else {
                if v <= 2147483647u64 {
                    Some(v as i32)
                } else {
                    None
                }
            }
        },
    }
}

fn percent_value(body: &str, max: i32) -> (r: Option<i32>)
    ensures
        match r {
            Some(v) => spec_percent_value(body@, max as int) == Some(v as int),
            None => spec_percent_value(body@, max as int) is None,
        },
{
    let sign = sign_split(body);
    let (ip, frop) = split_first_str(sign.mag.as_str(), '.');
    let fr: String = match frop {
        None => String::new(),
        Some(f) => f,
    };
    let iplen = ip.as_str().unicode_len();
    let frlen = fr.as_str().unicode_len();
    if iplen > 9 || frlen > 9 || !is_all_digits(ip.as_str()) || !is_all_digits(fr.as_str())
        || iplen + frlen == 0 {
        return None;
    }
    let ipv = dec_value_u32(ip.as_str());
    let frv = dec_value_u32(fr.as_str());
    let p = pow10_u64(frlen);
    proof {
        assert((ipv as int) * (p as int) <= 1000000000int * 1000000000int) by (nonlinear_arith)
            requires
                ipv < 1000000000,
                p <= 1000000000,
                0 <= ipv,
                0 < p,
        ;
    }
    let num: u64 = (ipv as u64) * p + (frv as u64);
    let den: u64 = 100 * p;
    let maxmag: u64 = if max >= 0 {
        max as u64
    } else {
        (-(max as i64)) as u64
    };
    proof {
        assert((num as int) * (maxmag as int) <= 1000000001000000000int * 2147483648int)
            by (nonlinear_arith)
            requires
                num <= 1000000001000000000u64,
                maxmag <= 2147483648u64,
                0 <= num,
                0 <= maxmag,
        ;
    }
    let prod: u128 = (num as u128) * (maxmag as u128);
    let total_neg = sign.neg != (max < 0);
    let value = round_away_magnitude(prod, total_neg, den as u128);
    let ghost numi = num as int;
    let ghost maxi = max as int;
    let ghost signedi: int = if sign.neg {
        -numi
    } else {
        numi
    };
    proof {
        assert(signedi * maxi == (if total_neg {
            -(prod as int)
        } else {
            (prod as int)
        })) by (nonlinear_arith)
            requires
                prod as int == numi * (maxmag as int),
                maxmag as int == (if maxi >= 0 {
                    maxi
                } else {
                    -maxi
                }),
                signedi == (if sign.neg {
                    -numi
                } else {
                    numi
                }),
                total_neg == (sign.neg != (maxi < 0)),
                0 <= numi,
        ;
        if prod == 0 {
            assert(spec_round_away(0, den as int) == (0int + den as int) / (2 * den as int));
            assert((0int + den as int) / (2 * den as int) == 0) by (nonlinear_arith)
                requires
                    den > 0,
            ;
        }
    }
    Some(clamp_i32(value))
}

/// One monitor's rectangle and raw DPI (96 means unscaled).
#[derive(Clone, Copy, Debug, PartialEq, Eq, Structural)]
pub struct MonitorRect {
    pub left: i32,
    pub top: i32,
    pub right: i32,
    pub bottom: i32,
    /// Effective DPI along x; 0 when the platform could not report one,
    /// which disables DPI adjustment.
    pub dpi: u32,
}

/// A coordinate with the monitor's DPI scaling undone: `v / (dpi/96)`,
/// rounded half away from zero and forced into the `i32` range.
pub open spec fn spec_dpi_adjust(v: int, dpi: int) -> int
    recommends
        dpi > 0,
{
    spec_clamp_i32(spec_round_away(v * 96, dpi))
}

/// Bounds shifted to a monitor's corner, with DPI undone when asked and
/// known: the origin moves by the monitor's corner; the size is kept, and
/// all four become DPI-adjusted when adjustment applies.
pub open spec fn spec_adjusted_bounds(
    m: MonitorRect,
    x: int,
    y: int,
    w: int,
    h: int,
    dpi_enabled: bool,
) -> (int, int, int, int) {
    let ax = spec_clamp_i32(m.left + x);
    let ay = spec_clamp_i32(m.top + y);
    if dpi_enabled && m.dpi > 0 {
        (
            spec_dpi_adjust(ax, m.dpi as int),
            spec_dpi_adjust(ay, m.dpi as int),
            spec_dpi_adjust(w, m.dpi as int),
            spec_dpi_adjust(h, m.dpi as int),
        )
    } else {
        (ax, ay, w, h)
    }
}

fn dpi_adjust(v: i32, dpi: u32) -> (r: i32)
    requires
        dpi > 0,
    ensures
        r as int == spec_dpi_adjust(v as int, dpi as int),
{
    let prod: i64 = (v as i64) * 96;
    let neg = prod < 0;
    let mag: u128 = if neg {
        (-prod) as u128
    } else {
        prod as u128
    };
    let value = round_away_magnitude(mag, neg, dpi as u128);
    clamp_i32(value)
}

/// Shifts the requested bounds onto monitor `monitor_index`, undoing its
/// DPI scaling when `dpi_scaling_enabled` and the DPI is known; `None`
/// exactly when the index is out of range.
pub fn adjust_bounds_to_monitor(
    monitors: &Vec<MonitorRect>,
    monitor_index: usize,
    x: i32,
    y: i32,
    w: i32,
    h: i32,
    dpi_scaling_enabled: bool,
) -> (r: Option<(i32, i32, i32, i32)>)
    ensures
        match r {
            None => monitor_index >= monitors@.len(),
            Some(b) => monitor_index < monitors@.len() && (
            b.0 as int,
            b.1 as int,
            b.2 as int,
            b.3 as int,
            ) == spec_adjusted_bounds(
                monitors@[monitor_index as int],
                x as int,
                y as int,
                w as int,
                h as int,
                dpi_scaling_enabled,
            ),
        },
{
    if monitor_index >= monitors.len() {
        return None;
    }
    let m = monitors[monitor_index];
    let ax = clamp_i32((m.left as i128) + (x as i128));
    let ay = clamp_i32((m.top as i128) + (y as i128));
    if dpi_scaling_enabled && m.dpi > 0 {
        Some(
            (
                dpi_adjust(ax, m.dpi),
                dpi_adjust(ay, m.dpi),
                dpi_adjust(w, m.dpi),
                dpi_adjust(h, m.dpi),
            ),
        )
    } else {
        Some((ax, ay, w, h))
    }
}

/// A dimension taken from the bang parameters, or its default: an absent
/// or unparseable parameter falls back to `default`.
pub open spec fn spec_dim_or(
    ps: Seq<(Seq<char>, Seq<char>)>,
    key: Seq<char>,
    max: int,
    default: int,
) -> int {
    match spec_get_last(ps, key) {
        None => default,
        Some(v) => match spec_parse_dimension(v, max) {
            None => default,
            Some(d) => d,
        },
    }
}

fn dim_or(params: &BangParams, key: &str, max: i32, default: i32) -> (r: i32)
    ensures
        r as int == spec_dim_or(params@, key@, max as int, default as int),
{
    match params.get(key) {
        None => default,
        Some(v) => match parse_dimension(v.as_str(), max) {
            None => default,
            Some(d) => d,
        },
    }
}

/// What `get_screen_bounds` yields: requested (or defaulted) dimensions,
/// placed on the chosen monitor when one is named and exists; otherwise
/// the plain dimensions, but only when all four were requested.
pub open spec fn spec_screen_bounds(
    ps: Seq<(Seq<char>, Seq<char>)>,
    screen_w: int,
    screen_h: int,
    monitors: Seq<MonitorRect>,
    monitor_index: Option<usize>,
    dpi_enabled: bool,
) -> Option<(int, int, int, int)> {
    let x = spec_dim_or(ps, "x"@, screen_w, 0);
    let y = spec_dim_or(ps, "y"@, screen_h, 0);
    let w = spec_dim_or(ps, "w"@, screen_w, screen_w);
    let h = spec_dim_or(ps, "h"@, screen_h, screen_h);
    if monitor_index is Some && (monitor_index->0 as int) < monitors.len() {
        Some(spec_adjusted_bounds(monitors[monitor_index->0 as int], x, y, w, h, dpi_enabled))
    } else if spec_get_last(ps, "x"@) is Some && spec_get_last(ps, "y"@) is Some && spec_get_last(
        ps,
        "w"@,
    ) is Some && spec_get_last(ps, "h"@) is Some {
        Some((x, y, w, h))
    } else {
        None
    }
}

/// Resolves the requested window bounds against the screen and monitors.
pub fn get_screen_bounds(
    params: &BangParams,
    screen_w: i32,
    screen_h: i32,
    monitors: &Vec<MonitorRect>,
    monitor_index: Option<usize>,
    dpi_scaling_enabled: bool,
) -> (r: Option<Bounds>)
    ensures
        match r {
            Some(b) => spec_screen_bounds(
                params@,
                screen_w as int,
                screen_h as int,
                monitors@,
                monitor_index,
                dpi_scaling_enabled,
            ) == Some((b.x as int, b.y as int, b.w as int, b.h as int)),
            None => spec_screen_bounds(
                params@,
                screen_w as int,
                screen_h as int,
                monitors@,
                monitor_index,
                dpi_scaling_enabled,
            ) is None,
        },
{
    let x = dim_or(params, "x", screen_w, 0);
    let y = dim_or(params, "y", screen_h, 0);
    let w = dim_or(params, "w", screen_w, screen_w);
    let h = dim_or(params, "h", screen_h, screen_h);
    match monitor_index {
        Some(idx) => {
            match adjust_bounds_to_monitor(monitors, idx, x, y, w, h, dpi_scaling_enabled) {
                Some(b) => {
                    return Some(Bounds { x: b.0, y: b.1, w: b.2, h: b.3 });
                },
                None => {},
            }
        },
        None => {},
    }
    if params.contains_key("x") && params.contains_key("y") && params.contains_key("w")
        && params.contains_key("h") {
        Some(Bounds { x, y, w, h })
    } else {
        None
    }
}

} // verus!
