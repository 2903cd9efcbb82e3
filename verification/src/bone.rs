use vstd::prelude::*;
use crate::motion::Motion;
use crate::motion::motion_is_rotational;

verus! {

/// One procedural bone channel: `motion` says which axes it drives (and
/// whether it is rotational), `start..end` is the mapped value range in whole
/// degrees (or units), and `index` is the external controller slot identifier
/// supplied by callers — not a position in the table.
#[derive(Copy, Clone, Debug, PartialEq, Eq, Structural)]
pub struct BoneControllerDesc {
    pub motion: Motion,
    pub start: i32,
    pub end: i32,
    pub index: i32,
}

impl BoneControllerDesc {
    pub fn ty(&self) -> (r: Motion)
        ensures
            r == self.motion,
    {
        self.motion
    }

    pub fn start(&self) -> (r: i32)
        ensures
            r == self.start,
    {
        self.start
    }

    pub fn end(&self) -> (r: i32)
        ensures
            r == self.end,
    {
        self.end
    }

    pub fn index(&self) -> (r: i32)
        ensures
            r == self.index,
    {
        self.index
    }
}

/// Folds `v` into the angular window of width 360 centred at `twice / 2`
/// (the midpoint of a near-circular range, doubled to stay in integers), by
/// repeatedly adding or subtracting 360 until `v` lies within
/// `[mid - 180, mid + 180]`. Written in closed form: the number of whole
/// turns to remove is the rounded-up quotient of the excess by 720 (in
/// doubled units).
pub open spec fn fold_near_circular(twice: int, v: int) -> int {
    if 2 * v > twice + 360 {
        v - 360 * ((2 * v - twice - 360 + 719) / 720)
    } else if 2 * v < twice - 360 {
        v + 360 * ((twice - 360 - 2 * v + 719) / 720)
    } else {
        v
    }
}

/// Division truncating toward zero, as the hardware performs it; the
/// remap quantisation step truncates this way.
pub open spec fn tdiv(a: int, b: int) -> int {
    if (a < 0) == (b < 0) {
        abs(a) / abs(b)
    } else {
        -(abs(a) / abs(b))
    }
}

pub open spec fn abs(a: int) -> int {
    if a < 0 {
        -a
    } else {
        a
    }
}

/// The controller value after the angular-wrap step of the remap algorithm:
/// untouched for a non-rotational controller; for a rotational one, negated
/// first when the range is inverted (`end < start`), then folded into the
/// window around the range midpoint when the range spans a near-full circle
/// (`start + 359 >= end`), and otherwise wrapped into `[0, 360)` by floored
/// modulo.
pub open spec fn wrapped_controller_value(motion_bits: u32, start: int, end: int, value: int) -> int {
    if !motion_is_rotational(motion_bits) {
        value
    } else {
        let v = if end < start {
            -value
        } else {
            value
        };
        if start + 359 >= end {
            fold_near_circular(start + end, v)
        } else {
            v % 360
        }
    }
}

/// The quantised 8-bit setting for a controller with range `start..end` and
/// (already wrapped) value `v`: `255 * (v - start) / (end - start)`,
/// truncated toward zero and clamped to `0..=255`.
pub open spec fn quantized_setting(start: int, end: int, v: int) -> int {
    let q = tdiv(255 * (v - start), end - start);
    if q < 0 {
        0
    } else if q > 255 {
        255
    } else {
        q
    }
}

/// The full remap: wrap, then quantise.
pub open spec fn controller_setting(motion_bits: u32, start: int, end: int, value: int) -> int {
    quantized_setting(start, end, wrapped_controller_value(motion_bits, start, end, value))
}

/// The value actually stored after quantisation, scaled by 255 to stay in
/// integers: `setting / 255 * (end - start) + start`, times 255.
pub open spec fn reconstructed_value_num(setting: int, start: int, end: int) -> int {
    setting * (end - start) + 255 * start
}

/// The angular-wrap step always lands inside its window: for a rotational
/// controller with a near-circular range (`start + 359 >= end`) the wrapped
/// value differs from the (possibly negated) input by a whole number of
/// turns and lies within `[mid - 180, mid + 180]` around the range midpoint
/// `mid = (start + end) / 2` (both comparisons doubled to stay in
/// integers); for any other rotational range the wrapped value lies in
/// `[0, 360)` and again differs from the input by a whole number of turns.
pub proof fn lemma_wrapped_value_in_window(motion_bits: u32, start: int, end: int, value: int)
    requires
        motion_is_rotational(motion_bits),
    ensures
        ({
            let v = if end < start {
                -value
            } else {
                value
            };
            let w = wrapped_controller_value(motion_bits, start, end, value);
            &&& (start + 359 >= end ==> start + end - 360 <= 2 * w <= start + end + 360 && (w - v)
                % 360 == 0)
            &&& (start + 359 < end ==> 0 <= w < 360 && (w - v) % 360 == 0)
        }),
{
    let v = if end < start {
        -value
    } else {
        value
    };
    let twice = start + end;
    if start + 359 >= end {
        let w = fold_near_circular(twice, v);
        if 2 * v > twice + 360 {
            let d = 2 * v - twice - 360;
            let k = (d + 719) / 720;
            vstd::arithmetic::div_mod::lemma_fundamental_div_mod(d + 719, 720);
            assert(w == v - 360 * k);
            assert(twice - 360 <= 2 * w <= twice + 360);
            assert((w - v) % 360 == 0) by (nonlinear_arith)
                requires
                    w == v - 360 * k,
            ;
        } else if 2 * v < twice - 360 {
            let d = twice - 360 - 2 * v;
            let k = (d + 719) / 720;
            vstd::arithmetic::div_mod::lemma_fundamental_div_mod(d + 719, 720);
            assert(w == v + 360 * k);
            assert(twice - 360 <= 2 * w <= twice + 360);
            assert((w - v) % 360 == 0) by (nonlinear_arith)
                requires
                    w == v + 360 * k,
            ;
        } else {
            assert((w - v) % 360 == 0);
        }
    } else {
        let w = v % 360;
        vstd::arithmetic::div_mod::lemma_mod_bound(v, 360);
        vstd::arithmetic::div_mod::lemma_fundamental_div_mod(v, 360);
        assert((w - v) % 360 == 0) by (nonlinear_arith)
            requires
                w == v - 360 * (v / 360),
        ;
    }
}

/// Result of resolving one bone controller: the 8-bit `setting` written to
/// the external controller-state slot, and the value it stands for,
/// as the numerator of a fraction over 255 (in the controller's units).
#[derive(Copy, Clone, Debug, PartialEq, Eq, Structural)]
pub struct ControllerSetting {
    pub setting: u8,
    pub reconstructed_num: i64,
}

/// Euclidean remainder by 360 over a bounded domain, using only unsigned
/// division.
pub(crate) fn wrap_mod_360(v: i64) -> (r: i64)
    requires
        -0x4000_0000_0000_0000 <= v <= 0x4000_0000_0000_0000,
    ensures
        r == (v as int) % 360,
{
    if v >= 0 {
        let r = ((v as u64) % 360u64) as i64;
        assert(r == (v as int) % 360) by {
            assert((v as u64) as int == v as int);
        }
        r
    } else {
        let n = (-v) as u64;
        let m = (n % 360u64) as i64;
        let r = if m == 0 {
            0i64
        } else {
            360 - m
        };
        proof {
            let q = (n as int) / 360;
            vstd::arithmetic::div_mod::lemma_fundamental_div_mod(n as int, 360);
            assert(v as int == -(360 * q + (m as int)));
            if m == 0 {
                assert((v as int) % 360 == 0) by (nonlinear_arith)
                    requires
                        v as int == -360 * q,
                ;
            } else {
                assert((v as int) % 360 == 360 - (m as int)) by (nonlinear_arith)
                    requires
                        v as int == -(360 * q + (m as int)),
                        0 < m < 360,
                ;
            }
        }
        r
    }
}

/// Truncating division on bounded operands, using only unsigned division.
pub(crate) fn trunc_div(a: i64, b: i64) -> (r: i64)
    requires
        b != 0,
        -0x4000_0000_0000_0000 <= a <= 0x4000_0000_0000_0000,
        -0x4000_0000_0000_0000 <= b <= 0x4000_0000_0000_0000,
    ensures
        r == tdiv(a as int, b as int),
{
    let na: u64 = if a < 0 {
        (-a) as u64
    } else {
        a as u64
    };
    let nb: u64 = if b < 0 {
        (-b) as u64
    } else {
        b as u64
    };
    let q = (na / nb) as i64;
    if (a < 0) == (b < 0) {
        q
    } else {
        -q
    }
}

/// Computes the angular fold of `v` into the window centred at the midpoint
/// of the doubled range `twice`.
pub(crate) fn fold_exec(twice: i64, v: i64) -> (r: i64)
    requires
        -0x2_0000_0000 <= twice <= 0x2_0000_0000,
        -0x8000_0000 <= v <= 0x8000_0000,
    ensures
        r == fold_near_circular(twice as int, v as int),
        -0x4_0000_0000 <= r <= 0x4_0000_0000,
{
    if 2 * v > twice + 360 {
        let d = 2 * v - twice - 360;
        let k = ((d + 719) as u64 / 720) as i64;
        proof {
            assert(((d + 719) as u64) as int == d + 719);
            vstd::arithmetic::div_mod::lemma_fundamental_div_mod(d + 719, 720);
        }
        v - 360 * k
    } else if 2 * v < twice - 360 {
        let d = twice - 360 - 2 * v;
        let k = ((d + 719) as u64 / 720) as i64;
        proof {
            assert(((d + 719) as u64) as int == d + 719);
            vstd::arithmetic::div_mod::lemma_fundamental_div_mod(d + 719, 720);
        }
        v + 360 * k
    } else {
        v
    }
}

/// Applies the wrap and quantisation steps for one controller, returning the
/// stored setting. `start != end` is a caller obligation (a zero-width range
/// is a precondition violation of the remap).
pub(crate) fn remap_exec(motion: Motion, start: i32, end: i32, value: i32) -> (r: u8)
    requires
        start != end,
    ensures
        r == controller_setting(motion.bits, start as int, end as int, value as int),
{
    let v64: i64 = value as i64;
    let s64: i64 = start as i64;
    let e64: i64 = end as i64;
    let wrapped: i64 = if motion.is_rotational() {
        let v1: i64 = if end < start {
            -v64
        } else {
            v64
        };
        if s64 + 359 >= e64 {
            fold_exec(s64 + e64, v1)
        } else {
            wrap_mod_360(v1)
        }
    } else {
        v64
    };
    assert(wrapped == wrapped_controller_value(motion.bits, start as int, end as int, value as int));
    let q = trunc_div(255 * (wrapped - s64), e64 - s64);
    if q < 0 {
        0
    } else if q > 255 {
        255
    } else {
        q as u8
    }
}

} // verus!
