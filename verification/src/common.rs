//! Integer clipping and logarithm helpers of `libavutil/common.h`.

use vstd::prelude::*;

verus! {

/// `value` limited to the closed range `[low, high]`: `low` below it, `high`
/// above it, the value itself inside it.
pub open spec fn clamp(value: int, low: int, high: int) -> int {
    if value < low {
        low
    } else if value > high {
        high
    } else {
        value
    }
}

/// Two to the power `exponent`.
pub open spec fn pow2(exponent: nat) -> int
    decreases exponent,
{
    if exponent == 0 {
        1
    } else {
        2 * pow2((exponent - 1) as nat)
    }
}

/// The integer base-2 logarithm, rounded down; zero for zero, as libavutil
/// defines it.
pub open spec fn floor_log2(value: nat) -> nat
    decreases value,
{
    if value <= 1 {
        0
    } else {
        1 + floor_log2(value / 2)
    }
}

/// The unsigned 32-bit operand `av_ceil_log2_c` takes the logarithm of:
/// `(value - 1) << 1`, computed with 32-bit unsigned wrap-around.
pub open spec fn ceil_log2_operand(value: i32) -> nat {
    (((value as int - 1) * 2) % 0x1_0000_0000) as nat
}

/// The `av_ceil_log2_c` operation of libavutil.
///
/// The base-2 logarithm of `value`, rounded up, as libavutil computes it:
/// `av_log2((value - 1U) << 1)` in 32-bit unsigned arithmetic.
pub fn av_ceil_log2_c(value: i32) -> (result: i32)
    ensures
        result == floor_log2(ceil_log2_operand(value)),
{
    let doubled: i64 = (value as i64 - 1) * 2;
    let operand: i64 = if doubled < -0x1_0000_0000i64 {
        doubled + 0x2_0000_0000i64
    } else if doubled < 0 {
        doubled + 0x1_0000_0000i64
    } else {
        doubled
    };
    assert(operand == ceil_log2_operand(value));
    proof {
        lemma_floor_log2_bound(operand as nat);
    }
    let mut rest: i64 = operand;
    let mut count: i32 = 0;
    while rest > 1
        invariant
            0 <= rest < 0x1_0000_0000,
            0 <= count,
            count + floor_log2(rest as nat) == floor_log2(ceil_log2_operand(value)),
            count + floor_log2(rest as nat) <= 32,
        decreases rest,
    {
        rest = rest / 2;
        count = count + 1;
    }
    count
}

/// The logarithm of a value below `2^32` is below 32.
proof fn lemma_floor_log2_bound(value: nat)
    requires
        value < 0x1_0000_0000,
    ensures
        floor_log2(value) <= 31,
{
    if value >= 1 {
        lemma_floor_log2_window(value);
        lemma_pow2_values();
        if floor_log2(value) >= 32 {
            lemma_pow2_monotone(32, floor_log2(value));
        }
    }
}

/// The powers of two the clipping and logarithm helpers rely on.
proof fn lemma_pow2_values()
    ensures
        pow2(30) == 0x4000_0000,
        pow2(31) == 0x8000_0000,
        pow2(32) == 0x1_0000_0000,
        pow2(61) == 0x2000_0000_0000_0000,
{
    reveal_with_fuel(pow2, 62);
}

/// The `av_clip64_c` operation of libavutil.
///
/// `value` limited to `[min, max]`; `None` when the bounds are reversed,
/// which the C helper does not accept.
pub fn av_clip64_c(value: i64, min: i64, max: i64) -> (result: Option<i64>)
    ensures
        min <= max ==> result == Some(clamp(value as int, min as int, max as int) as i64),
        min > max ==> result is None,
{
    if min > max {
        None
    } else if value < min {
        Some(min)
    } else if value > max {
        Some(max)
    } else {
        Some(value)
    }
}

/// The `av_clip_c` operation of libavutil.
///
/// `value` limited to `[min, max]`; `None` when the bounds are reversed,
/// which the C helper does not accept.
pub fn av_clip_c(value: i32, min: i32, max: i32) -> (result: Option<i32>)
    ensures
        min <= max ==> result == Some(clamp(value as int, min as int, max as int) as i32),
        min > max ==> result is None,
{
    if min > max {
        None
    } else if value < min {
        Some(min)
    } else if value > max {
        Some(max)
    } else {
        Some(value)
    }
}

/// The `av_clip_int16_c` operation of libavutil.
///
/// `value` limited to the range of a signed 16-bit integer.
pub fn av_clip_int16_c(value: i32) -> (result: i16)
    ensures
        result == clamp(value as int, i16::MIN as int, i16::MAX as int),
{
    if value < -32768 {
        -32768
    } else if value > 32767 {
        32767
    } else {
        value as i16
    }
}

/// The `av_clip_int8_c` operation of libavutil.
///
/// `value` limited to the range of a signed 8-bit integer.
pub fn av_clip_int8_c(value: i32) -> (result: i8)
    ensures
        result == clamp(value as int, i8::MIN as int, i8::MAX as int),
{
    if value < -128 {
        -128
    } else if value > 127 {
        127
    } else {
        value as i8
    }
}

/// The `av_clip_uint16_c` operation of libavutil.
///
/// `value` limited to the range of an unsigned 16-bit integer.
pub fn av_clip_uint16_c(value: i32) -> (result: u16)
    ensures
        result == clamp(value as int, 0, u16::MAX as int),
{
    if value < 0 {
        0
    } else if value > 65535 {
        65535
    } else {
        value as u16
    }
}

/// The `av_clip_uint8_c` operation of libavutil.
///
/// `value` limited to the range of an unsigned 8-bit integer.
pub fn av_clip_uint8_c(value: i32) -> (result: u8)
    ensures
        result == clamp(value as int, 0, u8::MAX as int),
{
    if value < 0 {
        0
    } else if value > 255 {
        255
    } else {
        value as u8
    }
}

/// Two to the power `bits`, for a shift that fits a signed 64-bit integer.
fn power_of_two(bits: u32) -> (result: i64)
    requires
        bits <= 62,
    ensures
        result == pow2(bits as nat),
        result >= 1,
{
    let mut result: i64 = 1;
    let mut done: u32 = 0;
    while done < bits
        invariant
            done <= bits <= 62,
            result == pow2(done as nat),
        decreases bits - done,
    {
        proof {
            lemma_pow2_monotone(done as nat, 61);
            lemma_pow2_values();
            lemma_pow2_bounds(done as nat);
        }
        result = result * 2;
        done = done + 1;
    }
    proof {
        lemma_pow2_bounds(bits as nat);
    }
    result
}

/// `2^k` is positive.
proof fn lemma_pow2_bounds(exponent: nat)
    ensures
        pow2(exponent) >= 1,
    decreases exponent,
{
    if exponent > 0 {
        lemma_pow2_bounds((exponent - 1) as nat);
    }
}

/// `2^a <= 2^b` whenever `a <= b`.
proof fn lemma_pow2_monotone(a: nat, b: nat)
    requires
        a <= b,
    ensures
        pow2(a) <= pow2(b),
    decreases b,
{
    lemma_pow2_bounds(a);
    if a < b {
        lemma_pow2_monotone(a, (b - 1) as nat);
    }
}

/// The `av_clip_intp2_c` operation of libavutil.
///
/// `value` limited to the signed `bits + 1`-bit range `[-2^bits, 2^bits - 1]`;
/// `None` for a shift above 30, for which the C helper's shifts are undefined.
pub fn av_clip_intp2_c(value: i32, bits: u32) -> (result: Option<i32>)
    ensures
        bits <= 30 ==> result == Some(
            clamp(value as int, -pow2(bits as nat), pow2(bits as nat) - 1) as i32,
        ),
        bits > 30 ==> result is None,
{
    if bits > 30 {
        return None;
    }
    let limit = power_of_two(bits);
    proof {
        lemma_pow2_monotone(bits as nat, 30);
        lemma_pow2_values();
    }
    let wide = value as i64;
    if wide < -limit {
        Some((-limit) as i32)
    } else if wide > limit - 1 {
        Some((limit - 1) as i32)
    } else {
        Some(value)
    }
}

/// The `av_clip_uintp2_c` operation of libavutil.
///
/// `value` limited to the unsigned `bits`-bit range `[0, 2^bits - 1]`; `None`
/// for a shift above 31, beyond the width of the C helper's `unsigned`.
pub fn av_clip_uintp2_c(value: i32, bits: u32) -> (result: Option<u32>)
    ensures
        bits <= 31 ==> result == Some(clamp(value as int, 0, pow2(bits as nat) - 1) as u32),
        bits > 31 ==> result is None,
{
    if bits > 31 {
        return None;
    }
    let limit = power_of_two(bits);
    proof {
        lemma_pow2_monotone(bits as nat, 31);
        lemma_pow2_values();
    }
    let wide = value as i64;
    if wide < 0 {
        Some(0)
    } else if wide > limit - 1 {
        Some((limit - 1) as u32)
    } else {
        Some(value as u32)
    }
}

/// The `av_clipl_int32_c` operation of libavutil.
///
/// `value` limited to the range of a signed 32-bit integer.
pub fn av_clipl_int32_c(value: i64) -> (result: i32)
    ensures
        result == clamp(value as int, i32::MIN as int, i32::MAX as int),
{
    if value < -0x8000_0000i64 {
        i32::MIN
    } else if value > 0x7fff_ffffi64 {
        i32::MAX
    } else {
        value as i32
    }
}

/// Clipping lands inside the range whenever the range is not empty.
pub proof fn lemma_clamp_in_range(value: int, low: int, high: int)
    requires
        low <= high,
    ensures
        low <= clamp(value, low, high) <= high,
{
}

/// A value already inside the range comes back unchanged.
pub proof fn lemma_clamp_identity_inside(value: int, low: int, high: int)
    requires
        low <= value <= high,
    ensures
        clamp(value, low, high) == value,
{
}

/// Clipping twice to the same range is the same as clipping once.
pub proof fn lemma_clamp_idempotent(value: int, low: int, high: int)
    requires
        low <= high,
    ensures
        clamp(clamp(value, low, high), low, high) == clamp(value, low, high),
{
}

/// Clipping keeps the order of its inputs.
pub proof fn lemma_clamp_monotone(a: int, b: int, low: int, high: int)
    requires
        low <= high,
        a <= b,
    ensures
        clamp(a, low, high) <= clamp(b, low, high),
{
}

/// For every positive `value`, `av_ceil_log2_c` gives the least `k` with
/// `value <= 2^k`.
pub proof fn lemma_ceil_log2_is_ceiling(value: i32)
    requires
        value >= 1,
    ensures
        value <= pow2(floor_log2(ceil_log2_operand(value))),
        floor_log2(ceil_log2_operand(value)) == 0 || pow2(
            (floor_log2(ceil_log2_operand(value)) - 1) as nat,
        ) < value,
{
    let operand = ceil_log2_operand(value);
    assert(operand == 2 * (value - 1));
    if value == 1 {
        assert(operand == 0);
    } else {
        lemma_floor_log2_window((value - 1) as nat);
        lemma_floor_log2_double((value - 1) as nat);
        let j = floor_log2((value - 1) as nat);
        assert(pow2(j + 1) == 2 * pow2(j));
    }
}

/// `2^k <= v < 2^(k+1)` for `k` the logarithm of a positive `v`.
proof fn lemma_floor_log2_window(value: nat)
    requires
        value >= 1,
    ensures
        pow2(floor_log2(value)) <= value < 2 * pow2(floor_log2(value)),
    decreases value,
{
    if value > 1 {
        lemma_floor_log2_window(value / 2);
    }
}

/// Doubling a positive value adds one to its logarithm.
proof fn lemma_floor_log2_double(value: nat)
    requires
        value >= 1,
    ensures
        floor_log2(2 * value) == floor_log2(value) + 1,
{
    assert((2 * value) / 2 == value);
}

} // verus!
