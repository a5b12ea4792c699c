//! Rounding modes of the rescaling routines.

use vstd::prelude::*;
use vstd::std_specs::convert::FromSpecImpl;

verus! {
/// The flag bit that passes `i64::MIN` and `i64::MAX` through unchanged.
pub const PASS_MINMAX: u32 = 8192;

/// A rounding mode for the rescaling routines, held as its integer value.
///
/// The pass-through flag is added with `with_pass_minmax`.
#[derive(Clone, Copy, Debug, PartialEq, Eq, Hash, PartialOrd, Ord)]
pub struct AVRounding(pub u32);

impl AVRounding {
    /// Round toward zero.
    #[allow(non_snake_case)]
    pub fn ZERO() -> (result: AVRounding)
        ensures
            result.0 == 0,
    {
        AVRounding(0)
    }

    /// Round away from zero.
    #[allow(non_snake_case)]
    pub fn INF() -> (result: AVRounding)
        ensures
            result.0 == 1,
    {
        AVRounding(1)
    }

    /// Round toward negative infinity.
    #[allow(non_snake_case)]
    pub fn DOWN() -> (result: AVRounding)
        ensures
            result.0 == 2,
    {
        AVRounding(2)
    }

    /// Round toward positive infinity.
    #[allow(non_snake_case)]
    pub fn UP() -> (result: AVRounding)
        ensures
            result.0 == 3,
    {
        AVRounding(3)
    }

    /// Round to nearest, with halfway cases away from zero.
    #[allow(non_snake_case)]
    pub fn NEAR_INF() -> (result: AVRounding)
        ensures
            result.0 == 5,
    {
        AVRounding(5)
    }

    /// Wraps a raw value, including one unknown to this crate version.
    pub fn from_raw(value: u32) -> (result: AVRounding)
        ensures
            result.0 == value,
    {
        AVRounding(value)
    }

    /// Returns the raw value libavutil uses.
    pub fn as_raw(self) -> (result: u32)
        ensures
            result == self.0,
    {
        self.0
    }

    /// Adds the flag that passes `i64::MIN` and `i64::MAX` through unchanged.
    pub fn with_pass_minmax(self) -> (result: AVRounding)
        ensures
            result.0 == self.0 | PASS_MINMAX,
    {
        AVRounding(self.0 | 8192u32)
    }

    /// Whether the min/max pass-through flag is set.
    pub fn passes_minmax(self) -> (result: bool)
        ensures
            result == (self.0 & PASS_MINMAX != 0),
    {
        self.0 & 8192u32 != 0
    }

}

impl From<u32> for AVRounding {
    fn from(value: u32) -> (result: AVRounding) {
        AVRounding::from_raw(value)
    }
}

impl FromSpecImpl<u32> for AVRounding {
    open spec fn obeys_from_spec() -> bool {
        true
    }

    open spec fn from_spec(value: u32) -> AVRounding {
        AVRounding(value)
    }
}

impl From<AVRounding> for u32 {
    fn from(value: AVRounding) -> (result: u32) {
        value.as_raw()
    }
}

impl FromSpecImpl<AVRounding> for u32 {
    open spec fn obeys_from_spec() -> bool {
        true
    }

    open spec fn from_spec(value: AVRounding) -> u32 {
        value.0
    }
}

/// Adding the pass-through flag makes `passes_minmax` report it, for every
/// mode, and adding it twice is the same as adding it once.
pub proof fn lemma_pass_minmax_sets_flag(mode: u32)
    ensures
        (mode | PASS_MINMAX) & PASS_MINMAX != 0,
        ((mode | PASS_MINMAX) | PASS_MINMAX) == (mode | PASS_MINMAX),
{
    assert((mode | 8192u32) & 8192u32 != 0) by (bit_vector);
    assert(((mode | 8192u32) | 8192u32) == (mode | 8192u32)) by (bit_vector);
}

/// The pass-through flag changes no bit of the mode except its own.
pub proof fn lemma_pass_minmax_keeps_mode(mode: u32)
    ensures
        (mode | PASS_MINMAX) & !PASS_MINMAX == mode & !PASS_MINMAX,
{
    assert((mode | 8192u32) & !8192u32 == mode & !8192u32) by (bit_vector);
}

} // verus!
