//! HDR10+ dynamic metadata values.

use vstd::prelude::*;
use vstd::std_specs::convert::FromSpecImpl;

verus! {
/// How overlapping HDR10+ processing windows are combined, held as its
/// integer value so that unknown options remain representable.
#[derive(Clone, Copy, Debug, PartialEq, Eq, Hash, PartialOrd, Ord)]
pub struct AVHDRPlusOverlapProcessOption(pub u32);

impl AVHDRPlusOverlapProcessOption {
    /// Blend contributions from every overlapping processing window.
    #[allow(non_snake_case)]
    pub fn WEIGHTED_AVERAGING() -> (result: AVHDRPlusOverlapProcessOption)
        ensures
            result.0 == 0,
    {
        AVHDRPlusOverlapProcessOption(0)
    }

    /// Apply overlapping processing windows in layers.
    #[allow(non_snake_case)]
    pub fn LAYERING() -> (result: AVHDRPlusOverlapProcessOption)
        ensures
            result.0 == 1,
    {
        AVHDRPlusOverlapProcessOption(1)
    }

    /// Wraps a raw value, including one unknown to this crate version.
    pub fn from_raw(value: u32) -> (result: AVHDRPlusOverlapProcessOption)
        ensures
            result.0 == value,
    {
        AVHDRPlusOverlapProcessOption(value)
    }

    /// Returns the raw value libavutil uses.
    pub fn as_raw(self) -> (result: u32)
        ensures
            result == self.0,
    {
        self.0
    }

}

impl Default for AVHDRPlusOverlapProcessOption {
    fn default() -> (result: AVHDRPlusOverlapProcessOption)
        ensures
            result.0 == 0,
    {
        AVHDRPlusOverlapProcessOption(0)
    }
}

impl From<u32> for AVHDRPlusOverlapProcessOption {
    fn from(value: u32) -> (result: AVHDRPlusOverlapProcessOption) {
        AVHDRPlusOverlapProcessOption::from_raw(value)
    }
}

impl FromSpecImpl<u32> for AVHDRPlusOverlapProcessOption {
    open spec fn obeys_from_spec() -> bool {
        true
    }

    open spec fn from_spec(value: u32) -> AVHDRPlusOverlapProcessOption {
        AVHDRPlusOverlapProcessOption(value)
    }
}

impl From<AVHDRPlusOverlapProcessOption> for u32 {
    fn from(value: AVHDRPlusOverlapProcessOption) -> (result: u32) {
        value.as_raw()
    }
}

impl FromSpecImpl<AVHDRPlusOverlapProcessOption> for u32 {
    open spec fn obeys_from_spec() -> bool {
        true
    }

    open spec fn from_spec(value: AVHDRPlusOverlapProcessOption) -> u32 {
        value.0
    }
}

} // verus!
