//! Dolby Vision metadata values.

use vstd::prelude::*;
use vstd::std_specs::convert::FromSpecImpl;

verus! {
/// Dolby Vision metadata compression method, held as its integer value so
/// that methods a newer libavutil defines remain representable.
#[derive(Clone, Copy, Debug, PartialEq, Eq, Hash, PartialOrd, Ord)]
pub struct AVDOVICompression(pub u32);

impl AVDOVICompression {
    /// No compression.
    #[allow(non_snake_case)]
    pub fn NONE() -> (result: AVDOVICompression)
        ensures
            result.0 == 0,
    {
        AVDOVICompression(0)
    }

    /// Limited compression.
    #[allow(non_snake_case)]
    pub fn LIMITED() -> (result: AVDOVICompression)
        ensures
            result.0 == 1,
    {
        AVDOVICompression(1)
    }

    /// Reserved value.
    #[allow(non_snake_case)]
    pub fn RESERVED() -> (result: AVDOVICompression)
        ensures
            result.0 == 2,
    {
        AVDOVICompression(2)
    }

    /// Extended compression.
    #[allow(non_snake_case)]
    pub fn EXTENDED() -> (result: AVDOVICompression)
        ensures
            result.0 == 3,
    {
        AVDOVICompression(3)
    }

    /// Wraps a raw value, including one unknown to this crate version.
    pub fn from_raw(value: u32) -> (result: AVDOVICompression)
        ensures
            result.0 == value,
    {
        AVDOVICompression(value)
    }

    /// Returns the raw value libavutil uses.
    pub fn as_raw(self) -> (result: u32)
        ensures
            result == self.0,
    {
        self.0
    }

}

impl From<u32> for AVDOVICompression {
    fn from(value: u32) -> (result: AVDOVICompression) {
        AVDOVICompression::from_raw(value)
    }
}

impl FromSpecImpl<u32> for AVDOVICompression {
    open spec fn obeys_from_spec() -> bool {
        true
    }

    open spec fn from_spec(value: u32) -> AVDOVICompression {
        AVDOVICompression(value)
    }
}

impl From<AVDOVICompression> for u32 {
    fn from(value: AVDOVICompression) -> (result: u32) {
        value.as_raw()
    }
}

impl FromSpecImpl<AVDOVICompression> for u32 {
    open spec fn obeys_from_spec() -> bool {
        true
    }

    open spec fn from_spec(value: AVDOVICompression) -> u32 {
        value.0
    }
}

} // verus!
