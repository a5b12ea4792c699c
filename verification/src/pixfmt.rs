//! Pixel formats and color ranges the image helpers take.

use vstd::prelude::*;
use vstd::std_specs::convert::FromSpecImpl;

verus! {
/// A pixel format, held as the integer libavutil uses for it so that formats
/// a newer libavutil defines remain representable.
#[derive(Clone, Copy, Debug, PartialEq, Eq, Hash, PartialOrd, Ord)]
pub struct AVPixelFormat(pub i32);

impl AVPixelFormat {
    /// No pixel format.
    #[allow(non_snake_case)]
    pub fn NONE() -> (result: AVPixelFormat)
        ensures
            result.0 == -1,
    {
        AVPixelFormat(-1)
    }

    /// Planar YUV 4:2:0, 12 bits per pixel.
    #[allow(non_snake_case)]
    pub fn YUV420P() -> (result: AVPixelFormat)
        ensures
            result.0 == 0,
    {
        AVPixelFormat(0)
    }

    /// Packed YUV 4:2:2, 16 bits per pixel.
    #[allow(non_snake_case)]
    pub fn YUYV422() -> (result: AVPixelFormat)
        ensures
            result.0 == 1,
    {
        AVPixelFormat(1)
    }

    /// Packed RGB 8:8:8, 24 bits per pixel.
    #[allow(non_snake_case)]
    pub fn RGB24() -> (result: AVPixelFormat)
        ensures
            result.0 == 2,
    {
        AVPixelFormat(2)
    }

    /// Packed BGR 8:8:8, 24 bits per pixel.
    #[allow(non_snake_case)]
    pub fn BGR24() -> (result: AVPixelFormat)
        ensures
            result.0 == 3,
    {
        AVPixelFormat(3)
    }

    /// Planar YUV 4:2:2, 16 bits per pixel.
    #[allow(non_snake_case)]
    pub fn YUV422P() -> (result: AVPixelFormat)
        ensures
            result.0 == 4,
    {
        AVPixelFormat(4)
    }

    /// Planar YUV 4:4:4, 24 bits per pixel.
    #[allow(non_snake_case)]
    pub fn YUV444P() -> (result: AVPixelFormat)
        ensures
            result.0 == 5,
    {
        AVPixelFormat(5)
    }

    /// Grayscale, 8 bits per pixel.
    #[allow(non_snake_case)]
    pub fn GRAY8() -> (result: AVPixelFormat)
        ensures
            result.0 == 8,
    {
        AVPixelFormat(8)
    }

    /// Wraps a raw value, including one unknown to this crate version.
    pub fn from_raw(value: i32) -> (result: AVPixelFormat)
        ensures
            result.0 == value,
    {
        AVPixelFormat(value)
    }

    /// Returns the raw value libavutil uses.
    pub fn as_raw(self) -> (result: i32)
        ensures
            result == self.0,
    {
        self.0
    }

}

impl From<i32> for AVPixelFormat {
    fn from(value: i32) -> (result: AVPixelFormat) {
        AVPixelFormat::from_raw(value)
    }
}

impl FromSpecImpl<i32> for AVPixelFormat {
    open spec fn obeys_from_spec() -> bool {
        true
    }

    open spec fn from_spec(value: i32) -> AVPixelFormat {
        AVPixelFormat(value)
    }
}

impl From<AVPixelFormat> for i32 {
    fn from(value: AVPixelFormat) -> (result: i32) {
        value.as_raw()
    }
}

impl FromSpecImpl<AVPixelFormat> for i32 {
    open spec fn obeys_from_spec() -> bool {
        true
    }

    open spec fn from_spec(value: AVPixelFormat) -> i32 {
        value.0
    }
}

/// The value range of color samples, held as its integer value.
#[derive(Clone, Copy, Debug, PartialEq, Eq, Hash, PartialOrd, Ord)]
pub struct AVColorRange(pub u32);

impl AVColorRange {
    /// Range not specified.
    #[allow(non_snake_case)]
    pub fn UNSPECIFIED() -> (result: AVColorRange)
        ensures
            result.0 == 0,
    {
        AVColorRange(0)
    }

    /// Narrow (limited) range.
    #[allow(non_snake_case)]
    pub fn MPEG() -> (result: AVColorRange)
        ensures
            result.0 == 1,
    {
        AVColorRange(1)
    }

    /// Full range.
    #[allow(non_snake_case)]
    pub fn JPEG() -> (result: AVColorRange)
        ensures
            result.0 == 2,
    {
        AVColorRange(2)
    }

    /// Wraps a raw value, including one unknown to this crate version.
    pub fn from_raw(value: u32) -> (result: AVColorRange)
        ensures
            result.0 == value,
    {
        AVColorRange(value)
    }

    /// Returns the raw value libavutil uses.
    pub fn as_raw(self) -> (result: u32)
        ensures
            result == self.0,
    {
        self.0
    }

}

impl From<u32> for AVColorRange {
    fn from(value: u32) -> (result: AVColorRange) {
        AVColorRange::from_raw(value)
    }
}

impl FromSpecImpl<u32> for AVColorRange {
    open spec fn obeys_from_spec() -> bool {
        true
    }

    open spec fn from_spec(value: u32) -> AVColorRange {
        AVColorRange(value)
    }
}

impl From<AVColorRange> for u32 {
    fn from(value: AVColorRange) -> (result: u32) {
        value.as_raw()
    }
}

impl FromSpecImpl<AVColorRange> for u32 {
    open spec fn obeys_from_spec() -> bool {
        true
    }

    open spec fn from_spec(value: AVColorRange) -> u32 {
        value.0
    }
}

} // verus!
