//! Hardware device and transfer-direction values.

use vstd::prelude::*;
use vstd::std_specs::convert::FromSpecImpl;

verus! {
/// The hardware API backing a device context, held as its integer value so
/// that device types a newer libavutil defines remain representable.
#[derive(Clone, Copy, Debug, PartialEq, Eq, Hash, PartialOrd, Ord)]
pub struct AVHWDeviceType(pub u32);

impl AVHWDeviceType {
    /// Device type `none`.
    #[allow(non_snake_case)]
    pub fn NONE() -> (result: AVHWDeviceType)
        ensures
            result.0 == 0,
    {
        AVHWDeviceType(0)
    }

    /// Device type `vdpau`.
    #[allow(non_snake_case)]
    pub fn VDPAU() -> (result: AVHWDeviceType)
        ensures
            result.0 == 1,
    {
        AVHWDeviceType(1)
    }

    /// Device type `cuda`.
    #[allow(non_snake_case)]
    pub fn CUDA() -> (result: AVHWDeviceType)
        ensures
            result.0 == 2,
    {
        AVHWDeviceType(2)
    }

    /// Device type `vaapi`.
    #[allow(non_snake_case)]
    pub fn VAAPI() -> (result: AVHWDeviceType)
        ensures
            result.0 == 3,
    {
        AVHWDeviceType(3)
    }

    /// Device type `dxva2`.
    #[allow(non_snake_case)]
    pub fn DXVA2() -> (result: AVHWDeviceType)
        ensures
            result.0 == 4,
    {
        AVHWDeviceType(4)
    }

    /// Device type `qsv`.
    #[allow(non_snake_case)]
    pub fn QSV() -> (result: AVHWDeviceType)
        ensures
            result.0 == 5,
    {
        AVHWDeviceType(5)
    }

    /// Device type `videotoolbox`.
    #[allow(non_snake_case)]
    pub fn VIDEOTOOLBOX() -> (result: AVHWDeviceType)
        ensures
            result.0 == 6,
    {
        AVHWDeviceType(6)
    }

    /// Device type `d3d11va`.
    #[allow(non_snake_case)]
    pub fn D3D11VA() -> (result: AVHWDeviceType)
        ensures
            result.0 == 7,
    {
        AVHWDeviceType(7)
    }

    /// Device type `drm`.
    #[allow(non_snake_case)]
    pub fn DRM() -> (result: AVHWDeviceType)
        ensures
            result.0 == 8,
    {
        AVHWDeviceType(8)
    }

    /// Device type `opencl`.
    #[allow(non_snake_case)]
    pub fn OPENCL() -> (result: AVHWDeviceType)
        ensures
            result.0 == 9,
    {
        AVHWDeviceType(9)
    }

    /// Device type `mediacodec`.
    #[allow(non_snake_case)]
    pub fn MEDIACODEC() -> (result: AVHWDeviceType)
        ensures
            result.0 == 10,
    {
        AVHWDeviceType(10)
    }

    /// Device type `vulkan`.
    #[allow(non_snake_case)]
    pub fn VULKAN() -> (result: AVHWDeviceType)
        ensures
            result.0 == 11,
    {
        AVHWDeviceType(11)
    }

    /// Device type `d3d12va`.
    #[allow(non_snake_case)]
    pub fn D3D12VA() -> (result: AVHWDeviceType)
        ensures
            result.0 == 12,
    {
        AVHWDeviceType(12)
    }

    /// Device type `amf`.
    #[allow(non_snake_case)]
    pub fn AMF() -> (result: AVHWDeviceType)
        ensures
            result.0 == 13,
    {
        AVHWDeviceType(13)
    }

    /// Device type `ohcodec`.
    #[allow(non_snake_case)]
    pub fn OHCODEC() -> (result: AVHWDeviceType)
        ensures
            result.0 == 14,
    {
        AVHWDeviceType(14)
    }

    /// Wraps a raw value, including one unknown to this crate version.
    pub fn from_raw(value: u32) -> (result: AVHWDeviceType)
        ensures
            result.0 == value,
    {
        AVHWDeviceType(value)
    }

    /// Returns the raw value libavutil uses.
    pub fn as_raw(self) -> (result: u32)
        ensures
            result == self.0,
    {
        self.0
    }

}

impl From<u32> for AVHWDeviceType {
    fn from(value: u32) -> (result: AVHWDeviceType) {
        AVHWDeviceType::from_raw(value)
    }
}

impl FromSpecImpl<u32> for AVHWDeviceType {
    open spec fn obeys_from_spec() -> bool {
        true
    }

    open spec fn from_spec(value: u32) -> AVHWDeviceType {
        AVHWDeviceType(value)
    }
}

impl From<AVHWDeviceType> for u32 {
    fn from(value: AVHWDeviceType) -> (result: u32) {
        value.as_raw()
    }
}

impl FromSpecImpl<AVHWDeviceType> for u32 {
    open spec fn obeys_from_spec() -> bool {
        true
    }

    open spec fn from_spec(value: AVHWDeviceType) -> u32 {
        value.0
    }
}

/// Whether formats are queried as sources of, or targets for, a hardware
/// frame transfer; unknown values remain representable.
#[derive(Clone, Copy, Debug, PartialEq, Eq, Hash, PartialOrd, Ord)]
pub struct AVHWFrameTransferDirection(pub u32);

impl AVHWFrameTransferDirection {
    /// Transfer the data from the queried hardware frame.
    #[allow(non_snake_case)]
    pub fn FROM() -> (result: AVHWFrameTransferDirection)
        ensures
            result.0 == 0,
    {
        AVHWFrameTransferDirection(0)
    }

    /// Transfer the data to the queried hardware frame.
    #[allow(non_snake_case)]
    pub fn TO() -> (result: AVHWFrameTransferDirection)
        ensures
            result.0 == 1,
    {
        AVHWFrameTransferDirection(1)
    }

    /// Wraps a raw value, including one unknown to this crate version.
    pub fn from_raw(value: u32) -> (result: AVHWFrameTransferDirection)
        ensures
            result.0 == value,
    {
        AVHWFrameTransferDirection(value)
    }

    /// Returns the raw value libavutil uses.
    pub fn as_raw(self) -> (result: u32)
        ensures
            result == self.0,
    {
        self.0
    }

}

impl From<u32> for AVHWFrameTransferDirection {
    fn from(value: u32) -> (result: AVHWFrameTransferDirection) {
        AVHWFrameTransferDirection::from_raw(value)
    }
}

impl FromSpecImpl<u32> for AVHWFrameTransferDirection {
    open spec fn obeys_from_spec() -> bool {
        true
    }

    open spec fn from_spec(value: u32) -> AVHWFrameTransferDirection {
        AVHWFrameTransferDirection(value)
    }
}

impl From<AVHWFrameTransferDirection> for u32 {
    fn from(value: AVHWFrameTransferDirection) -> (result: u32) {
        value.as_raw()
    }
}

impl FromSpecImpl<AVHWFrameTransferDirection> for u32 {
    open spec fn obeys_from_spec() -> bool {
        true
    }

    open spec fn from_spec(value: AVHWFrameTransferDirection) -> u32 {
        value.0
    }
}

} // verus!
