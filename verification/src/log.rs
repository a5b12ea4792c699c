//! Logging classes: their categories and the checks around class
//! callbacks.

use vstd::prelude::*;
use vstd::std_specs::convert::FromSpecImpl;

verus! {

/// The kind of component a class describes, held as its integer value so that
/// categories a newer libavutil defines remain representable.
#[derive(Clone, Copy, Debug, PartialEq, Eq, Hash, PartialOrd, Ord)]
pub struct AVClassCategory(pub u32);

impl AVClassCategory {
    /// Category `na`.
    #[allow(non_snake_case)]
    pub fn NA() -> (result: AVClassCategory)
        ensures
            result.0 == 0,
    {
        AVClassCategory(0)
    }

    /// Category `input`.
    #[allow(non_snake_case)]
    pub fn INPUT() -> (result: AVClassCategory)
        ensures
            result.0 == 1,
    {
        AVClassCategory(1)
    }

    /// Category `output`.
    #[allow(non_snake_case)]
    pub fn OUTPUT() -> (result: AVClassCategory)
        ensures
            result.0 == 2,
    {
        AVClassCategory(2)
    }

    /// Category `muxer`.
    #[allow(non_snake_case)]
    pub fn MUXER() -> (result: AVClassCategory)
        ensures
            result.0 == 3,
    {
        AVClassCategory(3)
    }

    /// Category `demuxer`.
    #[allow(non_snake_case)]
    pub fn DEMUXER() -> (result: AVClassCategory)
        ensures
            result.0 == 4,
    {
        AVClassCategory(4)
    }

    /// Category `encoder`.
    #[allow(non_snake_case)]
    pub fn ENCODER() -> (result: AVClassCategory)
        ensures
            result.0 == 5,
    {
        AVClassCategory(5)
    }

    /// Category `decoder`.
    #[allow(non_snake_case)]
    pub fn DECODER() -> (result: AVClassCategory)
        ensures
            result.0 == 6,
    {
        AVClassCategory(6)
    }

    /// Category `filter`.
    #[allow(non_snake_case)]
    pub fn FILTER() -> (result: AVClassCategory)
        ensures
            result.0 == 7,
    {
        AVClassCategory(7)
    }

    /// Category `bitstream_filter`.
    #[allow(non_snake_case)]
    pub fn BITSTREAM_FILTER() -> (result: AVClassCategory)
        ensures
            result.0 == 8,
    {
        AVClassCategory(8)
    }

    /// Category `swscaler`.
    #[allow(non_snake_case)]
    pub fn SWSCALER() -> (result: AVClassCategory)
        ensures
            result.0 == 9,
    {
        AVClassCategory(9)
    }

    /// Category `swresampler`.
    #[allow(non_snake_case)]
    pub fn SWRESAMPLER() -> (result: AVClassCategory)
        ensures
            result.0 == 10,
    {
        AVClassCategory(10)
    }

    /// Category `hwdevice`.
    #[allow(non_snake_case)]
    pub fn HWDEVICE() -> (result: AVClassCategory)
        ensures
            result.0 == 11,
    {
        AVClassCategory(11)
    }

    /// Category `device_video_output`.
    #[allow(non_snake_case)]
    pub fn DEVICE_VIDEO_OUTPUT() -> (result: AVClassCategory)
        ensures
            result.0 == 40,
    {
        AVClassCategory(40)
    }

    /// Category `device_video_input`.
    #[allow(non_snake_case)]
    pub fn DEVICE_VIDEO_INPUT() -> (result: AVClassCategory)
        ensures
            result.0 == 41,
    {
        AVClassCategory(41)
    }

    /// Category `device_audio_output`.
    #[allow(non_snake_case)]
    pub fn DEVICE_AUDIO_OUTPUT() -> (result: AVClassCategory)
        ensures
            result.0 == 42,
    {
        AVClassCategory(42)
    }

    /// Category `device_audio_input`.
    #[allow(non_snake_case)]
    pub fn DEVICE_AUDIO_INPUT() -> (result: AVClassCategory)
        ensures
            result.0 == 43,
    {
        AVClassCategory(43)
    }

    /// Category `device_output`.
    #[allow(non_snake_case)]
    pub fn DEVICE_OUTPUT() -> (result: AVClassCategory)
        ensures
            result.0 == 44,
    {
        AVClassCategory(44)
    }

    /// Category `device_input`.
    #[allow(non_snake_case)]
    pub fn DEVICE_INPUT() -> (result: AVClassCategory)
        ensures
            result.0 == 45,
    {
        AVClassCategory(45)
    }

    /// Wraps a raw value, including one unknown to this crate version.
    pub fn from_raw(value: u32) -> (result: AVClassCategory)
        ensures
            result.0 == value,
    {
        AVClassCategory(value)
    }

    /// Returns the raw value libavutil uses.
    pub fn as_raw(self) -> (result: u32)
        ensures
            result == self.0,
    {
        self.0
    }

}

impl From<u32> for AVClassCategory {
    fn from(value: u32) -> (result: AVClassCategory) {
        AVClassCategory::from_raw(value)
    }
}

impl FromSpecImpl<u32> for AVClassCategory {
    open spec fn obeys_from_spec() -> bool {
        true
    }

    open spec fn from_spec(value: u32) -> AVClassCategory {
        AVClassCategory(value)
    }
}

impl From<AVClassCategory> for u32 {
    fn from(value: AVClassCategory) -> (result: u32) {
        value.as_raw()
    }
}

impl FromSpecImpl<AVClassCategory> for u32 {
    open spec fn obeys_from_spec() -> bool {
        true
    }

    open spec fn from_spec(value: AVClassCategory) -> u32 {
        value.0
    }
}

/// Why a class callback was not invoked, or failed.
#[derive(Clone, Copy, Debug, PartialEq, Eq)]
pub enum AVClassCallbackError {
    /// The object is governed by a different class than the callback.
    ContextClassMismatch,
    /// The callback returned this negative libavutil error code.
    Library(i32),
    /// A successful range callback returned no ranges.
    NullResult,
}

/// The flag asking a range query for one range per component.
pub const AV_OPT_MULTI_COMPONENT_RANGE: i32 = 4096;

/// Checks that an object is governed by the class whose callback is about to
/// run. Classes are compared by identity: `object_class` is the class the
/// object names, `callback_class` the one the callback came from.
pub fn check_context_class(object_class: usize, callback_class: usize) -> (result: Result<
    (),
    AVClassCallbackError,
>)
    ensures
        object_class == callback_class ==> result == Ok::<(), AVClassCallbackError>(()),
        object_class != callback_class ==> result == Err::<(), AVClassCallbackError>(
            AVClassCallbackError::ContextClassMismatch,
        ),
{
    if object_class == callback_class {
        Ok(())
    } else {
        Err(AVClassCallbackError::ContextClassMismatch)
    }
}

/// The outcome of a class's range query, from the status it returned and
/// whether it returned ranges: a negative status is its error, missing
/// ranges after success are `NullResult`, and otherwise the number of
/// components the ranges cover — the status itself when `flags` asked for
/// one range per component, else one.
pub fn query_ranges_outcome(status: i32, ranges_present: bool, flags: i32) -> (result: Result<
    i32,
    AVClassCallbackError,
>)
    ensures
        status < 0 ==> result == Err::<i32, AVClassCallbackError>(
            AVClassCallbackError::Library(status),
        ),
        status >= 0 && !ranges_present ==> result == Err::<i32, AVClassCallbackError>(
            AVClassCallbackError::NullResult,
        ),
        status >= 0 && ranges_present && flags & AV_OPT_MULTI_COMPONENT_RANGE == 0 ==> result
            == Ok::<i32, AVClassCallbackError>(1),
        status >= 0 && ranges_present && flags & AV_OPT_MULTI_COMPONENT_RANGE != 0 ==> result
            == Ok::<i32, AVClassCallbackError>(status),
{
    if status < 0 {
        return Err(AVClassCallbackError::Library(status));
    }
    if !ranges_present {
        return Err(AVClassCallbackError::NullResult);
    }
    if flags & 4096i32 == 0 {
        Ok(1)
    } else {
        Ok(status)
    }
}

} // verus!
