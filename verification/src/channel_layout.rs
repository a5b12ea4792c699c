//! Channel identifiers and channel orders.

use vstd::prelude::*;
use vstd::std_specs::convert::FromSpecImpl;

verus! {
/// How the channels of a channel layout are ordered.
///
/// The integer representation keeps values introduced by newer libavutil
/// versions.
#[derive(Clone, Copy, Debug, PartialEq, Eq, Hash, PartialOrd, Ord)]
pub struct AVChannelOrder(pub u32);

impl AVChannelOrder {
    /// Only the channel count is known.
    #[allow(non_snake_case)]
    pub fn UNSPECIFIED() -> (result: AVChannelOrder)
        ensures
            result.0 == 0,
    {
        AVChannelOrder(0)
    }

    /// Channels follow the order of `AVChannel`.
    #[allow(non_snake_case)]
    pub fn NATIVE() -> (result: AVChannelOrder)
        ensures
            result.0 == 1,
    {
        AVChannelOrder(1)
    }

    /// Channels are described by an explicit map.
    #[allow(non_snake_case)]
    pub fn CUSTOM() -> (result: AVChannelOrder)
        ensures
            result.0 == 2,
    {
        AVChannelOrder(2)
    }

    /// Channels contain ACN-ordered spherical-harmonic components.
    #[allow(non_snake_case)]
    pub fn AMBISONIC() -> (result: AVChannelOrder)
        ensures
            result.0 == 3,
    {
        AVChannelOrder(3)
    }

    /// Wraps a raw value, including one unknown to this crate version.
    pub fn from_raw(value: u32) -> (result: AVChannelOrder)
        ensures
            result.0 == value,
    {
        AVChannelOrder(value)
    }

    /// Returns the raw value libavutil uses.
    pub fn as_raw(self) -> (result: u32)
        ensures
            result == self.0,
    {
        self.0
    }

}

impl From<u32> for AVChannelOrder {
    fn from(value: u32) -> (result: AVChannelOrder) {
        AVChannelOrder::from_raw(value)
    }
}

impl FromSpecImpl<u32> for AVChannelOrder {
    open spec fn obeys_from_spec() -> bool {
        true
    }

    open spec fn from_spec(value: u32) -> AVChannelOrder {
        AVChannelOrder(value)
    }
}

impl From<AVChannelOrder> for u32 {
    fn from(value: AVChannelOrder) -> (result: u32) {
        value.as_raw()
    }
}

impl FromSpecImpl<AVChannelOrder> for u32 {
    open spec fn obeys_from_spec() -> bool {
        true
    }

    open spec fn from_spec(value: AVChannelOrder) -> u32 {
        value.0
    }
}

/// The raw value of the first ambisonic channel (ACN 0).
pub const AMBISONIC_FIRST: i32 = 0x400;

/// The number of ambisonic channel numbers the channel enumeration reserves.
pub const AMBISONIC_COUNT: i32 = 0x400;

/// Whether a raw channel value lies in the ambisonic range.
pub open spec fn is_ambisonic(value: int) -> bool {
    AMBISONIC_FIRST <= value <= AMBISONIC_FIRST + AMBISONIC_COUNT - 1
}

/// A channel identifier, held as the integer libavutil uses for it.
///
/// An integer newtype rather than an enumeration: every value in the inclusive
/// ambisonic range `0x400..=0x7ff` is a channel, not only the two named
/// endpoints, and values from newer libavutil versions stay representable.
#[derive(Clone, Copy, Debug, PartialEq, Eq, Hash, PartialOrd, Ord)]
pub struct AVChannel(pub i32);

impl AVChannel {
    /// Channel `none`.
    #[allow(non_snake_case)]
    pub fn NONE() -> (result: AVChannel)
        ensures
            result.0 == -1,
    {
        AVChannel(-1)
    }

    /// Channel `front_left`.
    #[allow(non_snake_case)]
    pub fn FRONT_LEFT() -> (result: AVChannel)
        ensures
            result.0 == 0,
    {
        AVChannel(0)
    }

    /// Channel `front_right`.
    #[allow(non_snake_case)]
    pub fn FRONT_RIGHT() -> (result: AVChannel)
        ensures
            result.0 == 1,
    {
        AVChannel(1)
    }

    /// Channel `front_center`.
    #[allow(non_snake_case)]
    pub fn FRONT_CENTER() -> (result: AVChannel)
        ensures
            result.0 == 2,
    {
        AVChannel(2)
    }

    /// Channel `low_frequency`.
    #[allow(non_snake_case)]
    pub fn LOW_FREQUENCY() -> (result: AVChannel)
        ensures
            result.0 == 3,
    {
        AVChannel(3)
    }

    /// Channel `back_left`.
    #[allow(non_snake_case)]
    pub fn BACK_LEFT() -> (result: AVChannel)
        ensures
            result.0 == 4,
    {
        AVChannel(4)
    }

    /// Channel `back_right`.
    #[allow(non_snake_case)]
    pub fn BACK_RIGHT() -> (result: AVChannel)
        ensures
            result.0 == 5,
    {
        AVChannel(5)
    }

    /// Channel `front_left_of_center`.
    #[allow(non_snake_case)]
    pub fn FRONT_LEFT_OF_CENTER() -> (result: AVChannel)
        ensures
            result.0 == 6,
    {
        AVChannel(6)
    }

    /// Channel `front_right_of_center`.
    #[allow(non_snake_case)]
    pub fn FRONT_RIGHT_OF_CENTER() -> (result: AVChannel)
        ensures
            result.0 == 7,
    {
        AVChannel(7)
    }

    /// Channel `back_center`.
    #[allow(non_snake_case)]
    pub fn BACK_CENTER() -> (result: AVChannel)
        ensures
            result.0 == 8,
    {
        AVChannel(8)
    }

    /// Channel `side_left`.
    #[allow(non_snake_case)]
    pub fn SIDE_LEFT() -> (result: AVChannel)
        ensures
            result.0 == 9,
    {
        AVChannel(9)
    }

    /// Channel `side_right`.
    #[allow(non_snake_case)]
    pub fn SIDE_RIGHT() -> (result: AVChannel)
        ensures
            result.0 == 10,
    {
        AVChannel(10)
    }

    /// Channel `top_center`.
    #[allow(non_snake_case)]
    pub fn TOP_CENTER() -> (result: AVChannel)
        ensures
            result.0 == 11,
    {
        AVChannel(11)
    }

    /// Channel `top_front_left`.
    #[allow(non_snake_case)]
    pub fn TOP_FRONT_LEFT() -> (result: AVChannel)
        ensures
            result.0 == 12,
    {
        AVChannel(12)
    }

    /// Channel `top_front_center`.
    #[allow(non_snake_case)]
    pub fn TOP_FRONT_CENTER() -> (result: AVChannel)
        ensures
            result.0 == 13,
    {
        AVChannel(13)
    }

    /// Channel `top_front_right`.
    #[allow(non_snake_case)]
    pub fn TOP_FRONT_RIGHT() -> (result: AVChannel)
        ensures
            result.0 == 14,
    {
        AVChannel(14)
    }

    /// Channel `top_back_left`.
    #[allow(non_snake_case)]
    pub fn TOP_BACK_LEFT() -> (result: AVChannel)
        ensures
            result.0 == 15,
    {
        AVChannel(15)
    }

    /// Channel `top_back_center`.
    #[allow(non_snake_case)]
    pub fn TOP_BACK_CENTER() -> (result: AVChannel)
        ensures
            result.0 == 16,
    {
        AVChannel(16)
    }

    /// Channel `top_back_right`.
    #[allow(non_snake_case)]
    pub fn TOP_BACK_RIGHT() -> (result: AVChannel)
        ensures
            result.0 == 17,
    {
        AVChannel(17)
    }

    /// Channel `stereo_left`.
    #[allow(non_snake_case)]
    pub fn STEREO_LEFT() -> (result: AVChannel)
        ensures
            result.0 == 29,
    {
        AVChannel(29)
    }

    /// Channel `stereo_right`.
    #[allow(non_snake_case)]
    pub fn STEREO_RIGHT() -> (result: AVChannel)
        ensures
            result.0 == 30,
    {
        AVChannel(30)
    }

    /// Channel `wide_left`.
    #[allow(non_snake_case)]
    pub fn WIDE_LEFT() -> (result: AVChannel)
        ensures
            result.0 == 31,
    {
        AVChannel(31)
    }

    /// Channel `wide_right`.
    #[allow(non_snake_case)]
    pub fn WIDE_RIGHT() -> (result: AVChannel)
        ensures
            result.0 == 32,
    {
        AVChannel(32)
    }

    /// Channel `surround_direct_left`.
    #[allow(non_snake_case)]
    pub fn SURROUND_DIRECT_LEFT() -> (result: AVChannel)
        ensures
            result.0 == 33,
    {
        AVChannel(33)
    }

    /// Channel `surround_direct_right`.
    #[allow(non_snake_case)]
    pub fn SURROUND_DIRECT_RIGHT() -> (result: AVChannel)
        ensures
            result.0 == 34,
    {
        AVChannel(34)
    }

    /// Channel `low_frequency_2`.
    #[allow(non_snake_case)]
    pub fn LOW_FREQUENCY_2() -> (result: AVChannel)
        ensures
            result.0 == 35,
    {
        AVChannel(35)
    }

    /// Channel `top_side_left`.
    #[allow(non_snake_case)]
    pub fn TOP_SIDE_LEFT() -> (result: AVChannel)
        ensures
            result.0 == 36,
    {
        AVChannel(36)
    }

    /// Channel `top_side_right`.
    #[allow(non_snake_case)]
    pub fn TOP_SIDE_RIGHT() -> (result: AVChannel)
        ensures
            result.0 == 37,
    {
        AVChannel(37)
    }

    /// Channel `bottom_front_center`.
    #[allow(non_snake_case)]
    pub fn BOTTOM_FRONT_CENTER() -> (result: AVChannel)
        ensures
            result.0 == 38,
    {
        AVChannel(38)
    }

    /// Channel `bottom_front_left`.
    #[allow(non_snake_case)]
    pub fn BOTTOM_FRONT_LEFT() -> (result: AVChannel)
        ensures
            result.0 == 39,
    {
        AVChannel(39)
    }

    /// Channel `bottom_front_right`.
    #[allow(non_snake_case)]
    pub fn BOTTOM_FRONT_RIGHT() -> (result: AVChannel)
        ensures
            result.0 == 40,
    {
        AVChannel(40)
    }

    /// Channel `side_surround_left`.
    #[allow(non_snake_case)]
    pub fn SIDE_SURROUND_LEFT() -> (result: AVChannel)
        ensures
            result.0 == 41,
    {
        AVChannel(41)
    }

    /// Channel `side_surround_right`.
    #[allow(non_snake_case)]
    pub fn SIDE_SURROUND_RIGHT() -> (result: AVChannel)
        ensures
            result.0 == 42,
    {
        AVChannel(42)
    }

    /// Channel `top_surround_left`.
    #[allow(non_snake_case)]
    pub fn TOP_SURROUND_LEFT() -> (result: AVChannel)
        ensures
            result.0 == 43,
    {
        AVChannel(43)
    }

    /// Channel `top_surround_right`.
    #[allow(non_snake_case)]
    pub fn TOP_SURROUND_RIGHT() -> (result: AVChannel)
        ensures
            result.0 == 44,
    {
        AVChannel(44)
    }

    /// Channel `binaural_left`.
    #[allow(non_snake_case)]
    pub fn BINAURAL_LEFT() -> (result: AVChannel)
        ensures
            result.0 == 61,
    {
        AVChannel(61)
    }

    /// Channel `binaural_right`.
    #[allow(non_snake_case)]
    pub fn BINAURAL_RIGHT() -> (result: AVChannel)
        ensures
            result.0 == 62,
    {
        AVChannel(62)
    }

    /// Channel `unused`.
    #[allow(non_snake_case)]
    pub fn UNUSED() -> (result: AVChannel)
        ensures
            result.0 == 512,
    {
        AVChannel(512)
    }

    /// Channel `unknown`.
    #[allow(non_snake_case)]
    pub fn UNKNOWN() -> (result: AVChannel)
        ensures
            result.0 == 768,
    {
        AVChannel(768)
    }

    /// Channel `ambisonic_base`.
    #[allow(non_snake_case)]
    pub fn AMBISONIC_BASE() -> (result: AVChannel)
        ensures
            result.0 == 1024,
    {
        AVChannel(1024)
    }

    /// Channel `ambisonic_end`.
    #[allow(non_snake_case)]
    pub fn AMBISONIC_END() -> (result: AVChannel)
        ensures
            result.0 == 2047,
    {
        AVChannel(2047)
    }

    /// Wraps a raw value, including one unknown to this crate version.
    pub fn from_raw(value: i32) -> (result: AVChannel)
        ensures
            result.0 == value,
    {
        AVChannel(value)
    }

    /// Returns the raw value libavutil uses.
    pub fn as_raw(self) -> (result: i32)
        ensures
            result == self.0,
    {
        self.0
    }

    /// The channel for an Ambisonic Channel Number, when it lies inside the
    /// ambisonic range `AMBISONIC_BASE..=AMBISONIC_END`.
    pub fn ambisonic(acn: u16) -> (result: Option<AVChannel>)
        ensures
            acn <= AMBISONIC_COUNT - 1 ==> result == Some(AVChannel((AMBISONIC_FIRST + acn) as i32)),
            acn > AMBISONIC_COUNT - 1 ==> result is None,
    {
        let value: i32 = 0x400i32 + acn as i32;
        if value <= 0x7ffi32 {
            Some(AVChannel(value))
        } else {
            None
        }
    }

    /// This channel's Ambisonic Channel Number, when it is an ambisonic channel.
    pub fn ambisonic_index(self) -> (result: Option<u16>)
        ensures
            is_ambisonic(self.0 as int) ==> result == Some((self.0 - AMBISONIC_FIRST) as u16),
            !is_ambisonic(self.0 as int) ==> result is None,
    {
        if self.0 >= 0x400i32 && self.0 <= 0x7ffi32 {
            Some((self.0 - 0x400i32) as u16)
        } else {
            None
        }
    }

}

impl From<i32> for AVChannel {
    fn from(value: i32) -> (result: AVChannel) {
        AVChannel::from_raw(value)
    }
}

impl FromSpecImpl<i32> for AVChannel {
    open spec fn obeys_from_spec() -> bool {
        true
    }

    open spec fn from_spec(value: i32) -> AVChannel {
        AVChannel(value)
    }
}

impl From<AVChannel> for i32 {
    fn from(value: AVChannel) -> (result: i32) {
        value.as_raw()
    }
}

impl FromSpecImpl<AVChannel> for i32 {
    open spec fn obeys_from_spec() -> bool {
        true
    }

    open spec fn from_spec(value: AVChannel) -> i32 {
        value.0
    }
}

/// Every ambisonic channel number that fits the range names a channel whose
/// index is that same number: `ambisonic_index` undoes `ambisonic`.
pub proof fn lemma_ambisonic_round_trip(acn: u16)
    requires
        acn < AMBISONIC_COUNT,
    ensures
        is_ambisonic(AMBISONIC_FIRST + acn),
        (AMBISONIC_FIRST + acn - AMBISONIC_FIRST) as u16 == acn,
{
}

} // verus!
