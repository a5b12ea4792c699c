//! Core libavutil API types.

use vstd::prelude::*;
use vstd::std_specs::convert::FromSpecImpl;

verus! {
/// Picture coding type, held as the integer libavutil uses for it.
///
/// The integer newtype keeps values that a newer libavutil may define, rather
/// than turning them into an invalid enumeration value.
#[derive(Clone, Copy, Debug, PartialEq, Eq, Hash, PartialOrd, Ord)]
pub struct AVPictureType(pub u32);

impl AVPictureType {
    /// Undefined picture type.
    #[allow(non_snake_case)]
    pub fn NONE() -> (result: AVPictureType)
        ensures
            result.0 == 0,
    {
        AVPictureType(0)
    }

    /// Intra-coded picture.
    #[allow(non_snake_case)]
    pub fn I() -> (result: AVPictureType)
        ensures
            result.0 == 1,
    {
        AVPictureType(1)
    }

    /// Predicted picture.
    #[allow(non_snake_case)]
    pub fn P() -> (result: AVPictureType)
        ensures
            result.0 == 2,
    {
        AVPictureType(2)
    }

    /// Bidirectionally predicted picture.
    #[allow(non_snake_case)]
    pub fn B() -> (result: AVPictureType)
        ensures
            result.0 == 3,
    {
        AVPictureType(3)
    }

    /// MPEG-4 S(GMC)-VOP picture.
    #[allow(non_snake_case)]
    pub fn S() -> (result: AVPictureType)
        ensures
            result.0 == 4,
    {
        AVPictureType(4)
    }

    /// Switching intra picture.
    #[allow(non_snake_case)]
    pub fn SI() -> (result: AVPictureType)
        ensures
            result.0 == 5,
    {
        AVPictureType(5)
    }

    /// Switching predicted picture.
    #[allow(non_snake_case)]
    pub fn SP() -> (result: AVPictureType)
        ensures
            result.0 == 6,
    {
        AVPictureType(6)
    }

    /// BI picture.
    #[allow(non_snake_case)]
    pub fn BI() -> (result: AVPictureType)
        ensures
            result.0 == 7,
    {
        AVPictureType(7)
    }

    /// Wraps a raw value, including one unknown to this crate version.
    pub fn from_raw(value: u32) -> (result: AVPictureType)
        ensures
            result.0 == value,
    {
        AVPictureType(value)
    }

    /// Returns the raw value libavutil uses.
    pub fn as_raw(self) -> (result: u32)
        ensures
            result == self.0,
    {
        self.0
    }

}

impl Default for AVPictureType {
    fn default() -> (result: AVPictureType)
        ensures
            result.0 == 0,
    {
        AVPictureType(0)
    }
}

impl From<u32> for AVPictureType {
    fn from(value: u32) -> (result: AVPictureType) {
        AVPictureType::from_raw(value)
    }
}

impl FromSpecImpl<u32> for AVPictureType {
    open spec fn obeys_from_spec() -> bool {
        true
    }

    open spec fn from_spec(value: u32) -> AVPictureType {
        AVPictureType(value)
    }
}

impl From<AVPictureType> for u32 {
    fn from(value: AVPictureType) -> (result: u32) {
        value.as_raw()
    }
}

impl FromSpecImpl<AVPictureType> for u32 {
    open spec fn obeys_from_spec() -> bool {
        true
    }

    open spec fn from_spec(value: AVPictureType) -> u32 {
        value.0
    }
}

} // verus!
