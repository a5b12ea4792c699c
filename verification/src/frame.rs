//! Frame side-data kinds.

use vstd::prelude::*;
use vstd::std_specs::convert::FromSpecImpl;

verus! {
/// Kind of side data attached to a frame, held as its integer value so that
/// kinds a newer libavutil defines remain representable.
#[derive(Clone, Copy, Debug, PartialEq, Eq, Hash, PartialOrd, Ord)]
pub struct AVFrameSideDataType(pub u32);

impl AVFrameSideDataType {
    /// Side data `panscan`.
    #[allow(non_snake_case)]
    pub fn PANSCAN() -> (result: AVFrameSideDataType)
        ensures
            result.0 == 0,
    {
        AVFrameSideDataType(0)
    }

    /// Side data `a53_cc`.
    #[allow(non_snake_case)]
    pub fn A53_CC() -> (result: AVFrameSideDataType)
        ensures
            result.0 == 1,
    {
        AVFrameSideDataType(1)
    }

    /// Side data `stereo3d`.
    #[allow(non_snake_case)]
    pub fn STEREO3D() -> (result: AVFrameSideDataType)
        ensures
            result.0 == 2,
    {
        AVFrameSideDataType(2)
    }

    /// Side data `matrixencoding`.
    #[allow(non_snake_case)]
    pub fn MATRIXENCODING() -> (result: AVFrameSideDataType)
        ensures
            result.0 == 3,
    {
        AVFrameSideDataType(3)
    }

    /// Side data `downmix_info`.
    #[allow(non_snake_case)]
    pub fn DOWNMIX_INFO() -> (result: AVFrameSideDataType)
        ensures
            result.0 == 4,
    {
        AVFrameSideDataType(4)
    }

    /// Side data `replaygain`.
    #[allow(non_snake_case)]
    pub fn REPLAYGAIN() -> (result: AVFrameSideDataType)
        ensures
            result.0 == 5,
    {
        AVFrameSideDataType(5)
    }

    /// Side data `displaymatrix`.
    #[allow(non_snake_case)]
    pub fn DISPLAYMATRIX() -> (result: AVFrameSideDataType)
        ensures
            result.0 == 6,
    {
        AVFrameSideDataType(6)
    }

    /// Side data `afd`.
    #[allow(non_snake_case)]
    pub fn AFD() -> (result: AVFrameSideDataType)
        ensures
            result.0 == 7,
    {
        AVFrameSideDataType(7)
    }

    /// Side data `motion_vectors`.
    #[allow(non_snake_case)]
    pub fn MOTION_VECTORS() -> (result: AVFrameSideDataType)
        ensures
            result.0 == 8,
    {
        AVFrameSideDataType(8)
    }

    /// Side data `skip_samples`.
    #[allow(non_snake_case)]
    pub fn SKIP_SAMPLES() -> (result: AVFrameSideDataType)
        ensures
            result.0 == 9,
    {
        AVFrameSideDataType(9)
    }

    /// Side data `audio_service_type`.
    #[allow(non_snake_case)]
    pub fn AUDIO_SERVICE_TYPE() -> (result: AVFrameSideDataType)
        ensures
            result.0 == 10,
    {
        AVFrameSideDataType(10)
    }

    /// Side data `mastering_display_metadata`.
    #[allow(non_snake_case)]
    pub fn MASTERING_DISPLAY_METADATA() -> (result: AVFrameSideDataType)
        ensures
            result.0 == 11,
    {
        AVFrameSideDataType(11)
    }

    /// Side data `gop_timecode`.
    #[allow(non_snake_case)]
    pub fn GOP_TIMECODE() -> (result: AVFrameSideDataType)
        ensures
            result.0 == 12,
    {
        AVFrameSideDataType(12)
    }

    /// Side data `spherical`.
    #[allow(non_snake_case)]
    pub fn SPHERICAL() -> (result: AVFrameSideDataType)
        ensures
            result.0 == 13,
    {
        AVFrameSideDataType(13)
    }

    /// Side data `content_light_level`.
    #[allow(non_snake_case)]
    pub fn CONTENT_LIGHT_LEVEL() -> (result: AVFrameSideDataType)
        ensures
            result.0 == 14,
    {
        AVFrameSideDataType(14)
    }

    /// Side data `icc_profile`.
    #[allow(non_snake_case)]
    pub fn ICC_PROFILE() -> (result: AVFrameSideDataType)
        ensures
            result.0 == 15,
    {
        AVFrameSideDataType(15)
    }

    /// Side data `s12m_timecode`.
    #[allow(non_snake_case)]
    pub fn S12M_TIMECODE() -> (result: AVFrameSideDataType)
        ensures
            result.0 == 16,
    {
        AVFrameSideDataType(16)
    }

    /// Side data `dynamic_hdr_plus`.
    #[allow(non_snake_case)]
    pub fn DYNAMIC_HDR_PLUS() -> (result: AVFrameSideDataType)
        ensures
            result.0 == 17,
    {
        AVFrameSideDataType(17)
    }

    /// Side data `regions_of_interest`.
    #[allow(non_snake_case)]
    pub fn REGIONS_OF_INTEREST() -> (result: AVFrameSideDataType)
        ensures
            result.0 == 18,
    {
        AVFrameSideDataType(18)
    }

    /// Side data `video_enc_params`.
    #[allow(non_snake_case)]
    pub fn VIDEO_ENC_PARAMS() -> (result: AVFrameSideDataType)
        ensures
            result.0 == 19,
    {
        AVFrameSideDataType(19)
    }

    /// Side data `sei_unregistered`.
    #[allow(non_snake_case)]
    pub fn SEI_UNREGISTERED() -> (result: AVFrameSideDataType)
        ensures
            result.0 == 20,
    {
        AVFrameSideDataType(20)
    }

    /// Side data `film_grain_params`.
    #[allow(non_snake_case)]
    pub fn FILM_GRAIN_PARAMS() -> (result: AVFrameSideDataType)
        ensures
            result.0 == 21,
    {
        AVFrameSideDataType(21)
    }

    /// Side data `detection_bboxes`.
    #[allow(non_snake_case)]
    pub fn DETECTION_BBOXES() -> (result: AVFrameSideDataType)
        ensures
            result.0 == 22,
    {
        AVFrameSideDataType(22)
    }

    /// Side data `dovi_rpu_buffer`.
    #[allow(non_snake_case)]
    pub fn DOVI_RPU_BUFFER() -> (result: AVFrameSideDataType)
        ensures
            result.0 == 23,
    {
        AVFrameSideDataType(23)
    }

    /// Side data `dovi_metadata`.
    #[allow(non_snake_case)]
    pub fn DOVI_METADATA() -> (result: AVFrameSideDataType)
        ensures
            result.0 == 24,
    {
        AVFrameSideDataType(24)
    }

    /// Side data `dynamic_hdr_vivid`.
    #[allow(non_snake_case)]
    pub fn DYNAMIC_HDR_VIVID() -> (result: AVFrameSideDataType)
        ensures
            result.0 == 25,
    {
        AVFrameSideDataType(25)
    }

    /// Side data `ambient_viewing_environment`.
    #[allow(non_snake_case)]
    pub fn AMBIENT_VIEWING_ENVIRONMENT() -> (result: AVFrameSideDataType)
        ensures
            result.0 == 26,
    {
        AVFrameSideDataType(26)
    }

    /// Side data `video_hint`.
    #[allow(non_snake_case)]
    pub fn VIDEO_HINT() -> (result: AVFrameSideDataType)
        ensures
            result.0 == 27,
    {
        AVFrameSideDataType(27)
    }

    /// Side data `lcevc`.
    #[allow(non_snake_case)]
    pub fn LCEVC() -> (result: AVFrameSideDataType)
        ensures
            result.0 == 28,
    {
        AVFrameSideDataType(28)
    }

    /// Side data `view_id`.
    #[allow(non_snake_case)]
    pub fn VIEW_ID() -> (result: AVFrameSideDataType)
        ensures
            result.0 == 29,
    {
        AVFrameSideDataType(29)
    }

    /// Side data `reference_displays_3d`.
    #[allow(non_snake_case)]
    pub fn REFERENCE_DISPLAYS_3D() -> (result: AVFrameSideDataType)
        ensures
            result.0 == 30,
    {
        AVFrameSideDataType(30)
    }

    /// Side data `exif`.
    #[allow(non_snake_case)]
    pub fn EXIF() -> (result: AVFrameSideDataType)
        ensures
            result.0 == 31,
    {
        AVFrameSideDataType(31)
    }

    /// Side data `dynamic_hdr_smpte_2094_app5`.
    #[allow(non_snake_case)]
    pub fn DYNAMIC_HDR_SMPTE_2094_APP5() -> (result: AVFrameSideDataType)
        ensures
            result.0 == 32,
    {
        AVFrameSideDataType(32)
    }

    /// Side data `iamf_mix_gain_param`.
    #[allow(non_snake_case)]
    pub fn IAMF_MIX_GAIN_PARAM() -> (result: AVFrameSideDataType)
        ensures
            result.0 == 33,
    {
        AVFrameSideDataType(33)
    }

    /// Side data `iamf_demixing_info_param`.
    #[allow(non_snake_case)]
    pub fn IAMF_DEMIXING_INFO_PARAM() -> (result: AVFrameSideDataType)
        ensures
            result.0 == 34,
    {
        AVFrameSideDataType(34)
    }

    /// Side data `iamf_recon_gain_info_param`.
    #[allow(non_snake_case)]
    pub fn IAMF_RECON_GAIN_INFO_PARAM() -> (result: AVFrameSideDataType)
        ensures
            result.0 == 35,
    {
        AVFrameSideDataType(35)
    }

    /// Side data `raw_color_params`.
    #[allow(non_snake_case)]
    pub fn RAW_COLOR_PARAMS() -> (result: AVFrameSideDataType)
        ensures
            result.0 == 36,
    {
        AVFrameSideDataType(36)
    }

    /// Side data `downmix_matrix`.
    #[allow(non_snake_case)]
    pub fn DOWNMIX_MATRIX() -> (result: AVFrameSideDataType)
        ensures
            result.0 == 37,
    {
        AVFrameSideDataType(37)
    }

    /// Wraps a raw value, including one unknown to this crate version.
    pub fn from_raw(value: u32) -> (result: AVFrameSideDataType)
        ensures
            result.0 == value,
    {
        AVFrameSideDataType(value)
    }

    /// Returns the raw value libavutil uses.
    pub fn as_raw(self) -> (result: u32)
        ensures
            result == self.0,
    {
        self.0
    }

}

impl From<u32> for AVFrameSideDataType {
    fn from(value: u32) -> (result: AVFrameSideDataType) {
        AVFrameSideDataType::from_raw(value)
    }
}

impl FromSpecImpl<u32> for AVFrameSideDataType {
    open spec fn obeys_from_spec() -> bool {
        true
    }

    open spec fn from_spec(value: u32) -> AVFrameSideDataType {
        AVFrameSideDataType(value)
    }
}

impl From<AVFrameSideDataType> for u32 {
    fn from(value: AVFrameSideDataType) -> (result: u32) {
        value.as_raw()
    }
}

impl FromSpecImpl<AVFrameSideDataType> for u32 {
    open spec fn obeys_from_spec() -> bool {
        true
    }

    open spec fn from_spec(value: AVFrameSideDataType) -> u32 {
        value.0
    }
}

} // verus!
