use core::mem::{align_of, size_of};

use libavutil::avstring::AVEscapeMode;
use libavutil::avutil::AVPictureType;
use libavutil::channel_layout::{AVChannel, AVChannelOrder};
use libavutil::dovi_meta::AVDOVICompression;
use libavutil::file::AvFileUnmap;
use libavutil::film_grain_params::AVFilmGrainParamsType;
use libavutil::frame::AVFrameSideDataType;
use libavutil::hdr_dynamic_metadata::AVHDRPlusOverlapProcessOption;
use libavutil::hwcontext::{AVHWDeviceType, AVHWFrameTransferDirection};
use libavutil::iamf::{
    AVIAMFAmbisonicsMode, AVIAMFAnimationType, AVIAMFAudioElementType, AVIAMFHeadphonesMode,
    AVIAMFParamDefinitionType, AVIAMFSubmixLayoutType,
};
use libavutil::log::AVClassCategory;
use libavutil::mathematics::AVRounding;

#[test]
fn escape_modes_are_abi_transparent_and_open() {
    assert_eq!(size_of::<AVEscapeMode>(), size_of::<u32>());
    assert_eq!(align_of::<AVEscapeMode>(), align_of::<u32>());

    for (mode, raw) in [
        (AVEscapeMode::AUTO(), 0u32),
        (AVEscapeMode::BACKSLASH(), 1),
        (AVEscapeMode::QUOTE(), 2),
        (AVEscapeMode::XML(), 3),
    ] {
        assert_eq!(mode.as_raw(), raw);
        assert_eq!(AVEscapeMode::from(raw), mode);
    }

    let future = u32::MAX;
    assert_eq!(AVEscapeMode::from_raw(future).as_raw(), future);
}

#[test]
fn layout_matches_the_c_enum() {
    assert_eq!(size_of::<AVPictureType>(), size_of::<u32>());
    assert_eq!(align_of::<AVPictureType>(), align_of::<u32>());
}

#[test]
fn named_values_match_the_bindings() {
    assert_eq!(AVPictureType::NONE().as_raw(), 0);
    assert_eq!(AVPictureType::I().as_raw(), 1);
    assert_eq!(AVPictureType::BI().as_raw(), 7);
}

#[test]
fn avutil_unknown_values_round_trip() {
    let raw = 99;
    assert_eq!(AVPictureType::from_raw(raw).as_raw(), raw);
    assert_eq!(u32::from(AVPictureType::from(raw)), raw);
}

#[test]
fn picture_type_defaults_to_none() {
    assert_eq!(AVPictureType::default(), AVPictureType::NONE());
    assert_eq!(AVPictureType::P().as_raw(), 2);
    assert_eq!(AVPictureType::SP().as_raw(), 6);
}

#[test]
fn channel_order_is_layout_compatible_and_open() {
    assert_eq!(size_of::<AVChannelOrder>(), size_of::<u32>());
    assert_eq!(align_of::<AVChannelOrder>(), align_of::<u32>());
    assert_eq!(AVChannelOrder::AMBISONIC().as_raw(), 3);

    let future = u32::MAX;
    assert_eq!(AVChannelOrder::from_raw(future).as_raw(), future);
}

#[test]
fn avchannel_is_abi_transparent() {
    assert_eq!(size_of::<AVChannel>(), size_of::<i32>());
    assert_eq!(align_of::<AVChannel>(), align_of::<i32>());
    assert_eq!(AVChannel::NONE().as_raw(), -1);
    assert_eq!(AVChannel::FRONT_LEFT().as_raw(), 0);
    assert_eq!(AVChannel::BINAURAL_RIGHT().as_raw(), 62);
}

#[test]
fn every_ambisonic_channel_is_representable() {
    assert_eq!(AVChannel::ambisonic(0), Some(AVChannel::AMBISONIC_BASE()));
    assert_eq!(AVChannel::ambisonic(1023), Some(AVChannel::AMBISONIC_END()));
    assert_eq!(AVChannel::ambisonic(1024), None);
    assert_eq!(
        AVChannel::ambisonic(511).unwrap().ambisonic_index(),
        Some(511)
    );
    assert_eq!(AVChannel::FRONT_LEFT().ambisonic_index(), None);
}

#[test]
fn unknown_c_values_round_trip_without_invalid_discriminants() {
    let value = AVChannel::from_raw(0x123);
    assert_eq!(value.as_raw(), 0x123);
}

#[test]
fn ambisonic_index_undoes_ambisonic_over_the_whole_range() {
    for acn in [0u16, 1, 2, 100, 1022, 1023] {
        let channel = AVChannel::ambisonic(acn).unwrap();
        assert_eq!(channel.as_raw(), 0x400 + i32::from(acn));
        assert_eq!(channel.ambisonic_index(), Some(acn));
    }
    assert_eq!(AVChannel::ambisonic(u16::MAX), None);
    assert_eq!(AVChannel::from_raw(0x3ff).ambisonic_index(), None);
    assert_eq!(AVChannel::from_raw(0x800).ambisonic_index(), None);
    assert_eq!(AVChannel::NONE().ambisonic_index(), None);
}

#[test]
fn compression_values_include_unknown_future_values() {
    assert_eq!(AVDOVICompression::EXTENDED().as_raw(), 3);
    let future = AVDOVICompression::from_raw(99);
    assert_eq!(future.as_raw(), 99);
}

#[test]
fn strategy_is_zero_sized() {
    assert_eq!(core::mem::size_of::<AvFileUnmap>(), 0);
    assert_eq!(
        core::mem::size_of::<core::ptr::NonNull<AvFileUnmap>>(),
        core::mem::size_of::<usize>()
    );
}

#[test]
fn enum_values_and_unknown_values_round_trip() {
    assert_eq!(
        AVFilmGrainParamsType::default(),
        AVFilmGrainParamsType::NONE()
    );
    assert_eq!(AVFilmGrainParamsType::AV1().as_raw(), 1);
    assert_eq!(AVFilmGrainParamsType::H274().as_raw(), 2);
    assert_eq!(AVFilmGrainParamsType::from_raw(91).as_raw(), 91);
}

#[test]
fn side_data_types_are_layout_compatible_and_open() {
    let first = AVFrameSideDataType::from_raw(0);
    let last = AVFrameSideDataType::from_raw(37);

    assert_eq!(first, AVFrameSideDataType::PANSCAN());
    assert_eq!(last, AVFrameSideDataType::DOWNMIX_MATRIX());
    assert_eq!(first.as_raw(), 0);
    assert_eq!(last.as_raw(), 37);
    let future = u32::MAX;
    assert_eq!(AVFrameSideDataType::from_raw(future).as_raw(), future);
    assert_eq!(size_of::<AVFrameSideDataType>(), size_of::<u32>());
    assert_eq!(align_of::<AVFrameSideDataType>(), align_of::<u32>());
}

#[test]
fn overlap_options_and_unknown_values_round_trip() {
    assert_eq!(
        AVHDRPlusOverlapProcessOption::default(),
        AVHDRPlusOverlapProcessOption::WEIGHTED_AVERAGING()
    );
    assert_eq!(AVHDRPlusOverlapProcessOption::LAYERING().as_raw(), 1);
    assert_eq!(AVHDRPlusOverlapProcessOption::from_raw(37).as_raw(), 37);
}

#[test]
fn device_type_is_layout_compatible_and_round_trips() {
    assert_eq!(size_of::<AVHWDeviceType>(), size_of::<u32>());
    assert_eq!(align_of::<AVHWDeviceType>(), align_of::<u32>());
    assert_eq!(AVHWDeviceType::VULKAN().as_raw(), 11);

    let unknown = u32::MAX;
    assert_eq!(AVHWDeviceType::from_raw(unknown).as_raw(), unknown);
}

#[test]
fn transfer_direction_is_layout_compatible_and_round_trips() {
    assert_eq!(size_of::<AVHWFrameTransferDirection>(), size_of::<u32>());
    assert_eq!(align_of::<AVHWFrameTransferDirection>(), align_of::<u32>());
    assert_eq!(AVHWFrameTransferDirection::FROM().as_raw(), 0);

    let unknown = u32::MAX;
    assert_eq!(
        AVHWFrameTransferDirection::from_raw(unknown).as_raw(),
        unknown
    );
}

#[test]
fn wrappers_match_their_c_enum_layouts() {
    assert_eq!(size_of::<AVIAMFAmbisonicsMode>(), size_of::<u32>());
    assert_eq!(align_of::<AVIAMFAmbisonicsMode>(), align_of::<u32>());
    assert_eq!(size_of::<AVIAMFAnimationType>(), size_of::<u32>());
    assert_eq!(size_of::<AVIAMFAudioElementType>(), size_of::<u32>());
    assert_eq!(size_of::<AVIAMFHeadphonesMode>(), size_of::<u32>());
}

#[test]
fn named_values_match_the_c_enumerators() {
    assert_eq!(AVIAMFAmbisonicsMode::MONO().as_raw(), 0);
    assert_eq!(AVIAMFAmbisonicsMode::PROJECTION().as_raw(), 1);

    assert_eq!(AVIAMFAnimationType::STEP().as_raw(), 0);
    assert_eq!(AVIAMFAnimationType::LINEAR().as_raw(), 1);
    assert_eq!(AVIAMFAnimationType::BEZIER().as_raw(), 2);

    assert_eq!(AVIAMFAudioElementType::CHANNEL().as_raw(), 0);
    assert_eq!(AVIAMFAudioElementType::SCENE().as_raw(), 1);

    assert_eq!(AVIAMFHeadphonesMode::STEREO().as_raw(), 0);
    assert_eq!(AVIAMFHeadphonesMode::BINAURAL().as_raw(), 1);
}

#[test]
fn iamf_unknown_values_round_trip() {
    let future = 99;

    assert_eq!(u32::from(AVIAMFAmbisonicsMode::from(future)), future);
    assert_eq!(u32::from(AVIAMFAnimationType::from(future)), future);
    assert_eq!(u32::from(AVIAMFAudioElementType::from(future)), future);
    assert_eq!(u32::from(AVIAMFHeadphonesMode::from(future)), future);
}

#[test]
fn parameter_definition_values_match_c_and_preserve_unknowns() {
    assert_eq!(AVIAMFParamDefinitionType::MIX_GAIN().as_raw(), 0);
    assert_eq!(AVIAMFParamDefinitionType::DEMIXING().as_raw(), 1);
    assert_eq!(AVIAMFParamDefinitionType::RECON_GAIN().as_raw(), 2);
    assert_eq!(AVIAMFParamDefinitionType::from_raw(99).as_raw(), 99);
}

#[test]
fn submix_layout_values_match_c_and_preserve_unknowns() {
    assert_eq!(AVIAMFSubmixLayoutType::LOUDSPEAKERS().as_raw(), 2);
    assert_eq!(AVIAMFSubmixLayoutType::BINAURAL().as_raw(), 3);
    assert_eq!(AVIAMFSubmixLayoutType::from_raw(99).as_raw(), 99);
}

#[test]
fn known_and_future_categories_round_trip() {
    assert_eq!(AVClassCategory::DEVICE_INPUT().as_raw(), 45);
    let future = AVClassCategory::from_raw(10_000);
    assert_eq!(future.as_raw(), 10_000);
}

#[test]
fn mathematics_layout_matches_ffi() {
    assert_eq!(size_of::<AVRounding>(), size_of::<u32>());
    assert_eq!(align_of::<AVRounding>(), align_of::<u32>());
}

#[test]
fn modes_and_pass_through_flag_match_ffi() {
    assert_eq!(AVRounding::ZERO().as_raw(), 0);
    assert_eq!(AVRounding::INF().as_raw(), 1);
    assert_eq!(AVRounding::DOWN().as_raw(), 2);
    assert_eq!(AVRounding::UP().as_raw(), 3);
    assert_eq!(AVRounding::NEAR_INF().as_raw(), 5);

    let mode = AVRounding::UP().with_pass_minmax();
    assert_eq!(mode.as_raw(), 3 | 8192);
    assert!(mode.passes_minmax());
    assert!(!AVRounding::UP().passes_minmax());
}

#[test]
fn pass_through_flag_is_idempotent_and_keeps_the_mode() {
    let once = AVRounding::NEAR_INF().with_pass_minmax();
    let twice = once.with_pass_minmax();
    assert_eq!(once, twice);
    assert_eq!(once.as_raw() & !8192, AVRounding::NEAR_INF().as_raw());
    assert_eq!(u32::from(AVRounding::from(8192u32)), 8192);
    assert!(AVRounding::from_raw(8192).passes_minmax());
}
