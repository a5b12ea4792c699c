use libavutil::avstring::{
    av_asprintf, av_basename, av_dirname, av_isdigit, av_isgraph, av_isspace, av_isxdigit,
    AsprintfError, InvalidPathBuffer,
};
use libavutil::bprint::{append_data_size, borrowed_storage_size, AVBPrintRef, BPrintLengthOverflow};
use libavutil::buffer::AVBufferReference;
use libavutil::common::{
    av_ceil_log2_c, av_clip64_c, av_clip_c, av_clip_int16_c, av_clip_int8_c, av_clip_intp2_c,
    av_clip_uint16_c, av_clip_uint8_c, av_clip_uintp2_c, av_clipl_int32_c,
};
use libavutil::dict::{copy_flags, previous_pointer, status_result, DictionaryEntry, DictionaryEntryMismatch};
use libavutil::file::file_map_outcome;
use libavutil::film_grain_params::AVFilmGrainH274Params;
use libavutil::hash::{check_b64_output, check_full_digest_output, output_size};
use libavutil::iamf::{
    av_iamf_param_definition_get_subblock, av_iamf_param_definition_get_subblock_mut,
    AVIAMFLayers, AVIAMFParamDefinitionRef, AVIAMFParamDefinitionType, AVIAMFParamSubblockMut,
    AVIAMFParamSubblockRef, AVIAMFSubmixes, AVIAMFSubmixesMut,
};
use libavutil::imgutils::{
    AllocatedImage,     av_image_copy_plane, av_image_copy_plane_uc_from, check_alignment, check_alloc_alignment,
    check_fill_height, check_layout_extent, plane_extent, size_result, ImageError, ImagePlanes,
    ImagePointers, MAX_ALIGNMENT,
};
use libavutil::log::{check_context_class, query_ranges_outcome, AVClassCallbackError};
use libavutil::mem::{
    av_dynarray2_add, av_dynarray_add, av_dynarray_add_nofree, av_freep, av_memcpy_backptr,
    AvByteDynArray, AvDynArray, BackPointerError, DynArray2AddError, DynArrayAddError,
};
use libavutil::pixfmt::AVPixelFormat;

#[test]
fn clips_integer_and_float_ranges() {
    assert_eq!(av_clip_c(12, 0, 10), Some(10));
    assert_eq!(av_clip64_c(-2, 0, 10), Some(0));
    assert_eq!(av_clip_c(1, 2, 0), None);
    assert_eq!(av_clip_uint8_c(300), 255);
    assert_eq!(av_clip_int8_c(-200), -128);
    assert_eq!(av_clipl_int32_c(i64::MAX), i32::MAX);
}

#[test]
fn checks_power_of_two_shift_domains() {
    assert_eq!(av_clip_intp2_c(100, 3), Some(7));
    assert_eq!(av_clip_intp2_c(1, 31), None);
    assert_eq!(av_clip_uintp2_c(-1, 8), Some(0));
    assert_eq!(av_clip_uintp2_c(1, 32), None);
    assert_eq!(av_ceil_log2_c(9), 4);
}

#[test]
fn clipping_to_each_integer_width() {
    assert_eq!(av_clip_int16_c(40_000), i16::MAX);
    assert_eq!(av_clip_int16_c(-40_000), i16::MIN);
    assert_eq!(av_clip_int16_c(-5), -5);
    assert_eq!(av_clip_uint16_c(-1), 0);
    assert_eq!(av_clip_uint16_c(70_000), u16::MAX);
    assert_eq!(av_clip_uint16_c(1234), 1234);
    assert_eq!(av_clip_uint8_c(-7), 0);
    assert_eq!(av_clip_uint8_c(128), 128);
    assert_eq!(av_clip_int8_c(127), 127);
    assert_eq!(av_clip_int8_c(200), 127);
    assert_eq!(av_clipl_int32_c(i64::MIN), i32::MIN);
    assert_eq!(av_clipl_int32_c(-17), -17);
    assert_eq!(av_clip_intp2_c(-100, 3), Some(-8));
    assert_eq!(av_clip_intp2_c(5, 30), Some(5));
    assert_eq!(av_clip_intp2_c(i32::MAX, 30), Some((1 << 30) - 1));
    assert_eq!(av_clip_uintp2_c(i32::MAX, 31), Some(i32::MAX as u32));
    assert_eq!(av_clip_uintp2_c(300, 8), Some(255));
    assert_eq!(av_clip64_c(i64::MAX, -1, 1), Some(1));
    assert_eq!(av_clip64_c(0, 1, -1), None);
}

#[test]
fn clipping_twice_is_clipping_once() {
    for value in [-1000, -3, 0, 4, 99, 1000] {
        let once = av_clip_c(value, -5, 50).unwrap();
        assert_eq!(av_clip_c(once, -5, 50), Some(once));
        assert!((-5..=50).contains(&once));
    }
}

#[test]
fn ceil_log2_rounds_up_to_a_power_of_two() {
    assert_eq!(av_ceil_log2_c(1), 0);
    assert_eq!(av_ceil_log2_c(2), 1);
    assert_eq!(av_ceil_log2_c(3), 2);
    assert_eq!(av_ceil_log2_c(8), 3);
    assert_eq!(av_ceil_log2_c(1 << 20), 20);
    assert_eq!(av_ceil_log2_c((1 << 20) + 1), 21);
    assert_eq!(av_ceil_log2_c(0), 31);
    assert_eq!(av_ceil_log2_c(i32::MIN), 31);
    assert_eq!(av_ceil_log2_c(i32::MAX), 31);
}

#[test]
fn validates_formats_and_ascii_classes() {
    assert_eq!(av_asprintf(b"100%% ready").unwrap(), b"100% ready".to_vec());
    assert_eq!(
        av_asprintf(b"%s").unwrap_err(),
        AsprintfError::UnsupportedFormatSpecifier
    );
    assert!(av_isdigit(b'7' as i32));
    assert!(av_isxdigit(b'F' as i32));
    assert!(av_isspace(b'\n' as i32));
    assert!(av_isgraph(b'!' as i32));
}

#[test]
fn asprintf_edge_cases() {
    assert_eq!(av_asprintf(b"").unwrap(), Vec::<u8>::new());
    assert_eq!(av_asprintf(b"%%%%").unwrap(), b"%%".to_vec());
    assert_eq!(av_asprintf(b"plain").unwrap(), b"plain".to_vec());
    assert_eq!(
        av_asprintf(b"50%").unwrap_err(),
        AsprintfError::UnsupportedFormatSpecifier
    );
    assert_eq!(
        av_asprintf(b"%%%d").unwrap_err(),
        AsprintfError::UnsupportedFormatSpecifier
    );
}

#[test]
fn ascii_classes_reject_their_neighbours() {
    assert!(!av_isdigit(b'/' as i32));
    assert!(!av_isdigit(b':' as i32));
    assert!(!av_isxdigit(b'g' as i32));
    assert!(!av_isxdigit(b'G' as i32));
    assert!(av_isxdigit(b'a' as i32));
    assert!(!av_isgraph(b' ' as i32));
    assert!(!av_isgraph(127));
    assert!(av_isgraph(b'~' as i32));
    for space in [b' ', b'\t', b'\n', 0x0b, 0x0c, b'\r'] {
        assert!(av_isspace(space as i32));
    }
    assert!(!av_isspace(b'a' as i32));
    assert!(!av_isdigit(-1));
}

#[test]
fn borrows_path_components() {
    assert_eq!(av_basename(Some(b"/a/b")), b"b".to_vec());
    assert_eq!(av_basename(None), b".".to_vec());
    let mut path = *b"/a/b\0";
    assert_eq!(av_dirname(Some(&mut path)), Ok(b"/a".to_vec()));
    assert_eq!(&path, b"/a\0b\0");
    assert_eq!(av_dirname(None), Ok(b".".to_vec()));
}

#[test]
fn path_components_without_separators() {
    assert_eq!(av_basename(Some(b"")), b".".to_vec());
    assert_eq!(av_basename(Some(b"file")), b"file".to_vec());
    assert_eq!(av_basename(Some(b"dir/")), Vec::<u8>::new());
    let mut plain = *b"file\0";
    assert_eq!(av_dirname(Some(&mut plain)), Ok(b".".to_vec()));
    assert_eq!(&plain, b"file\0");
    let mut root = *b"/x\0";
    assert_eq!(av_dirname(Some(&mut root)), Ok(Vec::new()));
    let mut unterminated = *b"/a/b";
    assert_eq!(av_dirname(Some(&mut unterminated)), Err(InvalidPathBuffer));
    let mut interior = *b"/a\0b\0";
    assert_eq!(av_dirname(Some(&mut interior)), Err(InvalidPathBuffer));
    assert_eq!(&interior, b"/a\0b\0");
    let mut empty: [u8; 0] = [];
    assert_eq!(av_dirname(Some(&mut empty)), Err(InvalidPathBuffer));
}

#[test]
fn checks_geometry_and_copies_rows() {
    let source = [1, 2, 9, 9, 3, 4, 9, 9];
    let mut destination = [0; 8];
    av_image_copy_plane(&mut destination, 4, &source, 4, 2, 2).unwrap();
    assert_eq!(destination, [1, 2, 0, 0, 3, 4, 0, 0]);
    let mut destination = [0; 8];
    av_image_copy_plane_uc_from(&mut destination, 4, &source, 4, 2, 2).unwrap();
    assert_eq!(destination, [1, 2, 0, 0, 3, 4, 0, 0]);
}

#[test]
fn rejects_under_sized_planes() {
    let mut destination = [0; 3];
    assert!(av_image_copy_plane(&mut destination, 2, &[1; 4], 2, 2, 2).is_err());
    assert_eq!(
        av_image_copy_plane(&mut [0; 4], 1, &[1; 4], 2, 2, 2),
        Err(ImageError::PlaneLayout)
    );
}

#[test]
fn copy_plane_between_different_strides() {
    let source = [1, 2, 3, 4, 5, 6];
    let mut destination = [7; 10];
    av_image_copy_plane(&mut destination, 5, &source, 3, 2, 2).unwrap();
    assert_eq!(destination, [1, 2, 7, 7, 7, 4, 5, 7, 7, 7]);
    let mut short = [0; 6];
    assert_eq!(
        av_image_copy_plane(&mut short, 5, &source, 3, 2, 2),
        Err(ImageError::BufferTooSmall { required: 7 })
    );
    assert_eq!(short, [0; 6]);
    let mut untouched = [5; 2];
    assert_eq!(av_image_copy_plane(&mut untouched, 0, &[], 0, 0, 3), Ok(()));
    assert_eq!(untouched, [5; 2]);
    assert_eq!(
        av_image_copy_plane(&mut [0; 4], usize::MAX, &[1; 4], 1, 1, 3),
        Err(ImageError::LengthOverflow)
    );
}

#[test]
fn copy_plane_stride_limits() {
    let source = [5, 6];
    let mut destination = [0; 2];
    assert_eq!(
        av_image_copy_plane(&mut destination, 0x8000_0000, &source, 0x8000_0000, 2, 1),
        Err(ImageError::LengthOverflow)
    );
    assert_eq!(destination, [0, 0]);
    let uc = av_image_copy_plane_uc_from(&mut destination, 0x8000_0000, &source, 0x8000_0000, 2, 1);
    if usize::BITS == 64 {
        assert_eq!(uc, Ok(()));
        assert_eq!(destination, [5, 6]);
    } else {
        assert_eq!(uc, Err(ImageError::LengthOverflow));
        assert_eq!(destination, [0, 0]);
    }
    let mut short = [0; 3];
    assert_eq!(
        av_image_copy_plane_uc_from(&mut short, 2, &[1; 5], 3, 2, 2),
        Err(ImageError::BufferTooSmall { required: 5 })
    );
    assert_eq!(
        av_image_copy_plane_uc_from(&mut [0; 4], 1, &[1; 4], 2, 2, 2),
        Err(ImageError::PlaneLayout)
    );
}

#[test]
fn alignment_and_extent_checks() {
    assert_eq!(check_alignment(0), Err(ImageError::NonPositiveAlignment));
    assert_eq!(check_alignment(-1), Err(ImageError::NonPositiveAlignment));
    assert_eq!(check_alignment(i32::MIN), Err(ImageError::NonPositiveAlignment));
    assert_eq!(check_alignment(1), Ok(()));
    assert_eq!(check_alignment(MAX_ALIGNMENT), Ok(()));
    assert_eq!(check_alignment(MAX_ALIGNMENT + 1), Err(ImageError::AlignmentTooLarge));
    assert_eq!(check_alignment(i32::MAX), Err(ImageError::AlignmentTooLarge));
    assert_eq!(size_result(-22), Err(ImageError::Library(-22)));
    assert_eq!(size_result(12), Ok(12));
    assert_eq!(check_layout_extent(4, 3), Err(ImageError::BufferTooSmall { required: 4 }));
    assert_eq!(check_layout_extent(4, 4), Ok(4));
    assert_eq!(check_layout_extent(-22, 100), Err(ImageError::Library(-22)));
    assert_eq!(check_fill_height(0), Err(ImageError::NonPositiveHeight));
    assert_eq!(check_fill_height(i32::MIN), Err(ImageError::NonPositiveHeight));
    assert_eq!(check_fill_height(1), Ok(()));
    for align in [0, -32, 3, 12] {
        assert_eq!(check_alloc_alignment(align), Err(-22));
    }
    for align in [1, 2, 32, 1 << 30] {
        assert_eq!(check_alloc_alignment(align), Ok(()));
    }
    assert_eq!(plane_extent(4, 2, 0), Ok(0));
    assert_eq!(plane_extent(1, 2, 2), Err(ImageError::PlaneLayout));
    assert_eq!(plane_extent(4, 2, 3), Ok(10));
    assert_eq!(plane_extent(usize::MAX, 1, 3), Err(ImageError::LengthOverflow));
}

#[test]
fn plane_tables_report_what_they_were_built_from() {
    let planes = ImagePlanes::from_layout(
        [Some(0), None, None, None],
        [6, 0, 0, 0],
        AVPixelFormat::RGB24(),
        2,
        2,
    );
    assert_eq!(planes.linesizes(), [6, 0, 0, 0]);
    assert_eq!(planes.format(), AVPixelFormat::RGB24());
    assert_eq!(planes.width(), 2);
    assert_eq!(planes.height(), 2);
    assert_eq!(planes.plane_offsets(), [Some(0), None, None, None]);
    let pointers = ImagePointers::from_layout([Some(0), Some(16), Some(20), None], [4, 2, 2, 0], 24);
    assert_eq!(pointers.required_bytes(), 24);
    assert_eq!(pointers.plane_count(), 3);
    assert_eq!(pointers.linesizes(), [4, 2, 2, 0]);
}

#[test]
fn copies_from_an_initialized_back_reference() {
    let mut bytes = *b"abc.........";
    av_memcpy_backptr(&mut bytes, 3, 3, 9).unwrap();
    assert_eq!(&bytes, b"abcabcabcabc");
    assert_eq!(
        av_memcpy_backptr(&mut bytes, 2, 3, 1),
        Err(BackPointerError::InvalidBackDistance)
    );
}

#[test]
fn back_reference_copies_repeat_and_refuse() {
    let mut run = *b"x.....";
    av_memcpy_backptr(&mut run, 1, 1, 5).unwrap();
    assert_eq!(&run, b"xxxxxx");
    let mut plain = *b"abcd....";
    av_memcpy_backptr(&mut plain, 4, 4, 2).unwrap();
    assert_eq!(&plain, b"abcdab..");
    let mut bytes = *b"abc...";
    assert_eq!(
        av_memcpy_backptr(&mut bytes, 3, 0, 1),
        Err(BackPointerError::InvalidBackDistance)
    );
    assert_eq!(
        av_memcpy_backptr(&mut bytes, 3, 2, 4),
        Err(BackPointerError::DestinationTooSmall)
    );
    assert_eq!(
        av_memcpy_backptr(&mut bytes, 3, 2, usize::MAX),
        Err(BackPointerError::RangeOverflow)
    );
    assert_eq!(&bytes, b"abc...");
    av_memcpy_backptr(&mut bytes, 3, 2, 0).unwrap();
    assert_eq!(&bytes, b"abc...");
}

#[test]
fn freep_empties_owner_slot() {
    let mut allocation = Some(vec![0u8; 8]);
    assert!(allocation.is_some());
    av_freep(&mut allocation);
    assert!(allocation.is_none());
    av_freep(&mut allocation);
}

#[test]
fn dynarray_grows_an_owned_pointer_table() {
    let first = 1_i32;
    let second = 2_i32;
    let mut array = AvDynArray::new();
    assert!(array.is_empty());
    av_dynarray_add(&mut array, Some(&first)).expect("first add");
    av_dynarray_add(&mut array, Some(&second)).expect("second add");
    assert_eq!(array.count(), 2);
    assert_eq!(array.as_slice()[0], Some(&first));
    assert_eq!(array.as_slice()[1], Some(&second));

    let table = array.into_table().expect("allocated table");
    assert_eq!(table.len(), 2);
}

#[test]
fn dynarray_keeps_growing_past_a_non_power_of_two_count() {
    let values = [1_i32, 2, 3, 4, 5];
    let mut array = AvDynArray::new();
    for value in &values {
        av_dynarray_add(&mut array, Some(value)).expect("add");
    }

    assert_eq!(array.count(), values.len());
    for (slot, value) in array.as_slice().iter().zip(&values) {
        assert_eq!(*slot, Some(value));
    }
}

#[test]
fn dynarray_survives_a_round_trip_through_the_raw_seam() {
    let values = [1_i32, 2, 3];
    let mut array = AvDynArray::new();
    for value in &values {
        av_dynarray_add(&mut array, Some(value)).expect("add");
    }
    let table = array.into_table().expect("allocated table");
    assert_eq!(table.len(), 3);
    let mut array = AvDynArray::from_raw_parts(table);
    assert_eq!(array.count(), 3);
    let extra = 4_i32;
    av_dynarray_add(&mut array, Some(&extra)).expect("add after adoption");
    assert_eq!(array.count(), 4);
    assert_eq!(array.as_slice()[3], Some(&extra));
}

#[test]
fn dynarray_accepts_a_null_element() {
    let mut array = AvDynArray::<u8>::new();
    av_dynarray_add(&mut array, None).expect("add");
    assert_eq!(array.count(), 1);
    assert!(array.as_slice()[0].is_none());
    assert!(AvDynArray::<u8>::new().into_table().is_none());
}

#[test]
fn calloc_and_byte_dynarray_own_initialized_bytes() {
    let mut array = AvByteDynArray::new(2);
    av_dynarray2_add(&mut array, &[1, 2]).unwrap();
    av_dynarray2_add(&mut array, &[3, 4]).unwrap();
    assert_eq!(array.as_bytes(), &[1, 2, 3, 4]);
}

#[test]
fn nofree_array_and_fast_buffers_preserve_ownership() {
    let value = 7;
    let mut array = AvDynArray::new();
    av_dynarray_add_nofree(&mut array, Some(&value)).unwrap();
    assert_eq!(array.count(), 1);
}

#[test]
fn byte_dynarray_fixes_and_enforces_its_element_size() {
    let mut array = AvByteDynArray::new(0);
    assert!(array.is_empty());
    assert_eq!(av_dynarray2_add(&mut array, &[]), Err(DynArray2AddError::EmptyElement));
    av_dynarray2_add(&mut array, &[9, 8, 7]).unwrap();
    assert_eq!(array.element_size(), 3);
    assert_eq!(
        av_dynarray2_add(&mut array, &[1, 2]),
        Err(DynArray2AddError::ElementSizeChanged)
    );
    assert_eq!(array.len(), 1);
    assert_eq!(array.as_bytes(), &[9, 8, 7]);
    av_dynarray2_add(&mut array, &[6, 5, 4]).unwrap();
    assert_eq!(array.len(), 2);
    assert_eq!(array.as_bytes(), &[9, 8, 7, 6, 5, 4]);
}

#[test]
fn dynarray_growth_rule_caps_the_pointer_table() {
    // The table doubles at a power of two and never past i32::MAX bytes.
    let count: usize = if usize::BITS == 64 { 1 << 27 } else { 1 << 28 };
    let table: Vec<Option<()>> = vec![None; count];
    let mut array = AvDynArray::from_raw_parts(table);
    assert_eq!(
        av_dynarray_add_nofree(&mut array, Some(())),
        Err(DynArrayAddError::AllocationFailed)
    );
    assert_eq!(array.count(), count);
    assert_eq!(av_dynarray_add(&mut array, Some(())), Err(DynArrayAddError::AllocationFailed));
    assert!(array.is_empty());
    av_dynarray_add(&mut array, Some(())).unwrap();
    assert_eq!(array.as_slice(), &[Some(())]);
}

#[test]
fn h274_fields_round_trip_at_array_boundaries() {
    let mut params = AVFilmGrainH274Params::zeroed();
    params.set_model_id(1);
    params.set_blending_mode_id(1);
    params.set_log2_scale_factor(7);
    params.set_component_model_present(2, 1);
    params.set_num_intensity_intervals(2, 256);
    params.set_num_model_values(2, 6);
    params.set_intensity_interval_lower_bound(2, 255, 17);
    params.set_intensity_interval_upper_bound(2, 255, 219);
    params.set_comp_model_value(2, 255, 5, -1234);

    let shared = &params;
    assert_eq!(shared.model_id(), 1);
    assert_eq!(shared.blending_mode_id(), 1);
    assert_eq!(shared.log2_scale_factor(), 7);
    assert_eq!(shared.component_model_present(2), 1);
    assert_eq!(shared.num_intensity_intervals(2), 256);
    assert_eq!(shared.num_model_values(2), 6);
    assert_eq!(shared.intensity_interval_lower_bound(2, 255), 17);
    assert_eq!(shared.intensity_interval_upper_bound(2, 255), 219);
    assert_eq!(shared.comp_model_value(2, 255, 5), -1234);
}

#[test]
fn h274_writes_touch_only_their_own_entry() {
    let mut params = AVFilmGrainH274Params::zeroed();
    params.set_comp_model_value(1, 0, 0, 55);
    assert_eq!(params.comp_model_value(1, 0, 0), 55);
    assert_eq!(params.comp_model_value(0, 255, 5), 0);
    assert_eq!(params.comp_model_value(1, 0, 1), 0);
    params.set_intensity_interval_lower_bound(0, 0, 3);
    assert_eq!(params.intensity_interval_upper_bound(0, 0), 0);
    assert_eq!(params.intensity_interval_lower_bound(1, 0), 0);
    assert_eq!(params.component_model_present(0), 0);
}

#[test]
fn subblocks_are_typed_by_their_definition() {
    let mix = AVIAMFParamDefinitionRef::new(AVIAMFParamDefinitionType::MIX_GAIN(), 2);
    assert_eq!(
        av_iamf_param_definition_get_subblock(&mix, 1),
        Some(AVIAMFParamSubblockRef::MixGain(1))
    );
    assert_eq!(av_iamf_param_definition_get_subblock(&mix, 2), None);
    let demix = AVIAMFParamDefinitionRef::new(AVIAMFParamDefinitionType::DEMIXING(), 1);
    assert_eq!(
        av_iamf_param_definition_get_subblock(&demix, 0),
        Some(AVIAMFParamSubblockRef::Demixing(0))
    );
    let recon = AVIAMFParamDefinitionRef::new(AVIAMFParamDefinitionType::RECON_GAIN(), 3);
    assert_eq!(
        av_iamf_param_definition_get_subblock_mut(recon, 2),
        Some(AVIAMFParamSubblockMut::ReconGain(2))
    );
    let unknown = AVIAMFParamDefinitionRef::new(AVIAMFParamDefinitionType::from_raw(99), 5);
    assert_eq!(av_iamf_param_definition_get_subblock(&unknown, 0), None);
    assert_eq!(unknown.nb_subblocks(), 5);
    assert_eq!(unknown.parameter_type().as_raw(), 99);
}

#[test]
fn layers_and_submixes_are_bounded() {
    let layers = AVIAMFLayers::new(2, true);
    assert_eq!(layers.len(), 2);
    assert!(!layers.is_empty());
    assert_eq!(layers.get(1), Some(1));
    assert_eq!(layers.get(2), None);
    assert_eq!(AVIAMFLayers::new(2, false).get(0), None);
    assert!(AVIAMFLayers::new(0, false).is_empty());

    let mut submixes = AVIAMFSubmixes::new(2);
    assert_eq!(submixes.size_hint(), (2, Some(2)));
    assert_eq!(submixes.next(), Some(0));
    assert_eq!(submixes.size_hint(), (1, Some(1)));
    assert_eq!(submixes.next(), Some(1));
    assert_eq!(submixes.next(), None);
    assert_eq!(submixes.next(), None);
    let mut exclusive = AVIAMFSubmixesMut::new(1);
    assert_eq!(exclusive.next(), Some(0));
    assert_eq!(exclusive.size_hint(), (0, Some(0)));
    assert_eq!(exclusive.next(), None);
}

#[test]
fn class_callbacks_check_identity_and_range_results() {
    assert_eq!(check_context_class(7, 7), Ok(()));
    assert_eq!(
        check_context_class(7, 8),
        Err(AVClassCallbackError::ContextClassMismatch)
    );
    assert_eq!(
        query_ranges_outcome(-22, true, 0),
        Err(AVClassCallbackError::Library(-22))
    );
    assert_eq!(
        query_ranges_outcome(3, false, 4096),
        Err(AVClassCallbackError::NullResult)
    );
    assert_eq!(query_ranges_outcome(3, true, 0), Ok(1));
    assert_eq!(query_ranges_outcome(3, true, 4096), Ok(3));
}

#[test]
fn print_buffer_header_views() {
    let header = AVBPrintRef::new(1, 1001, 1001);
    assert_eq!(header.len(), 1);
    assert_eq!(header.size(), 1001);
    assert_eq!(header.size_max(), 1001);
    assert!(!header.is_empty());
    assert_eq!(header.initialized_len(), 1);
    assert!(header.is_complete());
    let truncated = AVBPrintRef::new(20, 8, 8);
    assert_eq!(truncated.initialized_len(), 7);
    assert!(!truncated.is_complete());
    assert_eq!(AVBPrintRef::new(0, 0, 0).initialized_len(), 0);
    assert!(AVBPrintRef::new(0, 0, 0).is_empty());
    assert_eq!(append_data_size(5), Ok(5));
    assert_eq!(append_data_size(usize::MAX), Err(BPrintLengthOverflow));
    assert_eq!(borrowed_storage_size(8), Some(8));
    assert_eq!(borrowed_storage_size(usize::MAX), None);
}

#[test]
fn buffer_windows_only_shrink() {
    let mut window = AVBufferReference::new(Some(0), 4);
    assert!(window.advance(1));
    assert_eq!(window.size(), 3);
    assert_eq!(window.data(), Some(1));
    assert!(!window.advance(4));
    assert_eq!(window.size(), 3);
    assert!(window.truncate(2));
    assert_eq!(window.size(), 2);
    assert_eq!(window.data(), Some(1));
    assert!(!window.truncate(3));
    assert!(window.advance(2));
    assert_eq!(window.size(), 0);
    assert_eq!(window.data(), Some(3));
    let mut empty = AVBufferReference::new(None, 0);
    assert!(empty.advance(0));
    assert!(empty.truncate(0));
    let mut null = AVBufferReference::new(None, 4);
    assert!(!null.advance(1));
    assert_eq!(null, AVBufferReference::new(None, 4));
}

#[test]
fn dictionary_cursors_and_statuses() {
    let entry = DictionaryEntry::new(b"artist".to_vec(), b"Example".to_vec(), 1, 0);
    assert_eq!(entry.key(), b"artist");
    assert_eq!(entry.value(), b"Example");
    assert_eq!(previous_pointer(1, None), Ok(None));
    assert_eq!(previous_pointer(1, Some(&entry)), Ok(Some(0)));
    assert_eq!(previous_pointer(2, Some(&entry)), Err(DictionaryEntryMismatch));
    assert_eq!(status_result(-12), Err(-12));
    assert_eq!(status_result(0), Ok(()));
    assert_eq!(copy_flags(4 | 8 | 16), 16);
    assert_eq!(copy_flags(-1), !12);
}

#[test]
fn hash_output_checks() {
    assert_eq!(output_size(16), Ok(16));
    assert_eq!(output_size(usize::MAX), Err(-22));
    assert_eq!(check_full_digest_output(15, 16), Err(-22));
    assert_eq!(check_full_digest_output(20, 16), Ok(16));
    assert_eq!(check_b64_output(0), Err(-22));
    assert_eq!(check_b64_output(25), Ok(25));
}

#[test]
fn file_mapping_outcomes() {
    assert_eq!(file_map_outcome(-2, false), Err(-2));
    assert_eq!(file_map_outcome(0, false), Ok(false));
    assert_eq!(file_map_outcome(0, true), Ok(true));
}

#[test]
fn whole_window_writes_need_an_exact_writable_window() {
    let window = AVBufferReference::new(Some(8), 4);
    assert!(window.write_all_accepted(4, true));
    assert!(!window.write_all_accepted(3, true));
    assert!(!window.write_all_accepted(4, false));
    let null = AVBufferReference::new(None, 0);
    assert!(null.write_all_accepted(0, true));
    assert!(!null.write_all_accepted(0, false));
    assert!(!AVBufferReference::new(None, 2).write_all_accepted(2, true));
}

#[test]
fn allocated_layout_reports_planes_in_range() {
    let image = AllocatedImage::from_layout(384, [Some(0), Some(256), Some(320), None], [16, 8, 8, 0])
        .expect("every plane starts inside");
    assert_eq!(image.len(), 384);
    assert!(!image.is_empty());
    assert_eq!(image.plane_offset(0), Some(0));
    assert_eq!(image.plane_offset(2), Some(320));
    assert_eq!(image.plane_offset(3), None);
    assert_eq!(image.plane_offset(4), None);
    assert_eq!(image.linesizes(), [16, 8, 8, 0]);
    assert!(AllocatedImage::from_layout(384, [Some(0), Some(384), None, None], [16, 8, 0, 0]).is_none());
    assert!(AllocatedImage::from_layout(0, [None; 4], [0; 4]).is_some());
}
