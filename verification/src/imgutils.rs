//! Image geometry checks and plane copies of `libavutil/imgutils.c`.

use vstd::prelude::*;
use vstd::arithmetic::div_mod::lemma_fundamental_div_mod_converse;
use vstd::arithmetic::mul::lemma_mul_inequality;
use crate::pixfmt::AVPixelFormat;

verus! {

/// Why an image operation was refused.
#[derive(Clone, Copy, Debug, PartialEq, Eq)]
pub enum ImageError {
    /// A length or stride does not fit the integer type it must be passed as.
    LengthOverflow,
    /// A stride is shorter than the row it must hold.
    PlaneLayout,
    /// The buffer is shorter than the layout derived for it.
    BufferTooSmall { required: usize },
    /// A stride alignment was below 1: `FFALIGN(x, a)` is at least `x` only
    /// for `a >= 1`, so such an alignment under-reports every extent.
    NonPositiveAlignment,
    /// A stride alignment was above [`MAX_ALIGNMENT`], where the `int` sum
    /// `FFALIGN` forms would overflow.
    AlignmentTooLarge,
    /// A plane height was below 1, which C divides by.
    NonPositiveHeight,
    /// libavutil reported this negative status.
    Library(i32),
}

/// The largest stride alignment the image helpers forward to C.
///
/// Every alignment reaches `FFALIGN(linesize, align)`, whose `linesize +
/// align - 1` is `int` arithmetic. A linesize that passes libavutil's size
/// check is below `1 << 27`, so `1 << 24` keeps the sum far below `INT_MAX`
/// while staying far above any alignment hardware asks for.
pub const MAX_ALIGNMENT: i32 = 0x0100_0000;

/// Refuses a stride alignment outside `1..=MAX_ALIGNMENT`, the range C's
/// `FFALIGN` is total for.
pub fn check_alignment(align: i32) -> (result: Result<(), ImageError>)
    ensures
        align <= 0 ==> result == Err::<(), ImageError>(ImageError::NonPositiveAlignment),
        align > MAX_ALIGNMENT ==> result == Err::<(), ImageError>(ImageError::AlignmentTooLarge),
        1 <= align <= MAX_ALIGNMENT ==> result == Ok::<(), ImageError>(()),
{
    if align <= 0 {
        Err(ImageError::NonPositiveAlignment)
    } else if align > MAX_ALIGNMENT {
        Err(ImageError::AlignmentTooLarge)
    } else {
        Ok(())
    }
}

/// Turns a libavutil size status into a size: a negative status is the
/// error it reports, any other is the size itself.
pub fn size_result(status: i32) -> (result: Result<usize, ImageError>)
    ensures
        status < 0 ==> result == Err::<usize, ImageError>(ImageError::Library(status)),
        status >= 0 ==> result == Ok::<usize, ImageError>(status as usize),
{
    if status < 0 {
        Err(ImageError::Library(status))
    } else {
        Ok(status as usize)
    }
}

/// Checks the extent libavutil derived for an image layout against the
/// buffer that is to hold it: the extent is `status` when that is not
/// negative, and it must not exceed `buffer_len`.
pub fn check_layout_extent(status: i32, buffer_len: usize) -> (result: Result<usize, ImageError>)
    ensures
        status < 0 ==> result == Err::<usize, ImageError>(ImageError::Library(status)),
        status >= 0 && status > buffer_len ==> result == Err::<usize, ImageError>(
            ImageError::BufferTooSmall { required: status as usize },
        ),
        status >= 0 && status <= buffer_len ==> result == Ok::<usize, ImageError>(status as usize),
{
    let required = size_result(status)?;
    if required > buffer_len {
        Err(ImageError::BufferTooSmall { required })
    } else {
        Ok(required)
    }
}

/// Refuses a plane height below 1, which `av_image_fill_pointers` would
/// divide by.
pub fn check_fill_height(height: i32) -> (result: Result<(), ImageError>)
    ensures
        height <= 0 ==> result == Err::<(), ImageError>(ImageError::NonPositiveHeight),
        height > 0 ==> result == Ok::<(), ImageError>(()),
{
    if height <= 0 {
        Err(ImageError::NonPositiveHeight)
    } else {
        Ok(())
    }
}

/// Whether `value` is a positive power of two.
pub open spec fn is_power_of_two(value: int) -> bool
    decreases value,
{
    if value <= 0 {
        false
    } else if value == 1 {
        true
    } else {
        value % 2 == 0 && is_power_of_two(value / 2)
    }
}

/// The alignment check of `av_image_alloc`: the alignment must be a positive
/// power of two, and anything else is refused with `AVERROR(EINVAL)` (-22).
pub fn check_alloc_alignment(align: i32) -> (result: Result<(), i32>)
    ensures
        is_power_of_two(align as int) ==> result == Ok::<(), i32>(()),
        !is_power_of_two(align as int) ==> result == Err::<(), i32>(-22i32),
{
    if align <= 0 {
        return Err(-22);
    }
    let mut rest: i32 = align;
    while rest % 2 == 0
        invariant
            rest >= 1,
            is_power_of_two(rest as int) == is_power_of_two(align as int),
        decreases rest,
    {
        rest = rest / 2;
    }
    if rest == 1 {
        Ok(())
    } else {
        Err(-22)
    }
}

/// Plane positions and strides laid over one contiguous image buffer.
///
/// A plane's position is its byte offset into the buffer; an absent plane
/// has none.
pub struct ImagePlanes {
    plane_offsets: [Option<usize>; 4],
    linesizes: [i32; 4],
    format: AVPixelFormat,
    width: i32,
    height: i32,
}

impl ImagePlanes {
    /// The byte offset of each plane into the buffer.
    pub closed spec fn spec_plane_offsets(&self) -> Seq<Option<usize>> {
        self.plane_offsets@
    }

    /// The stride of each plane.
    pub closed spec fn spec_linesizes(&self) -> Seq<i32> {
        self.linesizes@
    }

    /// The pixel format.
    pub closed spec fn spec_format(&self) -> AVPixelFormat {
        self.format
    }

    /// The width in pixels.
    pub closed spec fn spec_width(&self) -> i32 {
        self.width
    }

    /// The height in pixels.
    pub closed spec fn spec_height(&self) -> i32 {
        self.height
    }

    /// Records the plane table libavutil derived for an image.
    pub fn from_layout(
        plane_offsets: [Option<usize>; 4],
        linesizes: [i32; 4],
        format: AVPixelFormat,
        width: i32,
        height: i32,
    ) -> (result: ImagePlanes)
        ensures
            result.spec_plane_offsets() == plane_offsets@,
            result.spec_linesizes() == linesizes@,
            result.spec_format() == format,
            result.spec_width() == width,
            result.spec_height() == height,
    {
        ImagePlanes { plane_offsets, linesizes, format, width, height }
    }

    /// The byte offset of each plane into the buffer.
    pub fn plane_offsets(&self) -> (result: [Option<usize>; 4])
        ensures
            result@ == self.spec_plane_offsets(),
    {
        self.plane_offsets
    }

    /// The stride of each plane.
    pub fn linesizes(&self) -> (result: [i32; 4])
        ensures
            result@ == self.spec_linesizes(),
    {
        self.linesizes
    }

    /// The pixel format.
    pub fn format(&self) -> (result: AVPixelFormat)
        ensures
            result == self.spec_format(),
    {
        self.format
    }

    /// The width in pixels.
    pub fn width(&self) -> (result: i32)
        ensures
            result == self.spec_width(),
    {
        self.width
    }

    /// The height in pixels.
    pub fn height(&self) -> (result: i32)
        ensures
            result == self.spec_height(),
    {
        self.height
    }
}

/// The number of present entries among the first `n` of `slots`.
pub open spec fn count_present(slots: Seq<Option<usize>>, n: int) -> nat
    decreases n,
{
    if n <= 0 {
        0
    } else {
        count_present(slots, n - 1) + if slots[n - 1] is Some {
            1nat
        } else {
            0nat
        }
    }
}

/// The plane table computed from caller-supplied strides, with the extent
/// it occupies.
pub struct ImagePointers {
    plane_offsets: [Option<usize>; 4],
    linesizes: [i32; 4],
    required: usize,
}

impl ImagePointers {
    /// The byte offset of each plane into the buffer.
    pub closed spec fn spec_plane_offsets(&self) -> Seq<Option<usize>> {
        self.plane_offsets@
    }

    /// The stride of each plane.
    pub closed spec fn spec_linesizes(&self) -> Seq<i32> {
        self.linesizes@
    }

    /// The number of bytes the planes occupy.
    pub closed spec fn spec_required(&self) -> usize {
        self.required
    }

    /// Records the plane table libavutil derived from the given strides.
    pub fn from_layout(plane_offsets: [Option<usize>; 4], linesizes: [i32; 4], required: usize) -> (result: ImagePointers)
        ensures
            result.spec_plane_offsets() == plane_offsets@,
            result.spec_linesizes() == linesizes@,
            result.spec_required() == required,
    {
        ImagePointers { plane_offsets, linesizes, required }
    }

    /// The stride of each plane.
    pub fn linesizes(&self) -> (result: [i32; 4])
        ensures
            result@ == self.spec_linesizes(),
    {
        self.linesizes
    }

    /// The number of bytes the planes occupy.
    pub fn required_bytes(&self) -> (result: usize)
        ensures
            result == self.spec_required(),
    {
        self.required
    }

    /// The number of planes present.
    pub fn plane_count(&self) -> (result: usize)
        ensures
            result == count_present(self.spec_plane_offsets(), 4),
    {
        let mut count: usize = 0;
        let mut index: usize = 0;
        while index < 4
            invariant
                index <= 4,
                self.plane_offsets@.len() == 4,
                count == count_present(self.plane_offsets@, index as int),
                count <= index,
            decreases 4 - index,
        {
            if self.plane_offsets[index].is_some() {
                count = count + 1;
            }
            index = index + 1;
        }
        count
    }
}

/// Whether every plane present in `plane_offsets` starts inside a buffer of
/// `length` bytes.
pub open spec fn planes_inside(length: int, plane_offsets: Seq<Option<usize>>) -> bool {
    forall|plane: int|
        0 <= plane < plane_offsets.len() ==> (#[trigger] plane_offsets[plane] matches Some(offset)
            ==> offset < length)
}

/// The layout of one image allocation from `av_image_alloc`: the bytes its
/// planes span, where each plane starts, and each plane's stride. Every
/// plane it reports starts inside the bytes it spans.
pub struct AllocatedImage {
    length: usize,
    plane_offsets: [Option<usize>; 4],
    linesizes: [i32; 4],
}

impl AllocatedImage {
    /// Every plane starts inside the allocation.
    #[verifier::type_invariant]
    spec fn planes_addressable(&self) -> bool {
        planes_inside(self.length as int, self.plane_offsets@)
    }

    /// The number of bytes the planes span.
    pub closed spec fn spec_len(&self) -> usize {
        self.length
    }

    /// Where each plane starts.
    pub closed spec fn spec_plane_offsets(&self) -> Seq<Option<usize>> {
        self.plane_offsets@
    }

    /// The stride of each plane.
    pub closed spec fn spec_linesizes(&self) -> Seq<i32> {
        self.linesizes@
    }

    /// Records the layout `av_image_alloc` reported, or `None` when a plane
    /// it reported starts outside the `length` bytes the planes span.
    pub fn from_layout(length: usize, plane_offsets: [Option<usize>; 4], linesizes: [i32; 4]) -> (result: Option<AllocatedImage>)
        ensures
            result is Some <==> planes_inside(length as int, plane_offsets@),
            result matches Some(image) ==> image.spec_len() == length
                && image.spec_plane_offsets() == plane_offsets@
                && image.spec_linesizes() == linesizes@,
    {
        let mut plane: usize = 0;
        while plane < 4
            invariant
                plane <= 4,
                forall|p: int|
                    0 <= p < plane ==> (#[trigger] plane_offsets@[p] matches Some(offset) ==> offset
                        < length),
            decreases 4 - plane,
        {
            match plane_offsets[plane] {
                Some(offset) => {
                    if offset >= length {
                        return None;
                    }
                },
                None => {},
            }
            plane = plane + 1;
        }
        Some(AllocatedImage { length, plane_offsets, linesizes })
    }

    /// The number of bytes the planes span.
    pub fn len(&self) -> (result: usize)
        ensures
            result == self.spec_len(),
    {
        self.length
    }

    /// Whether the planes span no byte.
    pub fn is_empty(&self) -> (result: bool)
        ensures
            result == (self.spec_len() == 0),
    {
        self.length == 0
    }

    /// Where `plane` starts; `None` for an absent plane or an index past the
    /// four planes an image has.
    pub fn plane_offset(&self, plane: usize) -> (result: Option<usize>)
        ensures
            plane < 4 ==> result == self.spec_plane_offsets()[plane as int],
            plane >= 4 ==> result is None,
            result matches Some(offset) ==> offset < self.spec_len(),
    {
        proof {
            use_type_invariant(self);
        }
        if plane < 4 {
            self.plane_offsets[plane]
        } else {
            None
        }
    }

    /// The stride of each plane.
    pub fn linesizes(&self) -> (result: [i32; 4])
        ensures
            result@ == self.spec_linesizes(),
    {
        self.linesizes
    }
}

/// The bytes a plane of `height` rows of `width` bytes spans when rows start
/// `stride` bytes apart: every row but the last takes a full stride.
pub open spec fn plane_extent_spec(stride: int, width: int, height: int) -> int {
    if height == 0 || width == 0 {
        0
    } else {
        (height - 1) * stride + width
    }
}

/// What [`plane_extent`] returns: zero for an empty plane, `PlaneLayout` for
/// a stride shorter than a row, `LengthOverflow` for an extent beyond
/// `usize`, the extent otherwise.
pub open spec fn plane_extent_result(stride: usize, width: usize, height: usize) -> Result<
    usize,
    ImageError,
> {
    if height == 0 || width == 0 {
        Ok(0)
    } else if stride < width {
        Err(ImageError::PlaneLayout)
    } else if plane_extent_spec(stride as int, width as int, height as int) > usize::MAX {
        Err(ImageError::LengthOverflow)
    } else {
        Ok(plane_extent_spec(stride as int, width as int, height as int) as usize)
    }
}

/// The extent of a plane of `height` rows of `width` bytes, `stride` bytes
/// apart; the stride must hold a row, and the extent must fit.
pub fn plane_extent(stride: usize, width: usize, height: usize) -> (result: Result<usize, ImageError>)
    ensures
        result == plane_extent_result(stride, width, height),
        (height == 0 || width == 0) ==> result == Ok::<usize, ImageError>(0),
        height > 0 && width > 0 && stride < width ==> result == Err::<usize, ImageError>(
            ImageError::PlaneLayout,
        ),
        height > 0 && width > 0 && stride >= width && plane_extent_spec(
            stride as int,
            width as int,
            height as int,
        ) > usize::MAX ==> result == Err::<usize, ImageError>(ImageError::LengthOverflow),
        height > 0 && width > 0 && stride >= width && plane_extent_spec(
            stride as int,
            width as int,
            height as int,
        ) <= usize::MAX ==> result == Ok::<usize, ImageError>(
            plane_extent_spec(stride as int, width as int, height as int) as usize,
        ),
{
    if height == 0 || width == 0 {
        return Ok(0);
    }
    if stride < width {
        return Err(ImageError::PlaneLayout);
    }
    match (height - 1).checked_mul(stride) {
        None => {
            proof {
                assert((height - 1) * stride + width > usize::MAX);
            }
            Err(ImageError::LengthOverflow)
        },
        Some(prefix) => match prefix.checked_add(width) {
            None => Err(ImageError::LengthOverflow),
            Some(extent) => Ok(extent),
        },
    }
}

/// What [`check_plane_buffers`] returns: the first refusal of either
/// plane's extent, then `BufferTooSmall` naming the larger extent when either
/// buffer is short.
pub open spec fn check_plane_buffers_result(
    destination_len: nat,
    destination_stride: usize,
    source_len: nat,
    source_stride: usize,
    byte_width: usize,
    height: usize,
) -> Result<(), ImageError> {
    match plane_extent_result(destination_stride, byte_width, height) {
        Err(e) => Err(e),
        Ok(destination_extent) => match plane_extent_result(source_stride, byte_width, height) {
            Err(e) => Err(e),
            Ok(source_extent) => if destination_len < destination_extent || source_len
                < source_extent {
                Err(
                    ImageError::BufferTooSmall {
                        required: if destination_extent > source_extent {
                            destination_extent
                        } else {
                            source_extent
                        },
                    },
                )
            } else {
                Ok(())
            },
        },
    }
}

/// Checks that both planes of a copy hold `height` rows of `byte_width`
/// bytes at their strides; the error for a short buffer names the larger of
/// the two extents.
pub fn check_plane_buffers(
    destination: &[u8],
    destination_stride: usize,
    source: &[u8],
    source_stride: usize,
    byte_width: usize,
    height: usize,
) -> (result: Result<(), ImageError>)
    ensures
        result == check_plane_buffers_result(
            destination@.len(),
            destination_stride,
            source@.len(),
            source_stride,
            byte_width,
            height,
        ),
        result is Ok <==> (plane_fits(destination@.len(), destination_stride, byte_width, height)
            && plane_fits(source@.len(), source_stride, byte_width, height)),
{
    let destination_len = destination.len();
    let source_len = source.len();
    let destination_extent = plane_extent(destination_stride, byte_width, height)?;
    let source_extent = plane_extent(source_stride, byte_width, height)?;
    if destination_len < destination_extent || source_len < source_extent {
        let required = if destination_extent > source_extent {
            destination_extent
        } else {
            source_extent
        };
        Err(ImageError::BufferTooSmall { required })
    } else {
        Ok(())
    }
}

/// Whether a buffer of `len` bytes holds `height` rows of `width` bytes
/// placed `stride` bytes apart.
pub open spec fn plane_fits(len: nat, stride: usize, width: usize, height: usize) -> bool {
    (height == 0 || width == 0) || (stride >= width && plane_extent_spec(
        stride as int,
        width as int,
        height as int,
    ) <= len)
}

/// The destination after copying `height` rows of `width` bytes from
/// `source` (rows `source_stride` apart) into `destination` (rows
/// `destination_stride` apart): a byte whose row is below `height` and whose
/// column is below `width` comes from the same row and column of the source;
/// every other byte keeps its value.
pub open spec fn copy_plane_spec(
    destination: Seq<u8>,
    destination_stride: int,
    source: Seq<u8>,
    source_stride: int,
    width: int,
    height: int,
) -> Seq<u8> {
    Seq::new(
        destination.len(),
        |i: int|
            if 0 < width && 0 < height && i / destination_stride < height && i
                % destination_stride < width {
                source[(i / destination_stride) * source_stride + i % destination_stride]
            } else {
                destination[i]
            },
    )
}

/// Whether byte `i` of a plane with rows `stride` apart has been copied once
/// the rows before `row`, and the first `column` bytes of row `row`, have.
pub open spec fn copied_so_far(i: int, stride: int, width: int, row: int, column: int) -> bool {
    (i / stride < row && i % stride < width) || (i / stride == row && i % stride < column)
}

/// Copies the rows after the geometry has been checked.
fn copy_rows(
    destination: &mut [u8],
    destination_stride: usize,
    source: &[u8],
    source_stride: usize,
    byte_width: usize,
    height: usize,
)
    requires
        byte_width > 0,
        height > 0,
        destination_stride >= byte_width,
        source_stride >= byte_width,
        plane_extent_spec(destination_stride as int, byte_width as int, height as int) <= old(destination)@.len(),
        plane_extent_spec(source_stride as int, byte_width as int, height as int) <= source@.len(),
    ensures
        final(destination)@ == copy_plane_spec(
            old(destination)@,
            destination_stride as int,
            source@,
            source_stride as int,
            byte_width as int,
            height as int,
        ),
{
    let destination_len = destination.len();
    let source_len = source.len();
    let ghost before = destination@;
    let ghost ds = destination_stride as int;
    let ghost w = byte_width as int;
    let mut row: usize = 0;
    while row < height
        invariant
            row <= height,
            height > 0,
            byte_width > 0,
            destination_stride >= byte_width,
            source_stride >= byte_width,
            ds == destination_stride,
            w == byte_width,
            (height - 1) * destination_stride + byte_width <= before.len(),
            (height - 1) * source_stride + byte_width <= source@.len(),
            before.len() == destination_len,
            source@.len() == source_len,
            destination@.len() == before.len(),
            forall|i: int|
                #![trigger destination@[i]]
                0 <= i < before.len() ==> destination@[i] == (if copied_so_far(
                    i,
                    ds,
                    w,
                    row as int,
                    0,
                ) {
                    source@[(i / ds) * source_stride + i % ds]
                } else {
                    before[i]
                }),
        decreases height - row,
    {
        proof {
            lemma_mul_inequality(row as int, (height - 1) as int, destination_stride as int);
            lemma_mul_inequality(row as int, (height - 1) as int, source_stride as int);
        }
        let destination_row = row * destination_stride;
        let source_row = row * source_stride;
        let mut column: usize = 0;
        while column < byte_width
            invariant
                row < height,
                column <= byte_width,
                byte_width > 0,
                destination_stride >= byte_width,
                source_stride >= byte_width,
                ds == destination_stride,
                w == byte_width,
                destination_row == row * destination_stride,
                source_row == row * source_stride,
                destination_row + byte_width <= before.len(),
                source_row + byte_width <= source@.len(),
                before.len() == destination_len,
                source@.len() == source_len,
                destination@.len() == before.len(),
                forall|i: int|
                    #![trigger destination@[i]]
                    0 <= i < before.len() ==> destination@[i] == (if copied_so_far(
                        i,
                        ds,
                        w,
                        row as int,
                        column as int,
                    ) {
                        source@[(i / ds) * source_stride + i % ds]
                    } else {
                        before[i]
                    }),
            decreases byte_width - column,
        {
            let target = destination_row + column;
            let byte = source[source_row + column];
            proof {
                lemma_fundamental_div_mod_converse(target as int, ds, row as int, column as int);
            }
            destination[target] = byte;
            proof {
                assert forall|i: int|
                    #![trigger destination@[i]]
                    0 <= i < before.len() implies destination@[i] == (if copied_so_far(
                        i,
                        ds,
                        w,
                        row as int,
                        column + 1,
                    ) {
                        source@[(i / ds) * source_stride + i % ds]
                    } else {
                        before[i]
                    }) by {
                    if i != target {
                        if i / ds == row && i % ds == column {
                            vstd::arithmetic::div_mod::lemma_fundamental_div_mod(i, ds);
                            assert(i == ds * (i / ds) + i % ds);
                            vstd::arithmetic::mul::lemma_mul_is_commutative(ds, row as int);
                            assert(i == target);
                        }
                    }
                }
            }
            column = column + 1;
        }
        proof {
            assert forall|i: int|
                #![trigger destination@[i]]
                0 <= i < before.len() implies destination@[i] == (if copied_so_far(
                    i,
                    ds,
                    w,
                    row + 1,
                    0,
                ) {
                    source@[(i / ds) * source_stride + i % ds]
                } else {
                    before[i]
                }) by {
                assert(copied_so_far(i, ds, w, row as int, w) == copied_so_far(
                    i,
                    ds,
                    w,
                    row + 1,
                    0,
                ));
            }
        }
        row = row + 1;
    }
    proof {
        assert forall|i: int| 0 <= i < before.len() implies destination@[i] == copy_plane_spec(
            before,
            ds,
            source@,
            source_stride as int,
            w,
            height as int,
        )[i] by {
            assert(copied_so_far(i, ds, w, height as int, 0) == (i / ds < height && i % ds < w));
        }
        assert(destination@ =~= copy_plane_spec(
            before,
            ds,
            source@,
            source_stride as int,
            w,
            height as int,
        ));
    }
}

/// Copies a plane after checking its geometry: the strides must hold a row,
/// both buffers must hold the plane, and, for a nonempty copy, the strides
/// and width must not exceed `stride_limit` and the height must fit a C
/// `int`. A refused copy writes nothing.
fn copy_plane_checked(
    destination: &mut [u8],
    destination_stride: usize,
    source: &[u8],
    source_stride: usize,
    byte_width: usize,
    height: usize,
    stride_limit: usize,
) -> (result: Result<(), ImageError>)
    ensures
        copy_plane_outcome(
            old(destination)@,
            destination_stride,
            source@,
            source_stride,
            byte_width,
            height,
            stride_limit as int,
            result,
            final(destination)@,
        ),
{
    check_plane_buffers(destination, destination_stride, source, source_stride, byte_width, height)?;
    if byte_width == 0 || height == 0 {
        proof {
            assert(destination@ =~= copy_plane_spec(
                destination@,
                destination_stride as int,
                source@,
                source_stride as int,
                byte_width as int,
                height as int,
            ));
        }
        return Ok(());
    }
    if destination_stride > stride_limit || source_stride > stride_limit || byte_width
        > stride_limit || height > 0x7fff_ffffusize {
        return Err(ImageError::LengthOverflow);
    }
    copy_rows(destination, destination_stride, source, source_stride, byte_width, height);
    Ok(())
}

/// The result of a plane copy whose strides and width may reach
/// `stride_limit` and whose height may reach `i32::MAX`: first the refusal
/// of [`check_plane_buffers`] (`PlaneLayout` for a stride shorter than a row,
/// `LengthOverflow` for an extent beyond `usize`, `BufferTooSmall` naming
/// the larger extent for a short buffer), then `Ok` for an empty copy, then
/// `LengthOverflow` for a stride, width or height past its limit.
pub open spec fn copy_plane_result(
    destination_len: nat,
    destination_stride: usize,
    source_len: nat,
    source_stride: usize,
    byte_width: usize,
    height: usize,
    stride_limit: int,
) -> Result<(), ImageError> {
    match check_plane_buffers_result(
        destination_len,
        destination_stride,
        source_len,
        source_stride,
        byte_width,
        height,
    ) {
        Err(e) => Err(e),
        Ok(()) => if byte_width == 0 || height == 0 {
            Ok(())
        } else if destination_stride > stride_limit || source_stride > stride_limit || byte_width
            > stride_limit || height > i32::MAX {
            Err(ImageError::LengthOverflow)
        } else {
            Ok(())
        },
    }
}

/// What a plane copy owes: the result is [`copy_plane_result`], which is `Ok`
/// exactly when both planes fit their buffers and a nonempty copy's strides,
/// width and height are within their limits; then the destination is the
/// copied plane, and on refusal it is unchanged.
pub open spec fn copy_plane_outcome(
    destination: Seq<u8>,
    destination_stride: usize,
    source: Seq<u8>,
    source_stride: usize,
    byte_width: usize,
    height: usize,
    stride_limit: int,
    result: Result<(), ImageError>,
    after: Seq<u8>,
) -> bool {
    let fits = plane_fits(destination.len(), destination_stride, byte_width, height) && plane_fits(
        source.len(),
        source_stride,
        byte_width,
        height,
    );
    let empty = byte_width == 0 || height == 0;
    let small = destination_stride <= stride_limit && source_stride <= stride_limit && byte_width
        <= stride_limit && height <= i32::MAX;
    &&& result == copy_plane_result(
        destination.len(),
        destination_stride,
        source.len(),
        source_stride,
        byte_width,
        height,
        stride_limit,
    )
    &&& result is Ok <==> (fits && (empty || small))
    &&& result is Ok ==> after == copy_plane_spec(
        destination,
        destination_stride as int,
        source,
        source_stride as int,
        byte_width as int,
        height as int,
    )
    &&& result is Err ==> after == destination
}

/// The `av_image_copy_plane` operation of libavutil.
///
/// Copies `height` rows of `byte_width` bytes from `source` to
/// `destination`, whose rows lie `source_stride` and `destination_stride`
/// bytes apart. Strides are non-negative: a bottom-up plane is expressed by
/// reordering it before the call. The strides, width and height of a
/// nonempty copy must fit a C `int`.
pub fn av_image_copy_plane(
    destination: &mut [u8],
    destination_stride: usize,
    source: &[u8],
    source_stride: usize,
    byte_width: usize,
    height: usize,
) -> (result: Result<(), ImageError>)
    ensures
        copy_plane_outcome(
            old(destination)@,
            destination_stride,
            source@,
            source_stride,
            byte_width,
            height,
            i32::MAX as int,
            result,
            final(destination)@,
        ),
{
    copy_plane_checked(
        destination,
        destination_stride,
        source,
        source_stride,
        byte_width,
        height,
        0x7fff_ffffusize,
    )
}

/// The `av_image_copy_plane_uc_from` operation of libavutil.
///
/// The copy of [`av_image_copy_plane`] for a source that may live in
/// uncacheable memory. Its strides and width are pointer differences, so a
/// nonempty copy needs them to fit `isize`; the height must fit a C `int`.
pub fn av_image_copy_plane_uc_from(
    destination: &mut [u8],
    destination_stride: usize,
    source: &[u8],
    source_stride: usize,
    byte_width: usize,
    height: usize,
) -> (result: Result<(), ImageError>)
    ensures
        copy_plane_outcome(
            old(destination)@,
            destination_stride,
            source@,
            source_stride,
            byte_width,
            height,
            isize::MAX as int,
            result,
            final(destination)@,
        ),
{
    copy_plane_checked(
        destination,
        destination_stride,
        source,
        source_stride,
        byte_width,
        height,
        isize::MAX as usize,
    )
}

/// On a copy whose strides, width and height all fit a C `int`, the copy
/// from uncacheable memory gives the same result and leaves the same
/// destination as [`av_image_copy_plane`].
pub proof fn lemma_copy_plane_uc_from_agrees(
    destination: Seq<u8>,
    destination_stride: usize,
    source: Seq<u8>,
    source_stride: usize,
    byte_width: usize,
    height: usize,
    plain_result: Result<(), ImageError>,
    plain_after: Seq<u8>,
    uc_result: Result<(), ImageError>,
    uc_after: Seq<u8>,
)
    requires
        destination_stride <= i32::MAX,
        source_stride <= i32::MAX,
        byte_width <= i32::MAX,
        height <= i32::MAX,
        copy_plane_outcome(
            destination,
            destination_stride,
            source,
            source_stride,
            byte_width,
            height,
            i32::MAX as int,
            plain_result,
            plain_after,
        ),
        copy_plane_outcome(
            destination,
            destination_stride,
            source,
            source_stride,
            byte_width,
            height,
            isize::MAX as int,
            uc_result,
            uc_after,
        ),
    ensures
        uc_result == plain_result,
        uc_after == plain_after,
{
}

/// Where the byte at `row` and `column` lies in a plane whose rows start
/// `stride` bytes apart.
pub open spec fn plane_position(stride: int, row: int, column: int) -> int {
    row * stride + column
}

/// A successful plane copy changes only the requested area: every byte of
/// the destination in a row at or past `height`, or in a column at or past
/// `byte_width`, keeps its value, and every byte at row `row < height` and
/// column `column < byte_width` lies inside the destination and now holds the
/// source byte at the same row and column.
pub proof fn lemma_copy_plane_writes_only_requested_area(
    destination: Seq<u8>,
    destination_stride: usize,
    source: Seq<u8>,
    source_stride: usize,
    byte_width: usize,
    height: usize,
    stride_limit: int,
    result: Result<(), ImageError>,
    after: Seq<u8>,
)
    requires
        copy_plane_outcome(
            destination,
            destination_stride,
            source,
            source_stride,
            byte_width,
            height,
            stride_limit,
            result,
            after,
        ),
        result is Ok,
    ensures
        after.len() == destination.len(),
        forall|i: int|
            #![trigger after[i]]
            0 <= i < destination.len() && (byte_width == 0 || height == 0 || i
                / (destination_stride as int) >= height || i % (destination_stride as int)
                >= byte_width) ==> after[i] == destination[i],
        forall|row: int, column: int|
            #![trigger plane_position(destination_stride as int, row, column)]
            0 <= row < height && 0 <= column < byte_width ==> plane_position(
                destination_stride as int,
                row,
                column,
            ) < destination.len() && plane_position(source_stride as int, row, column)
                < source.len() && after[plane_position(destination_stride as int, row, column)]
                == source[plane_position(source_stride as int, row, column)],
{
    let ds = destination_stride as int;
    let ss = source_stride as int;
    let w = byte_width as int;
    let h = height as int;
    assert forall|row: int, column: int|
        0 <= row < h && 0 <= column < w implies #[trigger] plane_position(ds, row, column)
            < destination.len() && plane_position(ss, row, column) < source.len()
            && after[plane_position(ds, row, column)] == source[plane_position(ss, row, column)] by {
        lemma_mul_inequality(row, h - 1, ds);
        lemma_mul_inequality(row, h - 1, ss);
        assert(row * ds <= (h - 1) * ds);
        assert(row * ss <= (h - 1) * ss);
        lemma_copy_plane_places_rows(destination, ds, source, ss, w, h, row, column);
    }
}

/// A copied plane holds, at each row and column inside the copied area, the
/// source byte at the same row and column.
pub proof fn lemma_copy_plane_places_rows(
    destination: Seq<u8>,
    destination_stride: int,
    source: Seq<u8>,
    source_stride: int,
    width: int,
    height: int,
    row: int,
    column: int,
)
    requires
        0 < width <= destination_stride,
        0 <= row < height,
        0 <= column < width,
        row * destination_stride + column < destination.len(),
    ensures
        copy_plane_spec(
            destination,
            destination_stride,
            source,
            source_stride,
            width,
            height,
        )[row * destination_stride + column] == source[row * source_stride + column],
{
    lemma_fundamental_div_mod_converse(
        row * destination_stride + column,
        destination_stride,
        row,
        column,
    );
}

/// Bytes between the rows of the copied area — the padding past `width` in
/// each destination row — keep their values.
pub proof fn lemma_copy_plane_keeps_padding(
    destination: Seq<u8>,
    destination_stride: int,
    source: Seq<u8>,
    source_stride: int,
    width: int,
    height: int,
    i: int,
)
    requires
        0 < width <= destination_stride,
        0 <= i < destination.len(),
        i % destination_stride >= width,
    ensures
        copy_plane_spec(destination, destination_stride, source, source_stride, width, height)[i]
            == destination[i],
{
}

} // verus!
