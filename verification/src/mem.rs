//! Memory helpers of `libavutil/mem.c`: overlapping back-reference copies,
//! growable arrays and reusable scratch buffers.

use vstd::prelude::*;
use crate::imgutils::is_power_of_two;

verus! {

/// Why a back-reference copy was refused.
#[derive(Clone, Copy, Debug, PartialEq, Eq)]
pub enum BackPointerError {
    /// The copied range, or a length C takes as `int`, does not fit.
    RangeOverflow,
    /// The distance back is zero or reaches before the start of the buffer.
    InvalidBackDistance,
    /// The copied range runs past the end of the buffer.
    DestinationTooSmall,
}

/// The contents of `bytes` after copying `count` bytes to `destination` from
/// `back` bytes before each written byte, one byte at a time: the window of
/// `back` bytes before `destination` repeats until `count` bytes are written,
/// and every byte outside the written range keeps its value.
pub open spec fn backptr_copy(bytes: Seq<u8>, destination: int, back: int, count: int) -> Seq<u8> {
    Seq::new(
        bytes.len(),
        |i: int|
            if destination <= i < destination + count {
                bytes[destination - back + (i - destination) % back]
            } else {
                bytes[i]
            },
    )
}

/// The `av_memcpy_backptr` operation of libavutil.
///
/// Copies `count` bytes to offset `destination` of `buffer` from `back`
/// bytes earlier, byte by byte, so that an overlapping copy repeats the last
/// `back` bytes before `destination` — the back-reference copy of LZ77-style
/// decoders. The distance must be positive and may not reach before the
/// buffer; the copied range must lie inside it; and `back` and `count` must
/// fit the C `int` the routine takes.
pub fn av_memcpy_backptr(
    buffer: &mut [u8],
    destination: usize,
    back: usize,
    count: usize,
) -> (result: Result<(), BackPointerError>)
    ensures
        (back == 0 || back > destination) ==> result == Err::<(), BackPointerError>(
            BackPointerError::InvalidBackDistance,
        ),
        !(back == 0 || back > destination) && destination + count > usize::MAX ==> result == Err::<
            (),
            BackPointerError,
        >(BackPointerError::RangeOverflow),
        !(back == 0 || back > destination) && destination + count <= usize::MAX && destination
            + count > old(buffer)@.len() ==> result == Err::<(), BackPointerError>(
            BackPointerError::DestinationTooSmall,
        ),
        !(back == 0 || back > destination) && destination + count <= old(buffer)@.len() && (back
            > i32::MAX || count > i32::MAX) ==> result == Err::<(), BackPointerError>(
            BackPointerError::RangeOverflow,
        ),
        result is Ok <==> (0 < back <= destination && destination + count <= old(buffer)@.len()
            && back <= i32::MAX && count <= i32::MAX),
        result is Ok ==> result == Ok::<(), BackPointerError>(()),
        result is Ok ==> final(buffer)@ == backptr_copy(
            old(buffer)@,
            destination as int,
            back as int,
            count as int,
        ),
        result is Err ==> final(buffer)@ == old(buffer)@,
{
    let length = buffer.len();
    if back == 0 || back > destination {
        return Err(BackPointerError::InvalidBackDistance);
    }
    let end = match destination.checked_add(count) {
        Some(end) => end,
        None => return Err(BackPointerError::RangeOverflow),
    };
    if end > length {
        return Err(BackPointerError::DestinationTooSmall);
    }
    if back > 0x7fff_ffffusize || count > 0x7fff_ffffusize {
        return Err(BackPointerError::RangeOverflow);
    }
    let ghost before = buffer@;
    let mut written: usize = 0;
    while written < count
        invariant
            0 < back <= destination,
            destination + count <= before.len() <= usize::MAX,
            written <= count,
            buffer@.len() == before.len(),
            forall|i: int|
                #![trigger buffer@[i]]
                0 <= i < buffer@.len() ==> buffer@[i] == (if destination <= i < destination
                    + written {
                    before[destination - back + (i - destination) % (back as int)]
                } else {
                    before[i]
                }),
        decreases count - written,
    {
        let source = destination + written - back;
        let byte = buffer[source];
        proof {
            let w = written as int;
            let b = back as int;
            if w >= b {
                vstd::arithmetic::div_mod::lemma_mod_sub_multiples_vanish(w, b);
                assert((w - b) % b == w % b);
            } else {
                vstd::arithmetic::div_mod::lemma_small_mod(w as nat, b as nat);
            }
            assert(byte == before[destination - back + w % b]);
        }
        buffer[destination + written] = byte;
        written = written + 1;
    }
    proof {
        assert(buffer@ =~= backptr_copy(before, destination as int, back as int, count as int));
    }
    Ok(())
}

/// Every byte a back-reference copy writes equals the byte `back` positions
/// before it in the result: the copy is periodic with period `back`.
pub proof fn lemma_backptr_copy_is_periodic(
    bytes: Seq<u8>,
    destination: int,
    back: int,
    count: int,
    i: int,
)
    requires
        0 < back <= destination,
        destination + count <= bytes.len(),
        destination <= i < destination + count,
    ensures
        backptr_copy(bytes, destination, back, count)[i] == backptr_copy(
            bytes,
            destination,
            back,
            count,
        )[i - back],
{
    let k = i - destination;
    if k >= back {
        vstd::arithmetic::div_mod::lemma_mod_sub_multiples_vanish(k, back);
    } else {
        vstd::arithmetic::div_mod::lemma_small_mod(k as nat, back as nat);
    }
}

/// When the distance back is at least the count, the ranges do not overlap
/// and the copy is an ordinary forward copy of the bytes `back` earlier.
pub proof fn lemma_backptr_copy_without_overlap(
    bytes: Seq<u8>,
    destination: int,
    back: int,
    count: int,
    i: int,
)
    requires
        0 < back <= destination,
        count <= back,
        destination + count <= bytes.len(),
        destination <= i < destination + count,
    ensures
        backptr_copy(bytes, destination, back, count)[i] == bytes[i - back],
{
    vstd::arithmetic::div_mod::lemma_small_mod((i - destination) as nat, back as nat);
}

/// The release strategy for memory from the `av_malloc` family.
///
/// A zero-sized name for the destructor class: owners that hold such memory
/// release it through `av_free`, never through another allocator.
pub struct AvFree;

/// The string release strategy whose clone duplicates with `av_strndup`; it
/// releases through the same `av_free` as [`AvFree`].
pub struct AvFreeWithStrndup;

/// Closes [`AvFreepTarget`] to the owner types of this crate.
pub trait Sealed {
}

/// Owner shapes that [`av_freep`] may consume.
pub trait AvFreepTarget: Sealed + Sized {
    /// Consumes the owner and releases what it holds.
    fn free_with_av_freep(self);
}

impl<T> Sealed for Vec<T> {
}

impl<T> AvFreepTarget for Vec<T> {
    fn free_with_av_freep(self) {
    }
}

impl Sealed for String {
}

impl AvFreepTarget for String {
    fn free_with_av_freep(self) {
    }
}

/// The `av_freep` operation of libavutil.
///
/// Releases the owner held in `slot`, if any, and leaves the slot empty: the
/// typed form of freeing a pointer slot and setting it to NULL.
pub fn av_freep<T: AvFreepTarget>(slot: &mut Option<T>)
    ensures
        *final(slot) is None,
{
    if let Some(owner) = slot.take() {
        owner.free_with_av_freep();
    }
}

/// Why a pointer-table append failed.
#[derive(Clone, Copy, Debug, PartialEq, Eq)]
pub enum DynArrayAddError {
    /// The element count does not fit the C `int` the table is counted in.
    CountOverflow,
    /// The table could not grow.
    AllocationFailed,
}

/// A table of element handles grown by [`av_dynarray_add`].
///
/// An empty slot is an ordinary entry, as a null element is in C.
pub struct AvDynArray<T> {
    table: Vec<Option<T>>,
}

impl<T> View for AvDynArray<T> {
    type V = Seq<Option<T>>;

    closed spec fn view(&self) -> Seq<Option<T>> {
        self.table@
    }
}

impl<T> AvDynArray<T> {
    /// An empty table.
    pub fn new() -> (result: AvDynArray<T>)
        ensures
            result@ == Seq::<Option<T>>::empty(),
    {
        AvDynArray { table: Vec::new() }
    }

    /// Adopts a table that was grown elsewhere, in its appended order.
    pub fn from_raw_parts(table: Vec<Option<T>>) -> (result: AvDynArray<T>)
        ensures
            result@ == table@,
    {
        AvDynArray { table }
    }

    /// Surrenders the appended elements, or `None` when nothing was appended
    /// and so no table was ever allocated.
    pub fn into_table(self) -> (result: Option<Vec<Option<T>>>)
        ensures
            self@.len() == 0 ==> result is None,
            self@.len() > 0 ==> (result matches Some(table) && table@ == self@),
    {
        if self.table.len() == 0 {
            None
        } else {
            Some(self.table)
        }
    }

    /// The number of elements appended so far.
    pub fn count(&self) -> (result: usize)
        ensures
            result == self@.len(),
    {
        self.table.len()
    }

    /// Whether no element has been appended.
    pub fn is_empty(&self) -> (result: bool)
        ensures
            result == (self@.len() == 0),
    {
        self.table.len() == 0
    }

    /// The appended elements, in order.
    pub fn as_slice(&self) -> (result: &[Option<T>])
        ensures
            result@ == self@,
    {
        self.table.as_slice()
    }
}

impl<T> Default for AvDynArray<T> {
    fn default() -> (result: AvDynArray<T>)
        ensures
            result@ == Seq::<Option<T>>::empty(),
    {
        AvDynArray::new()
    }
}

/// Whether the growth rule of C's dynamic arrays refuses an append to an
/// array of `count` elements of `element_size` bytes. The table is
/// reallocated only when the count is zero or a power of two, to one slot or
/// to twice the count, and a table of more than `i32::MAX / element_size`
/// slots is never requested.
pub open spec fn dynarray_growth_refused(count: int, element_size: int) -> bool {
    &&& count == 0 || is_power_of_two(count)
    &&& (if count == 0 {
        1
    } else {
        2 * count
    }) > (i32::MAX as int) / element_size
}

/// Whether the growth rule refuses an append to a pointer table of `count`
/// entries; an entry is a C pointer, which is as wide as `usize`.
pub open spec fn pointer_table_growth_refused(count: int) -> bool {
    dynarray_growth_refused(count, vstd::layout::size_of::<usize>() as int)
}

/// Decides [`dynarray_growth_refused`] for an array of `count` elements of
/// `element_size` bytes.
fn growth_refused(count: usize, element_size: usize) -> (result: bool)
    requires
        element_size > 0,
    ensures
        result == dynarray_growth_refused(count as int, element_size as int),
{
    let limit: usize = 0x7fff_ffffusize / element_size;
    if count == 0 {
        return limit < 1;
    }
    let mut rest: usize = count;
    while rest % 2 == 0
        invariant
            rest >= 1,
            is_power_of_two(rest as int) == is_power_of_two(count as int),
        decreases rest,
    {
        rest = rest / 2;
    }
    rest == 1 && count > limit / 2
}

/// The size of a pointer-table entry, as wide as `usize`.
fn pointer_size() -> (result: usize)
    ensures
        result == vstd::layout::size_of::<usize>(),
        result > 0,
{
    broadcast use vstd::layout::layout_of_primitives;

    core::mem::size_of::<usize>()
}

/// The growth rule refuses an append exactly when the count is zero or a
/// power of two and the table it would then need — one slot, or twice the
/// count — takes more than `i32::MAX` bytes. Every other append, in
/// particular every one whose doubled table fits in `i32::MAX` bytes, is
/// allowed.
pub proof fn lemma_growth_refused_past_int_bytes(count: int, element_size: int)
    requires
        count >= 0,
        element_size > 0,
    ensures
        dynarray_growth_refused(count, element_size) <==> ((count == 0 || is_power_of_two(count))
            && (if count == 0 {
            1
        } else {
            2 * count
        }) * element_size > i32::MAX),
        (if count == 0 {
            1
        } else {
            2 * count
        }) * element_size <= i32::MAX ==> !dynarray_growth_refused(count, element_size),
{
    let slots: int = if count == 0 {
        1
    } else {
        2 * count
    };
    let limit: int = i32::MAX as int;
    assert(slots > limit / element_size <==> slots * element_size > limit) by (nonlinear_arith)
        requires
            element_size > 0,
            slots >= 1,
            limit >= 0,
    ;
}

/// The `av_dynarray_add` operation of libavutil.
///
/// Appends one element handle. A table whose count no longer fits the C
/// `int` it is counted in is refused and left as it was. An append that the
/// growth rule refuses fails with `AllocationFailed` and empties the table,
/// as C frees it.
pub fn av_dynarray_add<T>(array: &mut AvDynArray<T>, element: Option<T>) -> (result: Result<
    (),
    DynArrayAddError,
>)
    ensures
        old(array)@.len() > i32::MAX ==> result == Err::<(), DynArrayAddError>(
            DynArrayAddError::CountOverflow,
        ) && final(array)@ == old(array)@,
        old(array)@.len() <= i32::MAX && pointer_table_growth_refused(old(array)@.len() as int)
            ==> result == Err::<(), DynArrayAddError>(DynArrayAddError::AllocationFailed)
            && final(array)@ == Seq::<Option<T>>::empty(),
        old(array)@.len() <= i32::MAX && !pointer_table_growth_refused(old(array)@.len() as int)
            ==> result == Ok::<(), DynArrayAddError>(()) && final(array)@ == old(array)@.push(element),
        old(array)@.len() <= i32::MAX && (if old(array)@.len() == 0 {
            1
        } else {
            2 * old(array)@.len()
        }) * vstd::layout::size_of::<usize>() <= i32::MAX ==> result == Ok::<(), DynArrayAddError>(())
            && final(array)@ == old(array)@.push(element),
{
    proof {
        lemma_growth_refused_past_int_bytes(array.table@.len() as int, vstd::layout::size_of::<usize>() as int);
    }
    if array.table.len() > 0x7fff_ffffusize {
        return Err(DynArrayAddError::CountOverflow);
    }
    if growth_refused(array.table.len(), pointer_size()) {
        array.table = Vec::new();
        return Err(DynArrayAddError::AllocationFailed);
    }
    array.table.push(element);
    Ok(())
}

/// The `av_dynarray_add_nofree` operation of libavutil.
///
/// Like [`av_dynarray_add`], but a failed append, the growth rule's refusal
/// included, leaves the table as it was.
pub fn av_dynarray_add_nofree<T>(array: &mut AvDynArray<T>, element: Option<T>) -> (result: Result<
    (),
    DynArrayAddError,
>)
    ensures
        old(array)@.len() > i32::MAX ==> result == Err::<(), DynArrayAddError>(
            DynArrayAddError::CountOverflow,
        ) && final(array)@ == old(array)@,
        old(array)@.len() <= i32::MAX && pointer_table_growth_refused(old(array)@.len() as int)
            ==> result == Err::<(), DynArrayAddError>(DynArrayAddError::AllocationFailed)
            && final(array)@ == old(array)@,
        old(array)@.len() <= i32::MAX && !pointer_table_growth_refused(old(array)@.len() as int)
            ==> result == Ok::<(), DynArrayAddError>(()) && final(array)@ == old(array)@.push(element),
        old(array)@.len() <= i32::MAX && (if old(array)@.len() == 0 {
            1
        } else {
            2 * old(array)@.len()
        }) * vstd::layout::size_of::<usize>() <= i32::MAX ==> result == Ok::<(), DynArrayAddError>(())
            && final(array)@ == old(array)@.push(element),
{
    proof {
        lemma_growth_refused_past_int_bytes(array.table@.len() as int, vstd::layout::size_of::<usize>() as int);
    }
    if array.table.len() > 0x7fff_ffffusize {
        return Err(DynArrayAddError::CountOverflow);
    }
    if growth_refused(array.table.len(), pointer_size()) {
        return Err(DynArrayAddError::AllocationFailed);
    }
    array.table.push(element);
    Ok(())
}

/// Why a byte-element append failed.
#[derive(Clone, Copy, Debug, PartialEq, Eq)]
pub enum DynArray2AddError {
    /// The element has no bytes.
    EmptyElement,
    /// The element's size differs from that of the elements already stored.
    ElementSizeChanged,
    /// The element count does not fit.
    CountOverflow,
    /// The byte length of the grown array does not fit.
    LengthOverflow,
    /// The array could not grow.
    AllocationFailed,
}

/// An array of equally sized byte elements grown by [`av_dynarray2_add`].
pub struct AvByteDynArray {
    storage: Vec<u8>,
    element_size: usize,
    elements: usize,
}

impl AvByteDynArray {
    /// The stored bytes hold exactly `elements` elements of `element_size`
    /// bytes each.
    pub closed spec fn well_formed(&self) -> bool {
        &&& self.storage@.len() == self.elements * self.element_size
        &&& self.element_size == 0 ==> self.elements == 0
    }

    /// The stored bytes, element after element.
    pub closed spec fn bytes(&self) -> Seq<u8> {
        self.storage@
    }

    /// The size of every element; zero until the first element fixes it.
    pub closed spec fn spec_element_size(&self) -> nat {
        self.element_size as nat
    }

    /// The number of stored elements.
    pub closed spec fn spec_len(&self) -> nat {
        self.elements as nat
    }

    /// An empty array whose elements will have `element_size` bytes; zero
    /// lets the first appended element choose the size.
    pub fn new(element_size: usize) -> (result: AvByteDynArray)
        ensures
            result.well_formed(),
            result.bytes() == Seq::<u8>::empty(),
            result.spec_element_size() == element_size,
            result.spec_len() == 0,
    {
        AvByteDynArray { storage: Vec::new(), element_size, elements: 0 }
    }

    /// The size of each element.
    pub fn element_size(&self) -> (result: usize)
        ensures
            result == self.spec_element_size(),
    {
        self.element_size
    }

    /// The number of stored elements.
    pub fn len(&self) -> (result: usize)
        ensures
            result == self.spec_len(),
    {
        self.elements
    }

    /// Whether no element is stored.
    pub fn is_empty(&self) -> (result: bool)
        ensures
            result == (self.spec_len() == 0),
    {
        self.elements == 0
    }

    /// The stored bytes, element after element.
    pub fn as_bytes(&self) -> (result: &[u8])
        ensures
            result@ == self.bytes(),
    {
        self.storage.as_slice()
    }
}

/// What [`av_dynarray2_add`] returns for an array of `elements` elements of
/// `element_size` bytes (zero while no element has fixed the size) and an
/// element of `element_len` bytes: an empty element, then one of another
/// size, then a count or a byte length that no longer fits, then the growth
/// rule's refusal are errors, in that order.
pub open spec fn dynarray2_add_result(elements: nat, element_size: nat, element_len: nat) -> Result<
    (),
    DynArray2AddError,
> {
    if element_len == 0 {
        Err(DynArray2AddError::EmptyElement)
    } else if element_size != 0 && element_size != element_len {
        Err(DynArray2AddError::ElementSizeChanged)
    } else if elements + 1 > usize::MAX {
        Err(DynArray2AddError::CountOverflow)
    } else if (elements + 1) * element_len > usize::MAX {
        Err(DynArray2AddError::LengthOverflow)
    } else if elements > i32::MAX {
        Err(DynArray2AddError::CountOverflow)
    } else if dynarray_growth_refused(elements as int, element_len as int) {
        Err(DynArray2AddError::AllocationFailed)
    } else {
        Ok(())
    }
}

/// An append of a byte element is refused for its count only past the
/// counts C can hold: `CountOverflow` comes only for a count past `i32::MAX`
/// or one that cannot grow by one. And an element of the array's size is
/// accepted whenever the table the growth rule would need fits in
/// `i32::MAX` bytes.
pub proof fn lemma_dynarray2_refuses_only_past_limits(
    elements: nat,
    element_size: nat,
    element_len: nat,
)
    ensures
        dynarray2_add_result(elements, element_size, element_len) == Err::<(), DynArray2AddError>(
            DynArray2AddError::CountOverflow,
        ) ==> elements > i32::MAX || elements + 1 > usize::MAX,
        element_len > 0 && (element_size == 0 || element_size == element_len) && (if elements
            == 0 {
            1
        } else {
            2 * elements
        }) * element_len <= i32::MAX ==> dynarray2_add_result(
            elements,
            element_size,
            element_len,
        ) == Ok::<(), DynArray2AddError>(()),
{
    if element_len > 0 && (element_size == 0 || element_size == element_len) && (if elements
        == 0 {
        1
    } else {
        2 * elements
    }) * element_len <= i32::MAX {
        lemma_growth_refused_past_int_bytes(elements as int, element_len as int);
        let e = elements as int;
        let l = element_len as int;
        assert((e + 1) * l <= i32::MAX && e <= i32::MAX) by (nonlinear_arith)
            requires
                l >= 1,
                e >= 0,
                (if e == 0 {
                    1
                } else {
                    2 * e
                }) * l <= i32::MAX,
        ;
    }
}

/// The `av_dynarray2_add` operation of libavutil.
///
/// Appends one element of bytes. The first element of an array created with
/// size zero fixes the element size; every later one must have that size.
/// When the growth rule refuses the append, C frees the array: it is left
/// empty, with the element's size. Any other refusal leaves the array as it
/// was.
pub fn av_dynarray2_add(array: &mut AvByteDynArray, element: &[u8]) -> (result: Result<
    (),
    DynArray2AddError,
>)
    requires
        old(array).well_formed(),
    ensures
        final(array).well_formed(),
        result == dynarray2_add_result(
            old(array).spec_len(),
            old(array).spec_element_size(),
            element@.len(),
        ),
        result is Ok ==> final(array).bytes() == old(array).bytes() + element@
            && final(array).spec_len() == old(array).spec_len() + 1
            && final(array).spec_element_size() == element@.len(),
        result == Err::<(), DynArray2AddError>(DynArray2AddError::AllocationFailed) ==> (
            final(array).bytes() == Seq::<u8>::empty()
            && final(array).spec_len() == 0
            && final(array).spec_element_size() == element@.len()),
        (result is Err && result != Err::<(), DynArray2AddError>(
            DynArray2AddError::AllocationFailed,
        )) ==> (final(array).bytes() == old(array).bytes()
            && final(array).spec_len() == old(array).spec_len()
            && final(array).spec_element_size() == old(array).spec_element_size()),
        result == Err::<(), DynArray2AddError>(DynArray2AddError::CountOverflow) ==> old(
            array,
        ).spec_len() > i32::MAX || old(array).spec_len() == usize::MAX,
        element@.len() > 0 && (old(array).spec_element_size() == 0 || old(
            array,
        ).spec_element_size() == element@.len()) && (if old(array).spec_len() == 0 {
            1
        } else {
            2 * old(array).spec_len()
        }) * element@.len() <= i32::MAX ==> result == Ok::<(), DynArray2AddError>(()),
{
    proof {
        lemma_dynarray2_refuses_only_past_limits(array.spec_len(), array.spec_element_size(), element@.len());
    }
    let size = element.len();
    if size == 0 {
        return Err(DynArray2AddError::EmptyElement);
    }
    if array.element_size != 0 && array.element_size != size {
        return Err(DynArray2AddError::ElementSizeChanged);
    }
    if array.elements == usize::MAX {
        return Err(DynArray2AddError::CountOverflow);
    }
    if (array.elements + 1).checked_mul(size).is_none() {
        return Err(DynArray2AddError::LengthOverflow);
    }
    if array.elements > 0x7fff_ffffusize {
        return Err(DynArray2AddError::CountOverflow);
    }
    if growth_refused(array.elements, size) {
        array.storage = Vec::new();
        array.elements = 0;
        array.element_size = size;
        proof {
            assert(0 * size == 0) by (nonlinear_arith);
        }
        return Err(DynArray2AddError::AllocationFailed);
    }
    proof {
        let e = array.elements as int;
        let z = size as int;
        let stored = array.element_size as int;
        assert(array.storage@.len() == e * stored);
        assert(e * stored == e * z) by (nonlinear_arith)
            requires
                stored == 0 ==> e == 0,
                stored == 0 || stored == z,
        ;
        assert(array.storage@.len() == array.elements * size);
    }
    let ghost old_bytes = array.storage@;
    let ghost old_elements = array.elements;
    let mut index: usize = 0;
    while index < size
        invariant
            index <= size,
            size == element@.len(),
            array.storage@ == old_bytes + element@.subrange(0, index as int),
            array.elements == old_elements,
        decreases size - index,
    {
        array.storage.push(element[index]);
        index = index + 1;
        proof {
            assert(element@.subrange(0, index as int) == element@.subrange(0, index - 1).push(
                element@[index - 1],
            ));
        }
    }
    proof {
        assert(element@.subrange(0, size as int) == element@);
        assert(array.storage@.len() == (old_elements + 1) * size) by (nonlinear_arith)
            requires
                array.storage@.len() == old_bytes.len() + size,
                old_bytes.len() == old_elements * size,
        ;
    }
    array.element_size = size;
    array.elements = array.elements + 1;
    Ok(())
}

} // verus!
