//! The print-buffer header of `libavutil/bprint.h` and the length checks of
//! its appending operations.

use vstd::prelude::*;

verus! {

/// The scalar fields of a print buffer: how much content was requested,
/// how large the string buffer is, and how large it may grow.
#[derive(Clone, Copy, Debug, PartialEq, Eq)]
pub struct AVBPrintRef {
    len: u32,
    size: u32,
    size_max: u32,
}

/// The number of initialized content bytes of a print buffer: the requested
/// length, cut to the buffer's capacity less its terminator.
pub open spec fn initialized_len_spec(len: u32, size: u32) -> int {
    let room: int = if size == 0 {
        0
    } else {
        size - 1
    };
    if len < room {
        len as int
    } else {
        room
    }
}

impl AVBPrintRef {
    /// Field: AVBPrint.len
    pub closed spec fn spec_len(&self) -> u32 {
        self.len
    }

    /// Field: AVBPrint.size
    pub closed spec fn spec_size(&self) -> u32 {
        self.size
    }

    /// Field: AVBPrint.size_max
    pub closed spec fn spec_size_max(&self) -> u32 {
        self.size_max
    }

    /// The header fields as read from a print buffer.
    pub fn new(len: u32, size: u32, size_max: u32) -> (result: AVBPrintRef)
        ensures
            result.spec_len() == len,
            result.spec_size() == size,
            result.spec_size_max() == size_max,
    {
        AVBPrintRef { len, size, size_max }
    }

    /// Field: AVBPrint.len
    ///
    /// The total requested content length, which can exceed the content the
    /// buffer holds once it was truncated.
    pub fn len(&self) -> (result: u32)
        ensures
            result == self.spec_len(),
    {
        self.len
    }

    /// Whether no content has been requested.
    pub fn is_empty(&self) -> (result: bool)
        ensures
            result == (self.spec_len() == 0),
    {
        self.len == 0
    }

    /// Field: AVBPrint.size
    ///
    /// The string buffer's capacity, terminator included.
    pub fn size(&self) -> (result: u32)
        ensures
            result == self.spec_size(),
    {
        self.size
    }

    /// Field: AVBPrint.size_max
    ///
    /// The largest capacity the buffer may grow to.
    pub fn size_max(&self) -> (result: u32)
        ensures
            result == self.spec_size_max(),
    {
        self.size_max
    }

    /// The number of content bytes the buffer holds: `min(len, size - 1)`,
    /// since `len` keeps growing after the content was truncated.
    pub fn initialized_len(&self) -> (result: usize)
        ensures
            result == initialized_len_spec(self.spec_len(), self.spec_size()),
    {
        let room: u32 = if self.size == 0 {
            0
        } else {
            self.size - 1
        };
        if self.len < room {
            self.len as usize
        } else {
            room as usize
        }
    }

    /// Whether the buffer holds every requested byte: nothing was truncated.
    pub fn is_complete(&self) -> (result: bool)
        ensures
            result == (self.spec_len() < self.spec_size()),
    {
        self.len < self.size
    }
}

/// The held content never exceeds the requested length nor the capacity
/// less its terminator, and equals the requested length exactly when the
/// buffer is complete.
pub proof fn lemma_initialized_len_bounds(len: u32, size: u32)
    ensures
        initialized_len_spec(len, size) <= len,
        size > 0 ==> initialized_len_spec(len, size) <= size - 1,
        len < size ==> initialized_len_spec(len, size) == len,
{
}

/// A data length that does not fit the `unsigned` length print buffers
/// count in.
#[derive(Clone, Copy, Debug, PartialEq, Eq)]
pub struct BPrintLengthOverflow;

/// The length of data to append, as the `unsigned` a print buffer counts
/// in; refused when it does not fit.
pub fn append_data_size(len: usize) -> (result: Result<u32, BPrintLengthOverflow>)
    ensures
        len <= u32::MAX ==> result == Ok::<u32, BPrintLengthOverflow>(len as u32),
        len > u32::MAX ==> result == Err::<u32, BPrintLengthOverflow>(BPrintLengthOverflow),
{
    if len > 0xffff_ffffusize {
        Err(BPrintLengthOverflow)
    } else {
        Ok(len as u32)
    }
}

/// The capacity of caller storage lent to a print buffer, or `None` when the
/// storage is larger than the `unsigned` capacity a print buffer records.
pub fn borrowed_storage_size(len: usize) -> (result: Option<u32>)
    ensures
        len <= u32::MAX ==> result == Some(len as u32),
        len > u32::MAX ==> result is None,
{
    if len > 0xffff_ffffusize {
        None
    } else {
        Some(len as u32)
    }
}

/// A print buffer laid over caller-owned storage: the buffer never grows
/// past that storage, so its header alone describes it.
pub struct BorrowedAVBPrint {
    header: AVBPrintRef,
}

impl BorrowedAVBPrint {
    /// The header of the print buffer.
    pub closed spec fn spec_header(&self) -> AVBPrintRef {
        self.header
    }

    /// A print buffer over storage whose header reads `header`.
    pub fn from_header(header: AVBPrintRef) -> (result: BorrowedAVBPrint)
        ensures
            result.spec_header() == header,
    {
        BorrowedAVBPrint { header }
    }

    /// The header fields of the print buffer.
    pub fn as_ref(&self) -> (result: AVBPrintRef)
        ensures
            result == self.spec_header(),
    {
        self.header
    }
}

} // verus!
