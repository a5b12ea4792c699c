//! The data window of a buffer reference, from `libavutil/buffer.h`.

use vstd::prelude::*;

verus! {

/// The data window of one buffer reference: where the window starts inside
/// the underlying buffer (`None` for a null data pointer) and how many bytes
/// it covers.
#[derive(Clone, Copy, Debug, PartialEq, Eq)]
pub struct AVBufferReference {
    data: Option<usize>,
    size: usize,
}

impl AVBufferReference {
    /// A window lies in memory, so where it has data its end fits the
    /// address space.
    #[verifier::type_invariant]
    spec fn end_fits(&self) -> bool {
        self.data matches Some(start) ==> start + self.size <= usize::MAX
    }

    /// The offset of the window into the underlying buffer, if any.
    pub closed spec fn spec_data(&self) -> Option<usize> {
        self.data
    }

    /// The number of bytes the window covers.
    pub closed spec fn spec_size(&self) -> usize {
        self.size
    }

    /// Where the window ends inside the underlying buffer, if it has data.
    pub open spec fn window_end(&self) -> Option<int> {
        match self.spec_data() {
            Some(start) => Some(start + self.spec_size()),
            None => None,
        }
    }

    /// A window of `size` bytes starting at `data`.
    pub fn new(data: Option<usize>, size: usize) -> (result: AVBufferReference)
        requires
            data matches Some(start) ==> start + size <= usize::MAX,
        ensures
            result.spec_data() == data,
            result.spec_size() == size,
    {
        AVBufferReference { data, size }
    }

    /// The offset of the window into the underlying buffer, if any.
    pub fn data(&self) -> (result: Option<usize>)
        ensures
            result == self.spec_data(),
    {
        self.data
    }

    /// Field: AVBufferRef.size
    ///
    /// The length of the current data window in bytes.
    pub fn size(&self) -> (result: usize)
        ensures
            result == self.spec_size(),
    {
        self.size
    }

    /// Shortens the window to `new_size` bytes without moving its start;
    /// refuses, changing nothing, to make it longer.
    pub fn truncate(&mut self, new_size: usize) -> (result: bool)
        ensures
            result == (new_size <= old(self).spec_size()),
            result ==> final(self).spec_size() == new_size && final(self).spec_data() == old(self).spec_data(),
            !result ==> *final(self) == *old(self),
    {
        if new_size > self.size {
            return false;
        }
        proof {
            use_type_invariant(&*self);
        }
        *self = AVBufferReference { data: self.data, size: new_size };
        true
    }

    /// Removes `bytes` from the start of the window. Refuses, changing
    /// nothing, to remove more than the window holds, or any byte from a
    /// window without data.
    pub fn advance(&mut self, bytes: usize) -> (result: bool)
        ensures
            result == (bytes <= old(self).spec_size() && (bytes == 0 || old(self).spec_data() is Some)),
            result ==> final(self).spec_size() == old(self).spec_size() - bytes && final(self).spec_data() == (match old(self).spec_data() {
                Some(start) => Some((start + bytes) as usize),
                None => None::<usize>,
            }),
            result ==> final(self).window_end() == old(self).window_end(),
            !result ==> *final(self) == *old(self),
    {
        proof {
            use_type_invariant(&*self);
        }
        if bytes > self.size {
            return false;
        }
        match self.data {
            None => {
                if bytes != 0 {
                    return false;
                }
                true
            },
            Some(start) => {
                *self = AVBufferReference { data: Some(start + bytes), size: self.size - bytes };
                true
            },
        }
    }

    /// Whether writing `src_len` bytes over the whole window goes ahead: the
    /// bytes must cover the window exactly, the underlying buffer must be
    /// writable by this reference alone (`writable`), and a window without
    /// data can only take an empty write.
    pub fn write_all_accepted(&self, src_len: usize, writable: bool) -> (result: bool)
        ensures
            result == (src_len == self.spec_size() && writable && (self.spec_data() is Some
                || src_len == 0)),
    {
        if src_len != self.size {
            return false;
        }
        if !writable {
            return false;
        }
        match self.data {
            Some(_) => true,
            None => src_len == 0,
        }
    }
}

} // verus!
