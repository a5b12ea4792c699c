//! The checks around dictionary operations of `libavutil/dict.h`.

use vstd::prelude::*;

verus! {

/// The flag telling a copy to take ownership of the key instead of
/// duplicating it.
pub const DONT_STRDUP_KEY: i32 = 4;

/// The flag telling a copy to take ownership of the value instead of
/// duplicating it.
pub const DONT_STRDUP_VALUE: i32 = 8;

/// An entry found in a dictionary, with the identity of the dictionary it
/// belongs to and its position there.
#[derive(Clone, Debug, PartialEq, Eq)]
pub struct DictionaryEntry {
    key: Vec<u8>,
    value: Vec<u8>,
    dictionary: usize,
    position: usize,
}

impl DictionaryEntry {
    /// The entry's key.
    pub closed spec fn spec_key(&self) -> Seq<u8> {
        self.key@
    }

    /// The entry's value.
    pub closed spec fn spec_value(&self) -> Seq<u8> {
        self.value@
    }

    /// The identity of the dictionary the entry belongs to.
    pub closed spec fn spec_dictionary(&self) -> usize {
        self.dictionary
    }

    /// The entry's position in its dictionary.
    pub closed spec fn spec_position(&self) -> usize {
        self.position
    }

    /// The entry at `position` of dictionary `dictionary`.
    pub fn new(key: Vec<u8>, value: Vec<u8>, dictionary: usize, position: usize) -> (result: DictionaryEntry)
        ensures
            result.spec_key() == key@,
            result.spec_value() == value@,
            result.spec_dictionary() == dictionary,
            result.spec_position() == position,
    {
        DictionaryEntry { key, value, dictionary, position }
    }

    /// The entry's key.
    pub fn key(&self) -> (result: &[u8])
        ensures
            result@ == self.spec_key(),
    {
        self.key.as_slice()
    }

    /// The entry's value.
    pub fn value(&self) -> (result: &[u8])
        ensures
            result@ == self.spec_value(),
    {
        self.value.as_slice()
    }
}

/// An entry offered as the cursor of a search in a dictionary it does not
/// belong to.
#[derive(Clone, Copy, Debug, PartialEq, Eq)]
pub struct DictionaryEntryMismatch;

/// The position a search continues after: none for a fresh search, the
/// entry's own when it belongs to `dictionary`, and a refusal when it
/// belongs to another dictionary.
pub fn previous_pointer(dictionary: usize, previous: Option<&DictionaryEntry>) -> (result: Result<
    Option<usize>,
    DictionaryEntryMismatch,
>)
    ensures
        previous is None ==> result == Ok::<Option<usize>, DictionaryEntryMismatch>(None),
        previous matches Some(entry) ==> (entry.spec_dictionary() != dictionary ==> result
            == Err::<Option<usize>, DictionaryEntryMismatch>(DictionaryEntryMismatch)),
        previous matches Some(entry) ==> (entry.spec_dictionary() == dictionary ==> result
            == Ok::<Option<usize>, DictionaryEntryMismatch>(Some(entry.spec_position()))),
{
    match previous {
        None => Ok(None),
        Some(entry) => {
            if entry.dictionary != dictionary {
                Err(DictionaryEntryMismatch)
            } else {
                Ok(Some(entry.position))
            }
        },
    }
}

/// Turns a libavutil status into a result: negative is the error.
pub fn status_result(status: i32) -> (result: Result<(), i32>)
    ensures
        status < 0 ==> result == Err::<(), i32>(status),
        status >= 0 ==> result == Ok::<(), i32>(()),
{
    if status < 0 {
        Err(status)
    } else {
        Ok(())
    }
}

/// The flags a copy from a borrowed dictionary runs with: the two
/// ownership-transfer flags are cleared, so both strings are duplicated.
pub fn copy_flags(flags: i32) -> (result: i32)
    ensures
        result == flags & !(DONT_STRDUP_KEY | DONT_STRDUP_VALUE),
        result & DONT_STRDUP_KEY == 0,
        result & DONT_STRDUP_VALUE == 0,
{
    let cleared = flags & !(4i32 | 8i32);
    assert(cleared & 4i32 == 0) by (bit_vector)
        requires
            cleared == flags & !(4i32 | 8i32),
    ;
    assert(cleared & 8i32 == 0) by (bit_vector)
        requires
            cleared == flags & !(4i32 | 8i32),
    ;
    cleared
}

} // verus!
