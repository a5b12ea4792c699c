//! String helpers of `libavutil/avstring.c`.

use vstd::prelude::*;
use vstd::std_specs::convert::FromSpecImpl;

verus! {

/// Escaping syntax selector for `av_escape`, held as its integer value.
///
/// Every integer remains a valid value, including a mode a newer libavutil
/// introduces.
#[derive(Clone, Copy, Debug, PartialEq, Eq, Hash, PartialOrd, Ord)]
pub struct AVEscapeMode(pub u32);

impl AVEscapeMode {
    /// Let libavutil select the escaping syntax.
    #[allow(non_snake_case)]
    pub fn AUTO() -> (result: AVEscapeMode)
        ensures
            result.0 == 0,
    {
        AVEscapeMode(0)
    }

    /// Escape special characters with backslashes.
    #[allow(non_snake_case)]
    pub fn BACKSLASH() -> (result: AVEscapeMode)
        ensures
            result.0 == 1,
    {
        AVEscapeMode(1)
    }

    /// Escape with single-quoted segments.
    #[allow(non_snake_case)]
    pub fn QUOTE() -> (result: AVEscapeMode)
        ensures
            result.0 == 2,
    {
        AVEscapeMode(2)
    }

    /// Escape XML non-markup character data.
    #[allow(non_snake_case)]
    pub fn XML() -> (result: AVEscapeMode)
        ensures
            result.0 == 3,
    {
        AVEscapeMode(3)
    }

    /// Wraps a raw value, including one unknown to this crate version.
    pub fn from_raw(value: u32) -> (result: AVEscapeMode)
        ensures
            result.0 == value,
    {
        AVEscapeMode(value)
    }

    /// Returns the raw value libavutil uses.
    pub fn as_raw(self) -> (result: u32)
        ensures
            result == self.0,
    {
        self.0
    }

}

impl From<u32> for AVEscapeMode {
    fn from(value: u32) -> (result: AVEscapeMode) {
        AVEscapeMode::from_raw(value)
    }
}

impl FromSpecImpl<u32> for AVEscapeMode {
    open spec fn obeys_from_spec() -> bool {
        true
    }

    open spec fn from_spec(value: u32) -> AVEscapeMode {
        AVEscapeMode(value)
    }
}

impl From<AVEscapeMode> for u32 {
    fn from(value: AVEscapeMode) -> (result: u32) {
        value.as_raw()
    }
}

impl FromSpecImpl<AVEscapeMode> for u32 {
    open spec fn obeys_from_spec() -> bool {
        true
    }

    open spec fn from_spec(value: AVEscapeMode) -> u32 {
        value.0
    }
}

/// Why a format string was refused by [`av_asprintf`].
#[derive(Clone, Copy, Debug, PartialEq, Eq)]
pub enum AsprintfError {
    /// The format holds a conversion, which would read an argument this
    /// argument-free form does not pass.
    UnsupportedFormatSpecifier,
    /// The result could not be allocated.
    AllocationFailed,
}

/// Whether every `%` of `format`, read from the left, begins an escaped
/// `%%` pair.
pub open spec fn only_escaped_percents(format: Seq<u8>) -> bool
    decreases format.len(),
{
    if format.len() == 0 {
        true
    } else if format[0] == 37 {
        format.len() >= 2 && format[1] == 37 && only_escaped_percents(format.skip(2))
    } else {
        only_escaped_percents(format.skip(1))
    }
}

/// The text a format of escaped pairs prints: each `%%` becomes one `%`.
pub open spec fn printed_text(format: Seq<u8>) -> Seq<u8>
    decreases format.len(),
{
    if format.len() == 0 {
        Seq::empty()
    } else if format[0] == 37 && format.len() >= 2 {
        seq![37u8] + printed_text(format.skip(2))
    } else {
        seq![format[0]] + printed_text(format.skip(1))
    }
}

/// The `av_asprintf` operation of libavutil.
///
/// Prints a format that takes no argument: every `%` must be escaped as
/// `%%`, which prints a single `%`. A format holding any conversion is
/// refused, since it would read an argument that is never passed.
pub fn av_asprintf(format: &[u8]) -> (result: Result<Vec<u8>, AsprintfError>)
    ensures
        only_escaped_percents(format@) ==> (result matches Ok(text) && text@ == printed_text(
            format@,
        )),
        !only_escaped_percents(format@) ==> result == Err::<Vec<u8>, AsprintfError>(
            AsprintfError::UnsupportedFormatSpecifier,
        ),
{
    let length = format.len();
    let mut text: Vec<u8> = Vec::new();
    let mut index: usize = 0;
    proof {
        assert(format@.skip(0) =~= format@);
    }
    while index < length
        invariant
            index <= length,
            length == format@.len(),
            only_escaped_percents(format@) == only_escaped_percents(format@.skip(index as int)),
            text@ + printed_text(format@.skip(index as int)) == printed_text(format@),
        decreases length - index,
    {
        let rest = Ghost(format@.skip(index as int));
        if format[index] == 37u8 {
            if index + 1 >= length || format[index + 1] != 37u8 {
                return Err(AsprintfError::UnsupportedFormatSpecifier);
            }
            proof {
                assert(rest@.skip(2) =~= format@.skip(index + 2));
                assert(text@.push(37u8) + printed_text(format@.skip(index + 2)) =~= text@
                    + printed_text(rest@));
            }
            text.push(37u8);
            index = index + 2;
        } else {
            proof {
                assert(rest@.skip(1) =~= format@.skip(index + 1));
                assert(text@.push(format@[index as int]) + printed_text(format@.skip(index + 1))
                    =~= text@ + printed_text(rest@));
            }
            text.push(format[index]);
            index = index + 1;
        }
    }
    proof {
        assert(format@.skip(length as int) =~= Seq::<u8>::empty());
        assert(text@ =~= printed_text(format@));
    }
    Ok(text)
}

/// A format without `%` prints itself unchanged.
pub proof fn lemma_printed_text_without_percent(format: Seq<u8>)
    requires
        forall|i: int| 0 <= i < format.len() ==> format[i] != 37,
    ensures
        only_escaped_percents(format),
        printed_text(format) == format,
    decreases format.len(),
{
    if format.len() > 0 {
        lemma_printed_text_without_percent(format.skip(1));
        assert(seq![format[0]] + format.skip(1) =~= format);
    }
}

/// Printing never lengthens a format: each escaped pair shrinks to one byte.
pub proof fn lemma_printed_text_not_longer(format: Seq<u8>)
    ensures
        printed_text(format).len() <= format.len(),
    decreases format.len(),
{
    if format.len() > 0 {
        if format[0] == 37 && format.len() >= 2 {
            lemma_printed_text_not_longer(format.skip(2));
        } else {
            lemma_printed_text_not_longer(format.skip(1));
        }
    }
}

/// A path argument that is not a string: it lacks its terminating NUL, or
/// holds one before the end.
#[derive(Clone, Copy, Debug, PartialEq, Eq)]
pub struct InvalidPathBuffer;

/// The position of the last `/` among the first `n` bytes of `path`.
pub open spec fn last_slash(path: Seq<u8>, n: int) -> Option<int>
    decreases n,
{
    if n <= 0 {
        None
    } else if path[n - 1] == 47 {
        Some(n - 1)
    } else {
        last_slash(path, n - 1)
    }
}

/// The last `/` found is a `/` inside the range searched, with none after it.
pub proof fn lemma_last_slash_is_last(path: Seq<u8>, n: int)
    requires
        0 <= n <= path.len(),
    ensures
        match last_slash(path, n) {
            Some(position) => 0 <= position < n && path[position] == 47 && forall|j: int|
                position < j < n ==> path[j] != 47,
            None => forall|j: int| 0 <= j < n ==> path[j] != 47,
        },
    decreases n,
{
    if n > 0 && path[n - 1] != 47 {
        lemma_last_slash_is_last(path, n - 1);
    }
}

/// The last `/` among the first `n` bytes of `path`, found from the end.
fn find_last_slash(path: &[u8], n: usize) -> (result: Option<usize>)
    requires
        n <= path@.len(),
    ensures
        result == (match last_slash(path@, n as int) {
            Some(position) => Some(position as usize),
            None => None::<usize>,
        }),
        result matches Some(position) ==> position < n,
        match last_slash(path@, n as int) {
            Some(position) => 0 <= position < n,
            None => true,
        },
{
    proof {
        lemma_last_slash_is_last(path@, n as int);
    }
    let mut remaining: usize = n;
    while remaining > 0
        invariant
            remaining <= n <= path@.len(),
            last_slash(path@, n as int) == last_slash(path@, remaining as int),
        decreases remaining,
    {
        if path[remaining - 1] == 47u8 {
            return Some(remaining - 1);
        }
        remaining = remaining - 1;
    }
    None
}

/// The one-byte name `"."` that stands for a missing path.
fn current_directory() -> (result: Vec<u8>)
    ensures
        result@ == seq![46u8],
{
    let mut name: Vec<u8> = Vec::new();
    name.push(46u8);
    name
}

/// The `av_basename` operation of libavutil.
///
/// The part of `path` after its last `/`, or the whole path when it holds
/// none; `"."` for a missing or empty path.
pub fn av_basename(path: Option<&[u8]>) -> (result: Vec<u8>)
    ensures
        match path {
            None => result@ == seq![46u8],
            Some(bytes) => if bytes@.len() == 0 {
                result@ == seq![46u8]
            } else {
                match last_slash(bytes@, bytes@.len() as int) {
                    Some(position) => result@ == bytes@.skip(position + 1),
                    None => result@ == bytes@,
                }
            },
        },
{
    match path {
        None => current_directory(),
        Some(bytes) => {
            let length = bytes.len();
            if length == 0 {
                return current_directory();
            }
            let start: usize = match find_last_slash(bytes, length) {
                Some(position) => position + 1,
                None => 0,
            };
            let mut name: Vec<u8> = Vec::new();
            let mut index: usize = start;
            while index < length
                invariant
                    start <= index <= length,
                    length == bytes@.len(),
                    name@ == bytes@.subrange(start as int, index as int),
                decreases length - index,
            {
                name.push(bytes[index]);
                index = index + 1;
                proof {
                    assert(bytes@.subrange(start as int, index as int) =~= bytes@.subrange(
                        start as int,
                        index - 1,
                    ).push(bytes@[index - 1]));
                }
            }
            proof {
                assert(bytes@.skip(start as int) =~= bytes@.subrange(start as int, length as int));
                assert(bytes@ =~= bytes@.subrange(0, length as int));
            }
            name
        },
    }
}

/// Whether `bytes` is a NUL-terminated string: it ends in its only NUL.
pub open spec fn is_terminated_string(bytes: Seq<u8>) -> bool {
    &&& bytes.len() >= 1
    &&& bytes[bytes.len() - 1] == 0
    &&& forall|i: int| 0 <= i < bytes.len() - 1 ==> bytes[i] != 0
}

/// What cutting a NUL-terminated path at its directory part owes, for the
/// buffer `before` the call and `after` it: a buffer that is not a
/// terminated string is refused untouched; a path with no `/` gives `"."`
/// untouched; otherwise a NUL replaces the last `/` and the bytes before it
/// are returned.
pub open spec fn dirname_outcome(
    before: Seq<u8>,
    result: Result<Vec<u8>, InvalidPathBuffer>,
    after: Seq<u8>,
) -> bool {
    if !is_terminated_string(before) {
        result == Err::<Vec<u8>, InvalidPathBuffer>(InvalidPathBuffer) && after == before
    } else {
        match last_slash(before, before.len() - 1) {
            None => (result matches Ok(name) && name@ == seq![46u8]) && after == before,
            Some(position) => (result matches Ok(name) && name@ == before.take(position)) && after
                == before.update(position, 0u8),
        }
    }
}

/// The `av_dirname` operation of libavutil.
///
/// The directory part of a NUL-terminated path: the path is cut at its last
/// `/`, where a NUL is written, and the part before it is returned. A path
/// with no `/`, like a missing path, gives `"."`. A buffer that is not a
/// terminated string is refused untouched.
pub fn av_dirname(path: Option<&mut [u8]>) -> (result: Result<Vec<u8>, InvalidPathBuffer>)
    ensures
        path is None ==> (result matches Ok(name) && name@ == seq![46u8]),
        path matches Some(buffer) ==> dirname_outcome(buffer@, result, final(buffer)@),
{
    match path {
        None => Ok(current_directory()),
        Some(buffer) => dirname_in_place(buffer),
    }
}

/// Cuts the NUL-terminated path in `path` at its directory part.
fn dirname_in_place(path: &mut [u8]) -> (result: Result<Vec<u8>, InvalidPathBuffer>)
    ensures
        dirname_outcome(old(path)@, result, final(path)@),
{
    let length = path.len();
    if length == 0 || path[length - 1] != 0u8 {
        return Err(InvalidPathBuffer);
    }
    let mut check: usize = 0;
    while check < length - 1
        invariant
            check <= length - 1,
            length == path@.len(),
            forall|i: int| 0 <= i < check ==> path@[i] != 0,
        decreases length - 1 - check,
    {
        if path[check] == 0u8 {
            return Err(InvalidPathBuffer);
        }
        check = check + 1;
    }
    match find_last_slash(path, length - 1) {
        None => Ok(current_directory()),
        Some(position) => {
            let mut name: Vec<u8> = Vec::new();
            let mut index: usize = 0;
            while index < position
                invariant
                    index <= position < length,
                    length == path@.len(),
                    name@ == path@.take(index as int),
                decreases position - index,
            {
                name.push(path[index]);
                index = index + 1;
                proof {
                    assert(path@.take(index as int) =~= path@.take(index - 1).push(
                        path@[index - 1],
                    ));
                }
            }
            path[position] = 0u8;
            Ok(name)
        },
    }
}

/// Cutting a terminated path at its directory part cuts at the last `/` of
/// the whole path before its NUL: when the path holds a `/`, the result is
/// the bytes before a `/` that no other `/` follows, and that `/` becomes a
/// NUL; when it holds none, the result is `"."` and the path is untouched.
pub proof fn lemma_dirname_cuts_at_last_slash(
    before: Seq<u8>,
    result: Result<Vec<u8>, InvalidPathBuffer>,
    after: Seq<u8>,
)
    requires
        is_terminated_string(before),
        dirname_outcome(before, result, after),
    ensures
        (exists|p: int| 0 <= p < before.len() - 1 && #[trigger] before[p] == 47) ==> exists|p: int|
            #![trigger before[p]]
            0 <= p < before.len() - 1 && before[p] == 47 && (forall|j: int|
                p < j < before.len() - 1 ==> before[j] != 47) && (result matches Ok(name)
                && name@ == before.take(p)) && after == before.update(p, 0u8),
        (forall|j: int| 0 <= j < before.len() - 1 ==> before[j] != 47) ==> (result matches Ok(
            name,
        ) && name@ == seq![46u8]) && after == before,
{
    lemma_last_slash_is_last(before, before.len() - 1);
    match last_slash(before, before.len() - 1) {
        Some(position) => {
            assert(before[position] == 47);
        },
        None => {},
    }
}

/// The search for the last `/` reads only the bytes it is given: two paths
/// that agree on their first `n` bytes find the same one.
proof fn lemma_last_slash_prefix(a: Seq<u8>, b: Seq<u8>, n: int)
    requires
        0 <= n <= a.len(),
        n <= b.len(),
        forall|i: int| 0 <= i < n ==> a[i] == b[i],
    ensures
        last_slash(a, n) == last_slash(b, n),
    decreases n,
{
    if n > 0 {
        lemma_last_slash_prefix(a, b, n - 1);
    }
}

/// For a path with a `/`, the directory part `av_dirname` returns, a `/`,
/// and the name part `av_basename` returns put the path back together: both
/// cut at the same `/`, the last one.
pub proof fn lemma_dirname_basename_rejoin(content: Seq<u8>)
    requires
        last_slash(content, content.len() as int) is Some,
    ensures
        last_slash(content.push(0u8), content.len() as int) == last_slash(
            content,
            content.len() as int,
        ),
        match last_slash(content, content.len() as int) {
            Some(position) => content == content.push(0u8).take(position) + seq![47u8]
                + content.skip(position + 1),
            None => true,
        },
{
    lemma_last_slash_prefix(content.push(0u8), content, content.len() as int);
    lemma_last_slash_is_last(content, content.len() as int);
    match last_slash(content, content.len() as int) {
        Some(position) => {
            assert(content =~= content.push(0u8).take(position) + seq![47u8] + content.skip(
                position + 1,
            ));
        },
        None => {},
    }
}

/// The `av_isdigit` operation of libavutil.
///
/// Whether `value` is an ASCII decimal digit.
pub fn av_isdigit(value: i32) -> (result: bool)
    ensures
        result == (48 <= value <= 57),
{
    value >= 48 && value <= 57
}

/// The `av_isgraph` operation of libavutil.
///
/// Whether `value` is a printable ASCII character other than space.
pub fn av_isgraph(value: i32) -> (result: bool)
    ensures
        result == (32 < value < 127),
{
    value > 32 && value < 127
}

/// The `av_isspace` operation of libavutil.
///
/// Whether `value` is an ASCII space, form feed, newline, carriage return,
/// horizontal tab or vertical tab.
pub fn av_isspace(value: i32) -> (result: bool)
    ensures
        result == (value == 32 || value == 12 || value == 10 || value == 13 || value == 9
            || value == 11),
{
    value == 32 || value == 12 || value == 10 || value == 13 || value == 9 || value == 11
}

/// The `av_isxdigit` operation of libavutil.
///
/// Whether `value` is an ASCII hexadecimal digit, in either case.
pub fn av_isxdigit(value: i32) -> (result: bool)
    ensures
        result == ((48 <= value <= 57) || (97 <= value <= 102) || (65 <= value <= 70)),
{
    av_isdigit(value) || (value >= 97 && value <= 102) || (value >= 65 && value <= 70)
}

} // verus!
