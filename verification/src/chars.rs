//! Prefixes of texts, counted in characters.

use vstd::prelude::*;
use vstd::string::StrSliceExecFns;
use vstd::string::StringExecFns;

verus! {

/// True when `text` begins with `prefix`.
pub open spec fn starts_with(text: Seq<char>, prefix: Seq<char>) -> bool {
    prefix.len() <= text.len() && text.subrange(0, prefix.len() as int) =~= prefix
}

/// Tells whether the part of `text` from its character `start` on begins
/// with `prefix`.  `len` is the number of characters of `text`.
pub(crate) fn starts_with_at(text: &str, len: usize, start: usize, prefix: &str) -> (b: bool)
    requires
        len == text@.len(),
        start <= len,
    ensures
        b == starts_with(text@.skip(start as int), prefix@),
{
    let n: usize = prefix.unicode_len();
    if len - start < n {
        return false;
    }
    let ghost tail = text@.skip(start as int);
    let mut j: usize = 0;
    while j < n
        invariant
            j <= n,
            n == prefix@.len(),
            start + n <= len,
            len == text@.len(),
            tail == text@.skip(start as int),
            forall|i: int| 0 <= i < j ==> tail[i] == prefix@[i],
        decreases n - j,
    {
        if text.get_char(start + j) != prefix.get_char(j) {
            assert(tail.subrange(0, n as int)[j as int] != prefix@[j as int]);
            return false;
        }
        j += 1;
    }
    assert(tail.subrange(0, n as int) =~= prefix@);
    true
}

/// Copies `text` from its character `start` on.  `len` is the number of
/// characters of `text`.
pub(crate) fn skip_chars(text: &str, len: usize, start: usize) -> (rest: String)
    requires
        len == text@.len(),
        start <= len,
    ensures
        rest@ == text@.skip(start as int),
{
    assert(text@.subrange(start as int, len as int) =~= text@.skip(start as int));
    String::from_str(text.substring_char(start, len))
}

} // verus!
