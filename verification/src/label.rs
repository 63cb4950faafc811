//! Labels as the model names them and as callers see them.

use vstd::prelude::*;
use vstd::string::StrSliceExecFns;
use vstd::string::StringExecFns;
use crate::chars::{skip_chars, starts_with, starts_with_at};

verus! {

/// The namespace prefix that the model puts before every label.
pub const LABEL_PREFIX: &'static str = "__label__";

/// The characters of [`LABEL_PREFIX`].
pub open spec fn label_prefix() -> Seq<char> {
    seq!['_', '_', 'l', 'a', 'b', 'e', 'l', '_', '_']
}

/// True when the label begins with the namespace prefix.
pub open spec fn has_label_prefix(label: Seq<char>) -> bool {
    starts_with(label, label_prefix())
}

/// The label without its namespace: the one prefix at its front is taken
/// off; a label that does not begin with the prefix stays as it is.  What
/// follows the first prefix is kept, also where it is the prefix again.
pub open spec fn stripped_label(label: Seq<char>) -> Seq<char> {
    if has_label_prefix(label) {
        label.skip(label_prefix().len() as int)
    } else {
        label
    }
}

/// Takes the namespace prefix off a label of the model.
pub fn strip_label(label: &str) -> (out: String)
    ensures
        out@ == stripped_label(label@),
{
    proof {
        reveal_strlit("__label__");
        assert(LABEL_PREFIX@ =~= label_prefix());
        assert(label@.skip(0) =~= label@);
    }
    let len: usize = label.unicode_len();
    if starts_with_at(label, len, 0, LABEL_PREFIX) {
        skip_chars(label, len, 9)
    } else {
        String::from_str(label)
    }
}

} // verus!
