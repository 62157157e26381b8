//! Base-filename extraction: the component of a path after its last
//! separator, where both `\` and `/` separate components.

use vstd::prelude::*;
use vstd::string::StrSliceExecFns;
use vstd::string::StringExecFns;

verus! {

/// Whether `c` separates path components.
pub open spec fn is_separator(c: char) -> bool {
    c == '\\' || c == '/'
}

/// The base filename of `p`: everything after the last separator, or all of
/// `p` when it holds no separator. A path ending in a separator has an empty
/// base filename.
pub open spec fn base_name(p: Seq<char>) -> Seq<char>
    decreases p.len(),
{
    if p.len() == 0 {
        Seq::empty()
    } else if is_separator(p.last()) {
        Seq::empty()
    } else {
        base_name(p.drop_last()).push(p.last())
    }
}

/// `base_name` is the suffix that starts right after the last separator.
proof fn lemma_base_name_suffix(p: Seq<char>, k: int)
    requires
        0 <= k <= p.len(),
        forall|j: int| k <= j < p.len() ==> !is_separator(p[j]),
        k == 0 || is_separator(p[k - 1]),
    ensures
        base_name(p) == p.subrange(k, p.len() as int),
    decreases p.len() - k,
{
    if p.len() == k {
        if k == 0 {
            assert(base_name(p) =~= p.subrange(k, p.len() as int));
        } else {
            assert(is_separator(p.last()));
            assert(base_name(p) =~= p.subrange(k, p.len() as int));
        }
    } else {
        assert(!is_separator(p.last()));
        lemma_base_name_suffix(p.drop_last(), k);
        assert(base_name(p) =~= p.subrange(k, p.len() as int));
    }
}

/// Executable separator test.
fn is_separator_char(c: char) -> (r: bool)
    ensures
        r == is_separator(c),
{
    c == '\\' || c == '/'
}

/// Extracts the base filename of `p`.
pub fn base_name_of(p: &str) -> (r: String)
    ensures
        r@ == base_name(p@),
{
    let n = p.unicode_len();
    let mut start: usize = 0;
    let mut i: usize = 0;
    while i < n
        invariant
            start <= i <= n,
            n == p@.len(),
            forall|j: int| start <= j < i ==> !is_separator(p@[j]),
            start == 0 || is_separator(p@[start - 1]),
        decreases n - i,
    {
        if is_separator_char(p.get_char(i)) {
            start = i + 1;
        }
        i = i + 1;
    }
    proof {
        lemma_base_name_suffix(p@, start as int);
    }
    let tail = p.substring_char(start, n);
    String::from_str(tail)
}

} // verus!
