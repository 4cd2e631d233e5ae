//! Small operations on text that the rest of the library is stated over:
//! equality of two texts, an extension turned into a file-name suffix, and
//! whether a path ends with a suffix.

use vstd::prelude::*;
use vstd::string::StringExecFns;
use vstd::utf8::encode_utf8;

verus! {

/// The suffix that puts `extension` at the end of a file name: a dot, then
/// the extension.
pub open spec fn dotted(extension: Seq<char>) -> Seq<char> {
    seq!['.'] + extension
}

/// `whole` ends with `tail`.
pub open spec fn bytes_end_with(whole: Seq<u8>, tail: Seq<u8>) -> bool {
    tail.len() <= whole.len() && whole.subrange(whole.len() - tail.len(), whole.len() as int)
        == tail
}

/// The UTF-8 form of `whole` ends with the UTF-8 form of `tail`, which is how
/// a tool that dispatches on the file extension reads a path.
pub open spec fn text_ends_with(whole: Seq<char>, tail: Seq<char>) -> bool {
    bytes_end_with(encode_utf8(whole), encode_utf8(tail))
}

/// Whether two texts are the same, character for character.
pub fn same_text(left: &str, right: &str) -> (same: bool)
    ensures
        same == (left@ == right@),
{
    let left_owned = left.to_owned();
    let right_owned = right.to_owned();
    left_owned == right_owned
}

/// The file-name suffix for an extension.
pub fn dot_suffix(extension: &str) -> (suffix: String)
    ensures
        suffix@ == dotted(extension@),
{
    proof {
        reveal_strlit(".");
    }
    let mut suffix = String::from_str(".");
    suffix.append(extension);
    assert(suffix@ =~= dotted(extension@));
    suffix
}

/// Whether a path ends with a suffix, byte for byte.
pub fn ends_with(whole: &str, tail: &str) -> (found: bool)
    ensures
        found == text_ends_with(whole@, tail@),
{
    let whole_bytes = whole.as_bytes();
    let tail_bytes = tail.as_bytes();
    if tail_bytes.len() > whole_bytes.len() {
        return false;
    }
    let start: usize = whole_bytes.len() - tail_bytes.len();
    let ghost window = whole_bytes@.subrange(start as int, whole_bytes@.len() as int);
    let mut at: usize = 0;
    while at < tail_bytes.len()
        invariant
            at <= tail_bytes@.len(),
            start + tail_bytes@.len() == whole_bytes@.len(),
            whole_bytes@.len() <= usize::MAX,
            whole_bytes@ == encode_utf8(whole@),
            tail_bytes@ == encode_utf8(tail@),
            window == whole_bytes@.subrange(start as int, whole_bytes@.len() as int),
            forall|k: int| 0 <= k < at ==> window[k] == tail_bytes@[k],
        decreases tail_bytes@.len() - at,
    {
        if whole_bytes[start + at] != tail_bytes[at] {
            assert(window[at as int] != tail_bytes@[at as int]);
            return false;
        }
        at += 1;
    }
    assert(window =~= tail_bytes@);
    true
}

} // verus!
