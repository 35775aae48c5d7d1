//! Substring search on text, stated and carried out on its UTF-8 bytes.

use vstd::prelude::*;
use vstd::utf8::encode_utf8;

verus! {

/// `needle` stands in `hay` at offset `at`.
pub open spec fn occurs_at(hay: Seq<u8>, needle: Seq<u8>, at: int) -> bool {
    &&& 0 <= at
    &&& at + needle.len() <= hay.len()
    &&& hay.subrange(at, at + needle.len()) == needle
}

/// `needle` stands somewhere in `hay` as a contiguous run of bytes.
pub open spec fn occurs(hay: Seq<u8>, needle: Seq<u8>) -> bool {
    exists|at: int| occurs_at(hay, needle, at)
}

/// The text `hay` contains the text `needle`: the bytes of the one hold the bytes
/// of the other. The empty text is contained in every text.
pub open spec fn text_contains(hay: Seq<char>, needle: Seq<char>) -> bool {
    occurs(encode_utf8(hay), encode_utf8(needle))
}

/// Whether `needle` stands in `hay` at offset `at`.
pub fn matches_at(hay: &[u8], needle: &[u8], at: usize) -> (found: bool)
    requires
        at + needle@.len() <= hay@.len(),
    ensures
        found == occurs_at(hay@, needle@, at as int),
{
    let width: usize = needle.len();
    let total: usize = hay.len();
    let mut k: usize = 0;
    while k < width
        invariant
            k <= width,
            width == needle@.len(),
            at + width <= total == hay@.len(),
            forall|j: int| 0 <= j < k ==> hay@[at + j] == needle@[j],
        decreases width - k,
    {
        if hay[at + k] != needle[k] {
            proof {
                let window = hay@.subrange(at as int, at + needle@.len());
                assert(window[k as int] == hay@[at + k]);
            }
            return false;
        }
        k += 1;
    }
    assert(hay@.subrange(at as int, at + needle@.len()) =~= needle@);
    true
}

/// Whether `needle` stands somewhere in `hay`.
pub fn find(hay: &[u8], needle: &[u8]) -> (found: bool)
    ensures
        found == occurs(hay@, needle@),
{
    if needle.len() > hay.len() {
        return false;
    }
    if needle.len() == 0 {
        assert(hay@.subrange(0, 0) =~= needle@);
        assert(occurs_at(hay@, needle@, 0));
        return true;
    }
    let last: usize = hay.len() - needle.len();
    let mut at: usize = 0;
    while at <= last
        invariant
            at <= last + 1,
            last + needle@.len() == hay@.len() <= usize::MAX,
            needle@.len() > 0,
            forall|k: int| 0 <= k < at ==> !occurs_at(hay@, needle@, k),
        decreases last + 1 - at,
    {
        if matches_at(hay, needle, at) {
            return true;
        }
        at += 1;
    }
    false
}

/// Whether the text `hay` contains the text `needle`.
pub fn contains(hay: &str, needle: &str) -> (found: bool)
    ensures
        found == text_contains(hay@, needle@),
{
    find(hay.as_bytes(), needle.as_bytes())
}

/// Every text contains the empty text.
pub proof fn contains_empty(hay: Seq<char>)
    ensures
        text_contains(hay, Seq::empty()),
{
    let bytes = encode_utf8(hay);
    assert(encode_utf8(Seq::<char>::empty()) =~= Seq::<u8>::empty()) by {
        reveal_with_fuel(encode_utf8, 1);
    }
    assert(bytes.subrange(0, 0) =~= Seq::<u8>::empty());
    assert(occurs_at(bytes, Seq::empty(), 0));
}

/// Every text contains itself.
pub proof fn contains_itself(text: Seq<char>)
    ensures
        text_contains(text, text),
{
    let bytes = encode_utf8(text);
    assert(bytes.subrange(0, bytes.len() as int) =~= bytes);
    assert(occurs_at(bytes, bytes, 0));
}

} // verus!
