//! Small operations on text that the planner needs.

use vstd::prelude::*;
use vstd::string::*;
use vstd::utf8::*;

verus! {

/// The upper-case form of a text, as `str::to_uppercase` of the standard
/// library gives it: a function of the text alone, fixed by the Unicode
/// tables that the standard library carries.
pub uninterp spec fn uppercase_of(text: Seq<char>) -> Seq<char>;

/// Calls `str::to_uppercase`. Nothing is proved of the result: it is only
/// named, as `uppercase_of` of the text.
#[verifier::external_body]
pub(crate) fn upper_case(text: &str) -> (upper: String)
    ensures
        upper@ == uppercase_of(text@),
{
    text.to_uppercase()
}

/// What a vector of strings holds: each string as a sequence of characters.
pub open spec fn texts(items: Seq<String>) -> Seq<Seq<char>> {
    Seq::new(items.len(), |i: int| items[i]@)
}

/// What a slice of string slices holds, each as a sequence of characters.
pub open spec fn slice_texts(items: Seq<&str>) -> Seq<Seq<char>> {
    Seq::new(items.len(), |i: int| items[i]@)
}

/// Whether two texts are the same, character by character.
pub fn same_text(a: &str, b: &str) -> (same: bool)
    ensures
        same == (a@ == b@),
{
    let left = a.as_bytes();
    let right = b.as_bytes();
    if left.len() != right.len() {
        return false;
    }
    let mut i: usize = 0;
    while i < left.len()
        invariant
            i <= left.len(),
            left.len() == right.len(),
            left@ == encode_utf8(a@),
            right@ == encode_utf8(b@),
            left@.subrange(0, i as int) == right@.subrange(0, i as int),
        decreases left.len() - i,
    {
        if left[i] != right[i] {
            return false;
        }
        assert(left@.subrange(0, i + 1) =~= left@.subrange(0, i as int).push(left@[i as int]));
        assert(right@.subrange(0, i + 1) =~= right@.subrange(0, i as int).push(right@[i as int]));
        i = i + 1;
    }
    assert(left@ =~= left@.subrange(0, i as int));
    assert(right@ =~= right@.subrange(0, i as int));
    proof {
        encode_utf8_decode_utf8(a@);
        encode_utf8_decode_utf8(b@);
    }
    true
}

/// Owned copies of the given texts, in the same order.
pub fn owned_all(items: &[&str]) -> (owned: Vec<String>)
    ensures
        texts(owned@) == slice_texts(items@),
{
    let mut owned: Vec<String> = Vec::new();
    let mut i: usize = 0;
    while i < items.len()
        invariant
            i <= items.len(),
            texts(owned@) == slice_texts(items@.subrange(0, i as int)),
        decreases items.len() - i,
    {
        let ghost before = texts(owned@);
        owned.push(String::from_str(items[i]));
        assert(texts(owned@) =~= before.push(items@[i as int]@));
        assert(slice_texts(items@.subrange(0, i + 1)) =~= before.push(items@[i as int]@));
        i = i + 1;
    }
    assert(items@.subrange(0, i as int) =~= items@);
    owned
}

} // verus!
