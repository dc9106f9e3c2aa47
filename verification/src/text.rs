//! Lists of strings, read as lists of character sequences.

use vstd::prelude::*;

verus! {

/// The strings of a list, each as a sequence of characters.
pub open spec fn texts(list: Seq<String>) -> Seq<Seq<char>> {
    Seq::new(list.len(), |i: int| list[i]@)
}

/// Whether `wanted` is one of the strings of `list`.
pub fn contains_text(list: &Vec<String>, wanted: &str) -> (found: bool)
    ensures
        found == texts(list@).contains(wanted@),
{
    let owned = wanted.to_owned();
    let mut at: usize = 0;
    while at < list.len()
        invariant
            at <= list@.len(),
            owned@ == wanted@,
            forall|i: int| 0 <= i < at ==> texts(list@)[i] != wanted@,
        decreases list@.len() - at,
    {
        if list[at] == owned {
            assert(texts(list@)[at as int] == wanted@);
            return true;
        }
        at += 1;
    }
    false
}

/// Copies a list of strings.
pub fn copy_texts(list: &Vec<String>) -> (copy: Vec<String>)
    ensures
        copy@ == list@,
{
    let mut copy: Vec<String> = Vec::new();
    let mut at: usize = 0;
    while at < list.len()
        invariant
            at <= list@.len(),
            copy@ == list@.subrange(0, at as int),
        decreases list@.len() - at,
    {
        copy.push(list[at].clone());
        assert(copy@ =~= list@.subrange(0, at + 1));
        at += 1;
    }
    assert(list@.subrange(0, at as int) =~= list@);
    copy
}

} // verus!
