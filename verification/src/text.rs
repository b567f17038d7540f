//! Views of the string-valued data that the contracts speak of: a string is
//! its sequence of characters.

use vstd::prelude::*;

verus! {

/// The characters of an optional string.
pub open spec fn opt_text(value: Option<String>) -> Option<Seq<char>> {
    match value {
        Some(text) => Some(text@),
        None => None,
    }
}

/// The characters of each string of a list.
pub open spec fn texts(list: Seq<String>) -> Seq<Seq<char>> {
    Seq::new(list.len(), |i: int| list[i]@)
}

/// The characters of each string of an optional list.
pub open spec fn opt_texts(list: Option<Vec<String>>) -> Option<Seq<Seq<char>>> {
    match list {
        Some(list) => Some(texts(list@)),
        None => None,
    }
}

/// The view of a list with one more string is the view of the list with
/// the characters of that string added.
pub proof fn lemma_texts_push(list: Seq<String>, last: String)
    ensures
        texts(list.push(last)) == texts(list).push(last@),
{
    assert(texts(list.push(last)) =~= texts(list).push(last@));
}

/// The characters of each string of an optional borrowed list.
pub open spec fn opt_ref_texts(list: Option<&Vec<String>>) -> Option<Seq<Seq<char>>> {
    match list {
        Some(list) => Some(texts(list@)),
        None => None,
    }
}

/// Appends a copy of every string of `extra` to `list`.
pub fn append_all(list: &mut Vec<String>, extra: &Vec<String>)
    ensures
        texts(final(list)@) == texts(old(list)@) + texts(extra@),
{
    let mut i: usize = 0;
    while i < extra.len()
        invariant
            i <= extra.len(),
            texts(list@) == texts(old(list)@) + texts(extra@.take(i as int)),
        decreases extra.len() - i,
    {
        proof {
            lemma_texts_push(list@, extra@[i as int]);
            lemma_texts_push(extra@.take(i as int), extra@[i as int]);
            assert(extra@.take(i + 1) == extra@.take(i as int).push(extra@[i as int]));
        }
        list.push(extra[i].clone());
        i = i + 1;
    }
    assert(extra@.take(extra@.len() as int) == extra@);
}

/// Copies an optional string.
pub fn copy_opt_text(value: &Option<String>) -> (copy: Option<String>)
    ensures
        opt_text(copy) == opt_text(*value),
{
    match value {
        Some(text) => Some(text.clone()),
        None => None,
    }
}

/// Copies a list of strings.
pub fn copy_texts(list: &Vec<String>) -> (copy: Vec<String>)
    ensures
        texts(copy@) == texts(list@),
{
    let mut copy: Vec<String> = Vec::new();
    assert(texts(copy@) + texts(list@) =~= texts(list@));
    append_all(&mut copy, list);
    copy
}

/// Copies an optional list of strings.
pub fn copy_opt_texts(list: &Option<Vec<String>>) -> (copy: Option<Vec<String>>)
    ensures
        opt_texts(copy) == opt_texts(*list),
{
    match list {
        Some(list) => Some(copy_texts(list)),
        None => None,
    }
}

} // verus!
