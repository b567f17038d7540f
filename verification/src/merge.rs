//! Merging property-list documents: the top-level entries of each source
//! are laid over those of the destination, later sources over earlier ones.

use vstd::prelude::*;

verus! {

/// `plist::Value`, a property-list document. Nothing of its inside is
/// seen here: what the contracts say of a document, they say through
/// `root_dictionary`.
#[verifier::external_type_specification]
#[verifier::external_body]
pub struct ExValue(plist::Value);

/// `plist::Dictionary`, the dictionary of a property list. What it holds
/// is named by `entries`.
#[verifier::external_type_specification]
#[verifier::external_body]
pub struct ExDictionary(plist::Dictionary);

/// The dictionary at the root of a document, if its root is one.
pub uninterp spec fn root_dictionary(document: plist::Value) -> Option<plist::Dictionary>;

/// The entries that a `plist::Dictionary` holds, by key.
pub uninterp spec fn entries(dictionary: plist::Dictionary) -> Map<Seq<char>, plist::Value>;

/// Tells the variant `plist::Value::Dictionary` from the others.
///
/// Claimed: a document whose root is a dictionary gives that dictionary,
/// and any other document comes back as it was.
#[verifier::external_body]
fn into_dictionary(document: plist::Value) -> (root: Result<plist::Dictionary, plist::Value>)
    ensures
        root matches Ok(dictionary) ==> root_dictionary(document) == Some(dictionary),
        root matches Err(other) ==> root_dictionary(document) is None && other == document,
{
    match document {
        plist::Value::Dictionary(dictionary) => Ok(dictionary),
        other => Err(other),
    }
}

/// Builds the variant `plist::Value::Dictionary`.
///
/// Claimed: the root of the document built is `dictionary`.
#[verifier::external_body]
fn from_dictionary(dictionary: plist::Dictionary) -> (document: plist::Value)
    ensures
        root_dictionary(document) == Some(dictionary),
{
    plist::Value::Dictionary(dictionary)
}

/// Calls `plist::Dictionary::insert`.
///
/// Claimed: afterwards `key` holds `value`, whether or not the dictionary
/// held the key before, and every other key holds what it held before.
#[verifier::external_body]
fn insert(dictionary: &mut plist::Dictionary, key: String, value: plist::Value)
    ensures
        entries(*final(dictionary)) == entries(*old(dictionary)).insert(key@, value),
{
    dictionary.insert(key, value);
}

/// Calls `into_iter` on a `plist::Dictionary` and collects the entries.
///
/// Claimed: the list holds each key of the dictionary once, with the value
/// that the dictionary held for it, and nothing else. Of the order of the
/// list nothing is claimed.
#[verifier::external_body]
fn into_entries(dictionary: plist::Dictionary) -> (list: Vec<(String, plist::Value)>)
    ensures
        forall|i: int, j: int| 0 <= i < j < list@.len() ==> list@[i].0@ != list@[j].0@,
        forall|i: int| 0 <= i < list@.len() ==>
            entries(dictionary).contains_pair(#[trigger] list@[i].0@, list@[i].1),
        forall|key: Seq<char>| entries(dictionary).dom().contains(key) ==>
            exists|i: int| 0 <= i < list@.len() && #[trigger] list@[i].0@ == key,
{
    dictionary.into_iter().collect()
}

/// The entries at the root of a document: those of its root dictionary,
/// and none where its root is not a dictionary.
pub open spec fn root_entries(document: plist::Value) -> Option<Map<Seq<char>, plist::Value>> {
    match root_dictionary(document) {
        Some(dictionary) => Some(entries(dictionary)),
        None => None,
    }
}

/// One document laid over another: every entry of `above` replaces the
/// entry of `below` with its key, whole; the other entries of `below` stay.
/// Where either root is not a dictionary, `below` stays as it is.
pub open spec fn overlay(
    below: Option<Map<Seq<char>, plist::Value>>,
    above: Option<Map<Seq<char>, plist::Value>>,
) -> Option<Map<Seq<char>, plist::Value>> {
    match (below, above) {
        (Some(below), Some(above)) => Some(below.union_prefer_right(above)),
        _ => below,
    }
}

/// The entries that a source brings: those at its root; none where it
/// could not be read.
pub open spec fn source_entries(source: Option<plist::Value>) -> Option<
    Map<Seq<char>, plist::Value>,
> {
    match source {
        Some(document) => root_entries(document),
        None => None,
    }
}

/// The sources laid over `below` one after the other, in their order.
pub open spec fn merged(
    below: Option<Map<Seq<char>, plist::Value>>,
    sources: Seq<Option<plist::Value>>,
) -> Option<Map<Seq<char>, plist::Value>>
    decreases sources.len(),
{
    if sources.len() == 0 {
        below
    } else {
        overlay(merged(below, sources.drop_last()), source_entries(sources.last()))
    }
}

/// Whether any of the sources could be read.
pub open spec fn any_loaded(sources: Seq<Option<plist::Value>>) -> bool {
    exists|i: int| 0 <= i < sources.len() && (#[trigger] sources[i]) is Some
}

/// Why a merge failed.
#[derive(Clone, Copy, Debug, PartialEq, Eq, Structural)]
pub enum MergeError {
    /// The destination document could not be read.
    DocumentLoadFailed,
}

/// Lays `source` over `destination`: the top-level entries of the source
/// replace those of the destination with the same key. Nothing is merged
/// below the top level, and nothing at all unless both roots are
/// dictionaries.
pub fn merge_into(destination: plist::Value, source: plist::Value) -> (result: plist::Value)
    ensures
        root_entries(result) == overlay(root_entries(destination), root_entries(source)),
        root_dictionary(destination) is None || root_dictionary(source) is None ==> result
            == destination,
{
    match into_dictionary(source) {
        Err(_) => destination,
        Ok(above) => match into_dictionary(destination) {
            Err(other) => other,
            Ok(below) => {
                let mut below = below;
                let ghost start = entries(below);
                let list = into_entries(above);
                let ghost all = list@;
                for entry in it: list
                    invariant
                        it.seq() == all,
                        entries(below).dom() =~= start.dom().union(
                            Set::new(
                                |key: Seq<char>|
                                    exists|j: int| 0 <= j < it.index() && all[j].0@ == key,
                            ),
                        ),
                        forall|j: int|
                            0 <= j < it.index() ==> entries(below)[(#[trigger] all[j]).0@]
                                == all[j].1,
                        forall|key: Seq<char>|
                            start.dom().contains(key) && !(exists|j: int|
                                0 <= j < it.index() && all[j].0@ == key) ==> entries(below)[key]
                                == start[key],
                        forall|i: int, j: int|
                            0 <= i < j < all.len() ==> all[i].0@ != all[j].0@,
                {
                    let (key, value) = entry;
                    insert(&mut below, key, value);
                }
                assert(entries(below) =~= start.union_prefer_right(entries(above)));
                from_dictionary(below)
            },
        },
    }
}

/// Whether `result` is `destination` with the sources merged into it:
/// its entries are those of the destination with the sources laid over
/// them in order, and it is the destination itself where the destination's
/// root is no dictionary or no source brings a dictionary.
pub open spec fn is_merge(
    destination: plist::Value,
    sources: Seq<Option<plist::Value>>,
    result: plist::Value,
) -> bool {
    &&& root_entries(result) == merged(root_entries(destination), sources)
    &&& root_dictionary(destination) is None || (forall|i: int|
        0 <= i < sources.len() ==> source_entries(#[trigger] sources[i]) is None) ==> result
        == destination
}

/// Tells whether the destination has to be read at all: only where a
/// source could be read.
pub fn needs_destination(sources: &Vec<Option<plist::Value>>) -> (needed: bool)
    ensures
        needed == any_loaded(sources@),
{
    let mut i: usize = 0;
    while i < sources.len()
        invariant
            i <= sources.len(),
            forall|j: int| 0 <= j < i ==> (#[trigger] sources@[j]) is None,
        decreases sources.len() - i,
    {
        if sources[i].is_some() {
            return true;
        }
        i = i + 1;
    }
    false
}

/// Merges the sources into the destination, in their order, and gives the
/// document to write back.
///
/// A source that could not be read is `None`, and is skipped. Where no
/// source could be read there is nothing to write, and the destination is
/// not looked at. Else the destination is needed: without it the merge
/// fails, with it every source is laid over it in turn.
pub fn merge_plist(sources: Vec<Option<plist::Value>>, destination: Option<plist::Value>) -> (written:
    Result<Option<plist::Value>, MergeError>)
    ensures
        !any_loaded(sources@) ==> written == Ok::<Option<plist::Value>, MergeError>(None),
        any_loaded(sources@) && destination is None ==> written == Err::<
            Option<plist::Value>,
            MergeError,
        >(MergeError::DocumentLoadFailed),
        any_loaded(sources@) && destination is Some ==> (written matches Ok(Some(result))
            && is_merge(destination->0, sources@, result)),
{
    if !needs_destination(&sources) {
        return Ok(None);
    }
    let start = match destination {
        Some(document) => document,
        None => {
            return Err(MergeError::DocumentLoadFailed);
        },
    };
    let ghost all = sources@;
    let mut merged_so_far = start;
    for source in it: sources
        invariant
            it.seq() == all,
            is_merge(start, all.take(it.index()), merged_so_far),
    {
        proof {
            let done = all.take(it.index() + 1);
            assert(done.drop_last() == all.take(it.index()));
            assert(done.last() == source);
            assert forall|i: int| 0 <= i < done.len() && source_entries(done[i]) is Some implies (
            i == it.index() || source_entries(all.take(it.index())[i]) is Some) by {}
        }
        match source {
            Some(document) => {
                merged_so_far = merge_into(merged_so_far, document);
            },
            None => {},
        }
    }
    proof {
        assert(all.take(all.len() as int) == all);
    }
    Ok(Some(merged_so_far))
}

/// A key that a source sets holds, after the merge, the value of the last
/// source that sets it.
pub proof fn lemma_last_source_wins(
    below: Map<Seq<char>, plist::Value>,
    sources: Seq<Option<plist::Value>>,
    key: Seq<char>,
    last: int,
)
    requires
        0 <= last < sources.len(),
        sets_key(sources[last], key),
        forall|j: int| last < j < sources.len() ==> !sets_key(#[trigger] sources[j], key),
    ensures
        merged(Some(below), sources) matches Some(result) && result.contains_key(key)
            && result[key] == source_entries(sources[last])->0[key],
    decreases sources.len(),
{
    lemma_merged_is_dictionary(below, sources.drop_last());
    if last < sources.len() - 1 {
        lemma_last_source_wins(below, sources.drop_last(), key, last);
    }
}

/// A key that no source sets holds, after the merge, what it held in the
/// destination, and is absent where it was absent there.
pub proof fn lemma_unset_key_stays(
    below: Map<Seq<char>, plist::Value>,
    sources: Seq<Option<plist::Value>>,
    key: Seq<char>,
)
    requires
        forall|j: int| 0 <= j < sources.len() ==> !sets_key(#[trigger] sources[j], key),
    ensures
        merged(Some(below), sources) matches Some(result) && result.contains_key(key)
            == below.contains_key(key) && (below.contains_key(key) ==> result[key] == below[key]),
    decreases sources.len(),
{
    if sources.len() > 0 {
        lemma_unset_key_stays(below, sources.drop_last(), key);
        assert(!sets_key(sources[sources.len() - 1], key));
    }
}

/// Whether a source sets `key`: it could be read, its root is a
/// dictionary, and the dictionary holds the key.
pub open spec fn sets_key(source: Option<plist::Value>, key: Seq<char>) -> bool {
    source_entries(source) matches Some(entries) && entries.contains_key(key)
}

/// A destination whose root is a dictionary keeps a dictionary at its root.
pub proof fn lemma_merged_is_dictionary(
    below: Map<Seq<char>, plist::Value>,
    sources: Seq<Option<plist::Value>>,
)
    ensures
        merged(Some(below), sources) is Some,
    decreases sources.len(),
{
    if sources.len() > 0 {
        lemma_merged_is_dictionary(below, sources.drop_last());
    }
}

/// Merging is sensitive to the order of the sources: where two sources
/// both set a key of a dictionary, the key holds the value of the one that
/// comes second, whichever that is.
pub proof fn lemma_merge_order(
    below: Map<Seq<char>, plist::Value>,
    first: plist::Value,
    second: plist::Value,
    key: Seq<char>,
)
    requires
        sets_key(Some(first), key),
        sets_key(Some(second), key),
    ensures
        merged(Some(below), seq![Some(first), Some(second)]) matches Some(result) && result[key]
            == root_entries(second)->0[key],
        merged(Some(below), seq![Some(second), Some(first)]) matches Some(result) && result[key]
            == root_entries(first)->0[key],
{
    lemma_last_source_wins(below, seq![Some(first), Some(second)], key, 1);
    lemma_last_source_wins(below, seq![Some(second), Some(first)], key, 1);
}

} // verus!
