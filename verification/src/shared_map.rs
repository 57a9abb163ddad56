//! The concurrent hash map that holds the ledger and the score store, and
//! what this crate takes for granted about it.
//!
//! Nothing in this file is proved. Each function calls one method of
//! `dashmap::DashMap`, and its contract says what that method does to the
//! entries of the map. The maps are only ever reached through a unique
//! reference or through their owner, so the entries of a map change only
//! in the calls that say so.

use vstd::prelude::*;
use dashmap::DashMap;
use crate::scores::{UserScores, UserScoresView};

verus! {

#[verifier::external_type_specification]
#[verifier::external_body]
#[verifier::reject_recursive_types(K)]
#[verifier::reject_recursive_types(V)]
#[verifier::reject_recursive_types(S)]
pub struct ExDashMap<K, V, S>(DashMap<K, V, S>);

/// The entries of a map from texts to texts: each key with its value.
pub uninterp spec fn text_entries(m: DashMap<String, String>) -> Map<Seq<char>, Seq<char>>;

/// The entries of a map from texts to score documents.
pub uninterp spec fn score_entries(m: DashMap<String, UserScores>) -> Map<
    Seq<char>,
    UserScoresView,
>;

/// `DashMap::new`: the new map has no entries.
#[verifier::external_body]
pub(crate) fn text_map_new() -> (m: DashMap<String, String>)
    ensures
        text_entries(m).dom() == Set::<Seq<char>>::empty(),
{
    DashMap::new()
}

/// `DashMap::insert`: the key is bound to the value, whether or not it was
/// bound before; no other entry changes.
#[verifier::external_body]
pub(crate) fn text_map_insert(m: &mut DashMap<String, String>, key: String, value: String)
    ensures
        text_entries(*final(m)) == text_entries(*old(m)).insert(key@, value@),
{
    m.insert(key, value);
}

/// `DashMap::get`: a copy of the value bound to the key, if there is one.
#[verifier::external_body]
pub(crate) fn text_map_get(m: &DashMap<String, String>, key: &str) -> (value: Option<String>)
    ensures
        value is Some <==> text_entries(*m).contains_key(key@),
        value is Some ==> value->Some_0@ == text_entries(*m)[key@],
{
    m.get(key).map(|entry| entry.value().clone())
}

/// `DashMap::remove`: the key is bound no longer; no other entry changes.
#[verifier::external_body]
pub(crate) fn text_map_remove(m: &mut DashMap<String, String>, key: &str)
    ensures
        text_entries(*final(m)) == text_entries(*old(m)).remove(key@),
{
    m.remove(key);
}

/// `DashMap::iter`, then the first step of the iterator: a copy of some
/// entry of the map, or nothing if the map has no entries. Which entry
/// comes first depends on a hasher that each process seeds, so the
/// contract does not say.
#[verifier::external_body]
pub(crate) fn text_map_first(m: &DashMap<String, String>) -> (entry: Option<(String, String)>)
    ensures
        entry is None <==> text_entries(*m).dom() == Set::<Seq<char>>::empty(),
        entry is Some ==> text_entries(*m).contains_pair(entry->Some_0.0@, entry->Some_0.1@),
{
    m.iter().next().map(|entry| (entry.key().clone(), entry.value().clone()))
}

/// `DashMap::new`: the new map has no entries.
#[verifier::external_body]
pub(crate) fn score_map_new() -> (m: DashMap<String, UserScores>)
    ensures
        score_entries(m).dom() == Set::<Seq<char>>::empty(),
{
    DashMap::new()
}

/// `DashMap::insert`: the key is bound to the document, whether or not it
/// was bound before; no other entry changes.
#[verifier::external_body]
pub(crate) fn score_map_insert(m: &mut DashMap<String, UserScores>, key: String, doc: UserScores)
    ensures
        score_entries(*final(m)) == score_entries(*old(m)).insert(key@, doc@),
{
    m.insert(key, doc);
}

/// `DashMap::view`: a copy of the document bound to the key, if there is
/// one. The copy is made by [`UserScores::duplicate`], which is proved to
/// keep the view.
#[verifier::external_body]
pub(crate) fn score_map_get(m: &DashMap<String, UserScores>, key: &str) -> (doc: Option<UserScores>)
    ensures
        doc is Some <==> score_entries(*m).contains_key(key@),
        doc is Some ==> doc->Some_0@ == score_entries(*m)[key@],
{
    m.view(key, |_, doc| doc.duplicate())
}

} // verus!
