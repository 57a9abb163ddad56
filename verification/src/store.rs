//! The score store: the latest score document of each identity.

use vstd::prelude::*;
use vstd::string::StringExecFns;
use dashmap::DashMap;
use crate::scores::{default_scores, default_scores_view, UserScores, UserScoresView};
use crate::shared_map::{score_entries, score_map_get, score_map_insert, score_map_new};

verus! {

/// Score documents by identity. A write replaces the whole document.
pub struct ScoreStore {
    docs: DashMap<String, UserScores>,
}

impl View for ScoreStore {
    type V = Map<Seq<char>, UserScoresView>;

    closed spec fn view(&self) -> Map<Seq<char>, UserScoresView> {
        score_entries(self.docs)
    }
}

/// What the store hands out for an identity: its document, or the default
/// document where it has none.
pub open spec fn lookup(docs: Map<Seq<char>, UserScoresView>, id: Seq<char>) -> UserScoresView {
    if docs.contains_key(id) {
        docs[id]
    } else {
        default_scores_view(id)
    }
}

impl ScoreStore {
    /// A store without documents.
    pub fn new() -> (store: Self)
        ensures
            store@ == Map::<Seq<char>, UserScoresView>::empty(),
    {
        let store = ScoreStore { docs: score_map_new() };
        assert(store@ =~= Map::<Seq<char>, UserScoresView>::empty());
        store
    }

    /// The document stored for an identity, or the default document.
    pub fn get_user_scores(&self, did_or_handle: &str) -> (doc: UserScores)
        ensures
            doc@ == lookup(self@, did_or_handle@),
    {
        match score_map_get(&self.docs, did_or_handle) {
            Some(doc) => doc,
            None => default_scores(did_or_handle),
        }
    }

    /// Stores a document for an identity in place of the one it had.
    pub fn upsert_user_scores(&mut self, did: &str, scores: UserScores)
        ensures
            final(self)@ == old(self)@.insert(did@, scores@),
    {
        score_map_insert(&mut self.docs, String::from_str(did), scores);
    }
}

} // verus!
