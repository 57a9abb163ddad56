//! Score documents: per-facet evidence counts with the opinions derived
//! from them, and what else is known about an identity.

use vstd::prelude::*;
use vstd::string::StringExecFns;
use crate::classifier::texts_of;
use crate::opinion::{evidence_to_opinion, opinion_from_evidence, Opinion, SCALE};

verus! {

/// The weight of "no evidence" in every facet of a score document: two
/// observations' worth, in parts of [`SCALE`].
pub const PRIOR: u64 = 2_000_000_000_000;

/// The probability, in parts of [`SCALE`], that a scored account is
/// automated. No detector exists yet: every scored account gets 0.12.
pub const BOT_PROBABILITY: u64 = 120_000_000_000;

/// One dimension of reputation: positive and negative evidence counts and
/// the opinion they support.
#[derive(Clone, Copy, Debug, PartialEq, Eq, Structural)]
pub struct ScoreFacet {
    pub alpha: u64,
    pub beta: u64,
    pub opinion: Opinion,
}

/// The facet that belongs to a pair of counts.
pub open spec fn facet_of(alpha: u64, beta: u64) -> ScoreFacet {
    ScoreFacet { alpha, beta, opinion: opinion_from_evidence(alpha as int, beta as int, PRIOR as int) }
}

impl ScoreFacet {
    /// The opinion is the one that the counts support: the two never drift
    /// apart.
    pub open spec fn wf(self) -> bool {
        self == facet_of(self.alpha, self.beta)
    }

    /// Derives the facet of a pair of counts.
    pub fn from_counts(alpha: u64, beta: u64) -> (facet: Self)
        ensures
            facet == facet_of(alpha, beta),
            facet.wf(),
            facet.opinion.is_valid(),
    {
        // PRIOR is positive, so the counts always have an opinion.
        let opinion = match evidence_to_opinion(alpha, beta, PRIOR) {
            Ok(opinion) => opinion,
            Err(_) => Opinion::new(0, 0, SCALE),
        };
        ScoreFacet { alpha, beta, opinion }
    }
}

/// A post whose claim the classifier found contested.
#[derive(Debug, Clone)]
pub struct EvidenceRecord {
    pub cid: String,
    pub domain: String,
    pub classification: String,
    pub evidence_refs: Vec<String>,
}

/// An evidence record as plain texts.
pub struct EvidenceView {
    pub cid: Seq<char>,
    pub domain: Seq<char>,
    pub classification: Seq<char>,
    pub evidence_refs: Seq<Seq<char>>,
}

impl View for EvidenceRecord {
    type V = EvidenceView;

    open spec fn view(&self) -> EvidenceView {
        EvidenceView {
            cid: self.cid@,
            domain: self.domain@,
            classification: self.classification@,
            evidence_refs: texts_of(self.evidence_refs@),
        }
    }
}

/// How much an identity knows of a domain, in parts of [`SCALE`].
#[derive(Debug, Clone)]
pub struct Expertise {
    pub domain: String,
    pub score: u64,
}

/// An expertise entry with its domain as plain text.
pub struct ExpertiseView {
    pub domain: Seq<char>,
    pub score: u64,
}

impl View for Expertise {
    type V = ExpertiseView;

    open spec fn view(&self) -> ExpertiseView {
        ExpertiseView { domain: self.domain@, score: self.score }
    }
}

/// The latest scores of one identity.
#[derive(Debug, Clone)]
pub struct UserScores {
    pub did: String,
    pub handle: String,
    /// Milliseconds since the Unix epoch.
    pub updated_at: i64,
    pub accuracy: ScoreFacet,
    pub civility: ScoreFacet,
    /// In parts of [`SCALE`].
    pub bot_prob: u64,
    pub expertise: Vec<Expertise>,
    pub evidence: Vec<EvidenceRecord>,
}

/// A score document as plain values.
pub struct UserScoresView {
    pub did: Seq<char>,
    pub handle: Seq<char>,
    pub updated_at: i64,
    pub accuracy: ScoreFacet,
    pub civility: ScoreFacet,
    pub bot_prob: u64,
    pub expertise: Seq<ExpertiseView>,
    pub evidence: Seq<EvidenceView>,
}

/// The views of a list of evidence records, in order.
pub open spec fn evidence_views(list: Seq<EvidenceRecord>) -> Seq<EvidenceView> {
    list.map_values(|e: EvidenceRecord| e@)
}

/// The views of a list of expertise entries, in order.
pub open spec fn expertise_views(list: Seq<Expertise>) -> Seq<ExpertiseView> {
    list.map_values(|e: Expertise| e@)
}

impl View for UserScores {
    type V = UserScoresView;

    open spec fn view(&self) -> UserScoresView {
        UserScoresView {
            did: self.did@,
            handle: self.handle@,
            updated_at: self.updated_at,
            accuracy: self.accuracy,
            civility: self.civility,
            bot_prob: self.bot_prob,
            expertise: expertise_views(self.expertise@),
            evidence: evidence_views(self.evidence@),
        }
    }
}

/// The document of an identity that was never scored: the identity stands
/// in for the handle, both facets are without evidence and so fully
/// uncertain, and nothing else is known.
pub open spec fn default_scores_view(id: Seq<char>) -> UserScoresView {
    UserScoresView {
        did: id,
        handle: id,
        updated_at: 0,
        accuracy: facet_of(0, 0),
        civility: facet_of(0, 0),
        bot_prob: 0,
        expertise: Seq::empty(),
        evidence: Seq::empty(),
    }
}

/// Copies a list of texts.
pub fn duplicate_texts(list: &Vec<String>) -> (copy: Vec<String>)
    ensures
        texts_of(copy@) == texts_of(list@),
{
    let mut copy: Vec<String> = Vec::new();
    let mut i: usize = 0;
    while i < list.len()
        invariant
            i <= list.len(),
            copy@.len() == i,
            forall|k: int| 0 <= k < i ==> copy@[k]@ == list@[k]@,
        decreases list.len() - i,
    {
        copy.push(list[i].clone());
        i += 1;
    }
    assert(texts_of(copy@) =~= texts_of(list@));
    copy
}

impl EvidenceRecord {
    /// Copies the record.
    pub fn duplicate(&self) -> (copy: Self)
        ensures
            copy@ == self@,
    {
        EvidenceRecord {
            cid: self.cid.clone(),
            domain: self.domain.clone(),
            classification: self.classification.clone(),
            evidence_refs: duplicate_texts(&self.evidence_refs),
        }
    }
}

/// Copies a list of evidence records.
pub fn duplicate_evidence(list: &Vec<EvidenceRecord>) -> (copy: Vec<EvidenceRecord>)
    ensures
        evidence_views(copy@) == evidence_views(list@),
{
    let mut copy: Vec<EvidenceRecord> = Vec::new();
    let mut i: usize = 0;
    while i < list.len()
        invariant
            i <= list.len(),
            copy@.len() == i,
            forall|k: int| 0 <= k < i ==> copy@[k]@ == list@[k]@,
        decreases list.len() - i,
    {
        copy.push(list[i].duplicate());
        i += 1;
    }
    assert(evidence_views(copy@) =~= evidence_views(list@));
    copy
}

impl Expertise {
    /// Copies the entry.
    pub fn duplicate(&self) -> (copy: Self)
        ensures
            copy@ == self@,
    {
        Expertise { domain: self.domain.clone(), score: self.score }
    }
}

impl UserScores {
    /// Both facets hold the opinions that their counts support.
    pub open spec fn wf(&self) -> bool {
        self.accuracy.wf() && self.civility.wf()
    }

    /// Copies the document.
    pub fn duplicate(&self) -> (copy: Self)
        ensures
            copy@ == self@,
    {
        let mut expertise: Vec<Expertise> = Vec::new();
        let mut i: usize = 0;
        while i < self.expertise.len()
            invariant
                i <= self.expertise.len(),
                expertise@.len() == i,
                forall|k: int| 0 <= k < i ==> expertise@[k]@ == self.expertise@[k]@,
            decreases self.expertise.len() - i,
        {
            expertise.push(self.expertise[i].duplicate());
            i += 1;
        }
        let evidence = duplicate_evidence(&self.evidence);
        assert(expertise_views(expertise@) =~= expertise_views(self.expertise@));
        UserScores {
            did: self.did.clone(),
            handle: self.handle.clone(),
            updated_at: self.updated_at,
            accuracy: self.accuracy,
            civility: self.civility,
            bot_prob: self.bot_prob,
            expertise,
            evidence,
        }
    }
}

/// The document handed out for an identity that has no scores yet.
pub fn default_scores(id: &str) -> (doc: UserScores)
    ensures
        doc@ == default_scores_view(id@),
        doc.wf(),
        doc.accuracy.opinion == Opinion::vacuous(),
        doc.civility.opinion == Opinion::vacuous(),
{
    let doc = UserScores {
        did: String::from_str(id),
        handle: String::from_str(id),
        updated_at: 0,
        accuracy: ScoreFacet::from_counts(0, 0),
        civility: ScoreFacet::from_counts(0, 0),
        bot_prob: 0,
        expertise: Vec::new(),
        evidence: Vec::new(),
    };
    assert(expertise_views(doc.expertise@) =~= Seq::empty());
    assert(evidence_views(doc.evidence@) =~= Seq::empty());
    doc
}

} // verus!
