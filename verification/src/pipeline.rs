//! The evidence pipeline: from the posts of an identity to its score
//! document.
//!
//! The pipeline is a state machine. It never fetches or classifies
//! anything itself: [`Pipeline::action`] says what it waits for, the
//! caller does that and hands the outcome to [`Pipeline::deliver`]. A
//! fetch or a classification that fails counts as no evidence, so every
//! run reaches the end and can be finished.

use vstd::prelude::*;
use vstd::string::StringExecFns;
use crate::classifier::{texts_of, verdict_of, GeminiRequest, GeminiResponse, Verdict};
use crate::error::TrustError;
use crate::feed::FeedPost;
use crate::ledger::{JobLedger, JobState};
use crate::scores::{
    duplicate_evidence,
    evidence_views,
    expertise_views,
    facet_of,
    EvidenceRecord,
    EvidenceView,
    ScoreFacet,
    UserScores,
    UserScoresView,
    BOT_PROBABILITY,
};
use crate::store::ScoreStore;
use crate::text::{chars_of, claim_like, is_uncivil, looks_like_claim, uncivil, CIVILITY_MIN_CHARS};

verus! {

/// How many posts one fetch asks for.
pub const FETCH_LIMIT: usize = 25;

/// How many posts of a feed are looked at, from the first.
pub const SCAN_LIMIT: usize = 100;

/// The first posts of a feed go to the classifier whatever they say.
pub const FORCED_CHECKS: usize = 10;

/// The most classifier calls that one run makes.
pub const CLASSIFIER_BUDGET: usize = 25;

/// The domain in which every claim is judged.
pub open spec fn claim_domain() -> Seq<char> {
    "politics"@
}

/// The label of an evidence record.
pub open spec fn contested_label() -> Seq<char> {
    "contested"@
}

/// What the pipeline waits for.
#[derive(Clone, Copy, Debug, PartialEq, Eq, Structural)]
pub enum Stage {
    /// The posts fetched under the identity.
    FetchingByIdentity,
    /// The posts fetched under the handle, the first fetch having come
    /// back empty.
    FetchingByHandle,
    /// The classifier's answer for the post at the cursor.
    Classifying,
    /// Nothing: every post was looked at.
    Scored,
}

/// Evidence counts of the accuracy and the civility facet.
#[derive(Clone, Copy, Debug, PartialEq, Eq, Structural)]
pub struct Tally {
    pub alpha_acc: u64,
    pub beta_acc: u64,
    pub alpha_civ: u64,
    pub beta_civ: u64,
}

/// A post counts for civility when its text is long enough.
pub open spec fn counts_for_civility(text: Seq<char>) -> bool {
    text.len() > CIVILITY_MIN_CHARS
}

/// The number of uncivil posts among the first `n`.
pub open spec fn uncivil_posts(posts: Seq<FeedPost>, n: int) -> nat
    decreases n,
{
    if n <= 0 {
        0
    } else {
        let text = posts[n - 1].text_view();
        uncivil_posts(posts, n - 1) + if counts_for_civility(text) && uncivil(text) {
            1nat
        } else {
            0nat
        }
    }
}

/// The number of civil posts among the first `n`.
pub open spec fn civil_posts(posts: Seq<FeedPost>, n: int) -> nat
    decreases n,
{
    if n <= 0 {
        0
    } else {
        let text = posts[n - 1].text_view();
        civil_posts(posts, n - 1) + if counts_for_civility(text) && !uncivil(text) {
            1nat
        } else {
            0nat
        }
    }
}

proof fn lemma_civility_counts(posts: Seq<FeedPost>, n: int)
    requires
        0 <= n,
    ensures
        civil_posts(posts, n) + uncivil_posts(posts, n) <= n,
    decreases n,
{
    if n > 0 {
        lemma_civility_counts(posts, n - 1);
    }
}

impl Tally {
    /// No evidence.
    pub open spec fn zero() -> Tally {
        Tally { alpha_acc: 0, beta_acc: 0, alpha_civ: 0, beta_civ: 0 }
    }

    /// The tally with the classifier's verdict on one post counted in: an
    /// accurate claim is positive evidence of accuracy, an inaccurate one
    /// negative; the other verdicts count for nothing.
    pub open spec fn with_verdict(self, verdict: Verdict) -> Tally {
        match verdict {
            Verdict::Accurate => Tally { alpha_acc: (self.alpha_acc + 1) as u64, ..self },
            Verdict::Inaccurate => Tally { beta_acc: (self.beta_acc + 1) as u64, ..self },
            _ => self,
        }
    }

    /// The tally with one post counted in for civility: a text that is long
    /// enough is negative evidence if it is uncivil and positive evidence
    /// otherwise.
    pub open spec fn with_civility(self, text: Seq<char>) -> Tally {
        if !counts_for_civility(text) {
            self
        } else if uncivil(text) {
            Tally { beta_civ: (self.beta_civ + 1) as u64, ..self }
        } else {
            Tally { alpha_civ: (self.alpha_civ + 1) as u64, ..self }
        }
    }
}

/// What the caller is to do next.
#[derive(Debug)]
pub enum Action {
    /// Fetch up to `limit` recent posts of `actor`.
    FetchPosts { actor: String, limit: usize },
    /// Have the classifier judge a text.
    Classify(GeminiRequest),
    /// Nothing is left to fetch or classify: finish the run.
    Finish,
}

/// The outcome of what the caller did.
#[derive(Debug)]
pub enum Event {
    /// The posts that a fetch returned, in the order it returned them.
    Posts(Result<Vec<FeedPost>, TrustError>),
    /// The classifier's answer.
    Classified(Result<GeminiResponse, TrustError>),
}

/// The state of a run.
pub struct PipelineView {
    pub did: Seq<char>,
    pub handle: Seq<char>,
    pub job_id: Seq<char>,
    pub stage: Stage,
    /// The posts of the feed, in fetch order.
    pub posts: Seq<FeedPost>,
    /// The cursor: the posts before it have been dealt with.
    pub next: int,
    /// The classifier calls made so far, the outstanding one included.
    pub calls: int,
    pub tally: Tally,
    pub evidence: Seq<EvidenceView>,
}

impl PipelineView {
    /// The state in which a run starts.
    pub open spec fn initial(did: Seq<char>, handle: Seq<char>, job_id: Seq<char>) -> PipelineView {
        PipelineView {
            did,
            handle,
            job_id,
            stage: Stage::FetchingByIdentity,
            posts: Seq::empty(),
            next: 0,
            calls: 0,
            tally: Tally::zero(),
            evidence: Seq::empty(),
        }
    }

    /// The number of posts that the run looks at.
    pub open spec fn limit(self) -> int {
        if self.posts.len() <= SCAN_LIMIT {
            self.posts.len() as int
        } else {
            SCAN_LIMIT as int
        }
    }

    /// The text of the post at position `i`.
    pub open spec fn text_at(self, i: int) -> Seq<char> {
        self.posts[i].text_view()
    }

    /// The post at the cursor goes to the classifier: it has a text, it is
    /// one of the first posts or looks like a claim, and the budget is not
    /// used up.
    pub open spec fn calls_classifier(self) -> bool {
        let text = self.text_at(self.next);
        &&& text.len() > 0
        &&& (self.next < FORCED_CHECKS || claim_like(text))
        &&& self.calls < CLASSIFIER_BUDGET
    }

    /// The state with the cursor moved past the post it stood on, and that
    /// post counted in for civility.
    pub open spec fn pass(self) -> PipelineView {
        PipelineView {
            next: self.next + 1,
            tally: self.tally.with_civility(self.text_at(self.next)),
            ..self
        }
    }

    /// The state in which the run next waits: the cursor moves on, counting
    /// each post in for civility, until it stands on a post that goes to the
    /// classifier or no post is left.
    pub open spec fn settle(self) -> PipelineView
        decreases self.limit() - self.next,
    {
        if self.next >= self.limit() {
            PipelineView { stage: Stage::Scored, ..self }
        } else if self.calls_classifier() {
            PipelineView { stage: Stage::Classifying, calls: self.calls + 1, ..self }
        } else {
            self.pass().settle()
        }
    }

    /// The state after a fetch returned `fetched` (no posts, if it
    /// failed). An empty feed under the identity is asked for again under
    /// the handle; any other feed is scanned. A fetch that was not asked for
    /// is ignored.
    pub open spec fn on_posts(self, fetched: Seq<FeedPost>) -> PipelineView {
        match self.stage {
            Stage::FetchingByIdentity => if fetched.len() == 0 {
                PipelineView { stage: Stage::FetchingByHandle, ..self }
            } else {
                (PipelineView { posts: fetched, ..self }).settle()
            },
            Stage::FetchingByHandle => (PipelineView { posts: fetched, ..self }).settle(),
            _ => self,
        }
    }

    /// The evidence record of the post at the cursor.
    pub open spec fn contested_record(self, refs: Seq<Seq<char>>) -> EvidenceView {
        EvidenceView {
            cid: self.posts[self.next].cid@,
            domain: claim_domain(),
            classification: contested_label(),
            evidence_refs: refs,
        }
    }

    /// The state after the classifier judged the post at the cursor. The
    /// verdict is counted in, a contested claim is recorded with its
    /// references, and the scan goes on behind the post. An answer that was
    /// not asked for is ignored.
    pub open spec fn on_verdict(self, verdict: Verdict, refs: Seq<Seq<char>>) -> PipelineView {
        if self.stage != Stage::Classifying {
            self
        } else {
            (PipelineView {
                tally: self.tally.with_verdict(verdict),
                evidence: if verdict == Verdict::Contested {
                    self.evidence.push(self.contested_record(refs))
                } else {
                    self.evidence
                },
                ..self
            }).pass().settle()
        }
    }

    /// The state after an event. A fetch that failed counts as an empty
    /// feed, a classification that failed as a neutral verdict.
    pub open spec fn after(self, event: Event) -> PipelineView {
        match event {
            Event::Posts(Ok(posts)) => self.on_posts(posts@),
            Event::Posts(Err(_)) => self.on_posts(Seq::empty()),
            Event::Classified(Ok(answer)) => self.on_verdict(
                verdict_of(answer.classification@),
                texts_of(answer.evidence_refs@),
            ),
            Event::Classified(Err(_)) => self.on_verdict(Verdict::Neutral, Seq::empty()),
        }
    }

    /// `action` is what the run waits for in this state.
    pub open spec fn wants(self, action: Action) -> bool {
        match self.stage {
            Stage::FetchingByIdentity => action matches Action::FetchPosts { actor, limit }
                && actor@ == self.did && limit == FETCH_LIMIT,
            Stage::FetchingByHandle => action matches Action::FetchPosts { actor, limit }
                && actor@ == self.handle && limit == FETCH_LIMIT,
            Stage::Classifying => action matches Action::Classify(request) && request.text@
                == self.text_at(self.next) && request.domain@ == claim_domain(),
            Stage::Scored => action is Finish,
        }
    }

    /// The score document of the run as it stands, stamped `updated_at`.
    pub open spec fn document(self, updated_at: i64) -> UserScoresView {
        UserScoresView {
            did: self.did,
            handle: self.handle,
            updated_at,
            accuracy: facet_of(self.tally.alpha_acc, self.tally.beta_acc),
            civility: facet_of(self.tally.alpha_civ, self.tally.beta_civ),
            bot_prob: BOT_PROBABILITY,
            expertise: Seq::empty(),
            evidence: self.evidence,
        }
    }

    /// The event is the outcome of what the run waits for.
    pub open spec fn answered_by(self, event: Event) -> bool {
        match self.stage {
            Stage::FetchingByIdentity | Stage::FetchingByHandle => event is Posts,
            Stage::Classifying => event is Classified,
            Stage::Scored => false,
        }
    }

    /// An upper bound on the number of events that the run still waits
    /// for: one for each fetch that may be asked for, and one for each post
    /// from the cursor on.
    pub open spec fn remaining(self) -> int {
        match self.stage {
            Stage::FetchingByIdentity => SCAN_LIMIT + 2,
            Stage::FetchingByHandle => SCAN_LIMIT + 1,
            Stage::Classifying => self.limit() - self.next,
            Stage::Scored => 0,
        }
    }

    /// The counts are those of the posts before the cursor: the civility
    /// counts are exactly the civil and the uncivil posts among them, and
    /// accuracy evidence and records together do not exceed the classifier
    /// calls that were answered, which stay within the budget.
    pub open spec fn counted(self) -> bool {
        &&& 0 <= self.next <= self.limit()
        &&& 0 <= self.calls <= CLASSIFIER_BUDGET
        &&& self.tally.alpha_acc + self.tally.beta_acc + self.evidence.len() <= self.calls
        &&& self.tally.alpha_civ == civil_posts(self.posts, self.next)
        &&& self.tally.beta_civ == uncivil_posts(self.posts, self.next)
    }

    /// The state is one that a run can be in.
    pub open spec fn wf(self) -> bool {
        &&& self.counted()
        &&& match self.stage {
            Stage::FetchingByIdentity | Stage::FetchingByHandle => {
                &&& self.posts.len() == 0
                &&& self.calls == 0
            },
            Stage::Classifying => {
                &&& self.next < self.limit()
                &&& self.text_at(self.next).len() > 0
                &&& self.tally.alpha_acc + self.tally.beta_acc + self.evidence.len() < self.calls
            },
            Stage::Scored => self.next == self.limit(),
        }
    }
}

proof fn lemma_settle_advances(v: PipelineView)
    requires
        0 <= v.next <= v.limit(),
    ensures
        v.settle().posts == v.posts,
        v.next <= v.settle().next <= v.limit(),
        v.settle().stage == Stage::Scored || (v.settle().stage == Stage::Classifying
            && v.settle().next < v.limit()),
    decreases v.limit() - v.next,
{
    if v.next < v.limit() && !v.calls_classifier() {
        lemma_settle_advances(v.pass());
    }
}

/// Every run ends. An event that is the outcome of what the run waits for
/// lowers the bound on the events still to come, which is never negative
/// and is zero exactly when the run is scored; any other event leaves the
/// run as it is. A run therefore takes at most two fetches and one
/// classification for each post that it looks at.
pub proof fn lemma_run_ends(v: PipelineView, event: Event)
    requires
        v.wf(),
    ensures
        0 <= v.remaining() <= SCAN_LIMIT + 2,
        v.remaining() == 0 <==> v.stage == Stage::Scored,
        v.answered_by(event) ==> v.after(event).remaining() < v.remaining(),
        !v.answered_by(event) ==> v.after(event) == v,
{
    match event {
        Event::Posts(fetched) => {
            let posts = match fetched {
                Ok(posts) => posts@,
                Err(_) => Seq::empty(),
            };
            if v.stage == Stage::FetchingByIdentity || v.stage == Stage::FetchingByHandle {
                lemma_settle_advances(PipelineView { posts, ..v });
            }
        },
        Event::Classified(answer) => {
            if v.stage == Stage::Classifying {
                let (verdict, refs) = match answer {
                    Ok(answer) => (
                        verdict_of(answer.classification@),
                        texts_of(answer.evidence_refs@),
                    ),
                    Err(_) => (Verdict::Neutral, Seq::empty()),
                };
                let counted = PipelineView {
                    tally: v.tally.with_verdict(verdict),
                    evidence: if verdict == Verdict::Contested {
                        v.evidence.push(v.contested_record(refs))
                    } else {
                        v.evidence
                    },
                    ..v
                };
                lemma_settle_advances(counted.pass());
            }
        },
    }
}

/// Calls `chrono::Utc::now` and `DateTime::timestamp_millis`: the time of
/// the call in milliseconds since the Unix epoch. The clock decides, so the
/// contract claims nothing of the result. The call panics if the clock
/// stands before the epoch, which no argument could rule out.
#[verifier::external_body]
fn now_millis() -> (millis: i64) {
    chrono::Utc::now().timestamp_millis()
}

/// One run of the evidence pipeline.
pub struct Pipeline {
    did: String,
    handle: String,
    job_id: String,
    stage: Stage,
    posts: Vec<FeedPost>,
    next: usize,
    calls: usize,
    tally: Tally,
    evidence: Vec<EvidenceRecord>,
}

impl View for Pipeline {
    type V = PipelineView;

    closed spec fn view(&self) -> PipelineView {
        PipelineView {
            did: self.did@,
            handle: self.handle@,
            job_id: self.job_id@,
            stage: self.stage,
            posts: self.posts@,
            next: self.next as int,
            calls: self.calls as int,
            tally: self.tally,
            evidence: evidence_views(self.evidence@),
        }
    }
}

impl Pipeline {
    /// Starts a run for a job. The first thing it waits for is the feed of
    /// the identity.
    pub fn start(did: String, handle: String, job_id: String) -> (run: Self)
        ensures
            run@ == PipelineView::initial(did@, handle@, job_id@),
            run@.wf(),
    {
        let run = Pipeline {
            did,
            handle,
            job_id,
            stage: Stage::FetchingByIdentity,
            posts: Vec::new(),
            next: 0,
            calls: 0,
            tally: Tally { alpha_acc: 0, beta_acc: 0, alpha_civ: 0, beta_civ: 0 },
            evidence: Vec::new(),
        };
        assert(evidence_views(run.evidence@) =~= Seq::empty());
        run
    }

    /// What the run waits for.
    pub fn stage(&self) -> (stage: Stage)
        ensures
            stage == self@.stage,
    {
        self.stage
    }

    /// What the caller is to do next.
    pub fn action(&self) -> (action: Action)
        requires
            self@.wf(),
        ensures
            self@.wants(action),
    {
        match self.stage {
            Stage::FetchingByIdentity => Action::FetchPosts {
                actor: self.did.clone(),
                limit: FETCH_LIMIT,
            },
            Stage::FetchingByHandle => Action::FetchPosts {
                actor: self.handle.clone(),
                limit: FETCH_LIMIT,
            },
            Stage::Classifying => Action::Classify(
                GeminiRequest {
                    text: String::from_str(self.posts[self.next].text()),
                    domain: String::from_str("politics"),
                },
            ),
            Stage::Scored => Action::Finish,
        }
    }

    /// Moves the cursor past the post it stands on, counting the post in
    /// for civility.
    fn pass(&mut self)
        requires
            old(self)@.counted(),
            old(self)@.next < old(self)@.limit(),
        ensures
            final(self)@ == old(self)@.pass(),
            final(self)@.counted(),
    {
        let text = self.posts[self.next].text();
        let long_enough = chars_of(text).len() > CIVILITY_MIN_CHARS;
        let rude = long_enough && is_uncivil(text);
        proof {
            lemma_civility_counts(self.posts@, self.next as int);
        }
        if rude {
            self.tally.beta_civ = self.tally.beta_civ + 1;
        } else if long_enough {
            self.tally.alpha_civ = self.tally.alpha_civ + 1;
        }
        self.next = self.next + 1;
    }

    /// Moves the cursor on until the run waits for the classifier or no
    /// post is left.
    fn settle(&mut self)
        requires
            old(self)@.counted(),
        ensures
            final(self)@ == old(self)@.settle(),
            final(self)@.wf(),
    {
        let limit: usize = if self.posts.len() <= SCAN_LIMIT {
            self.posts.len()
        } else {
            SCAN_LIMIT
        };
        loop
            invariant
                self@.counted(),
                self@.settle() == old(self)@.settle(),
                limit == self@.limit(),
            decreases limit - self.next,
        {
            if self.next >= limit {
                self.stage = Stage::Scored;
                return ;
            }
            let text = self.posts[self.next].text();
            let has_text = chars_of(text).len() > 0;
            if has_text && (self.next < FORCED_CHECKS || looks_like_claim(text)) && self.calls
                < CLASSIFIER_BUDGET {
                self.calls = self.calls + 1;
                self.stage = Stage::Classifying;
                return ;
            }
            self.pass();
        }
    }

    /// Takes in the outcome of what the caller did and moves on to the
    /// next thing to wait for.
    pub fn deliver(&mut self, event: Event)
        requires
            old(self)@.wf(),
        ensures
            final(self)@ == old(self)@.after(event),
            final(self)@.wf(),
    {
        match event {
            Event::Posts(fetched) => {
                let posts = match fetched {
                    Ok(posts) => posts,
                    Err(_) => Vec::new(),
                };
                match self.stage {
                    Stage::FetchingByIdentity => {
                        if posts.len() == 0 {
                            self.stage = Stage::FetchingByHandle;
                        } else {
                            self.posts = posts;
                            self.settle();
                        }
                    },
                    Stage::FetchingByHandle => {
                        self.posts = posts;
                        self.settle();
                    },
                    _ => {},
                }
            },
            Event::Classified(answer) => {
                if self.stage == Stage::Classifying {
                    let answer = match answer {
                        Ok(answer) => answer,
                        Err(_) => GeminiResponse::neutral(),
                    };
                    match answer.verdict() {
                        Verdict::Accurate => {
                            self.tally.alpha_acc = self.tally.alpha_acc + 1;
                        },
                        Verdict::Inaccurate => {
                            self.tally.beta_acc = self.tally.beta_acc + 1;
                        },
                        Verdict::Contested => {
                            let record = EvidenceRecord {
                                cid: self.posts[self.next].cid.clone(),
                                domain: String::from_str("politics"),
                                classification: String::from_str("contested"),
                                evidence_refs: answer.evidence_refs,
                            };
                            self.evidence.push(record);
                            assert(evidence_views(self.evidence@) =~= evidence_views(
                                old(self).evidence@,
                            ).push(record@));
                        },
                        Verdict::Neutral => {},
                    }
                    self.pass();
                    self.settle();
                }
            },
        }
    }

    /// The score document of the run as it stands, stamped `updated_at`:
    /// each facet with its counts and the opinion they support, the
    /// fixed bot probability, no expertise, and the evidence records
    /// in the order in which they were made.
    pub fn scores(&self, updated_at: i64) -> (doc: UserScores)
        ensures
            doc@ == self@.document(updated_at),
            doc.wf(),
    {
        let doc = UserScores {
            did: self.did.clone(),
            handle: self.handle.clone(),
            updated_at,
            accuracy: ScoreFacet::from_counts(self.tally.alpha_acc, self.tally.beta_acc),
            civility: ScoreFacet::from_counts(self.tally.alpha_civ, self.tally.beta_civ),
            bot_prob: BOT_PROBABILITY,
            expertise: Vec::new(),
            evidence: duplicate_evidence(&self.evidence),
        };
        assert(expertise_views(doc.expertise@) =~= Seq::empty());
        doc
    }

    /// The score document of the run as it stands, stamped with the time
    /// of the call.
    pub fn scores_now(&self) -> (doc: UserScores)
        ensures
            doc@ == self@.document(doc.updated_at),
            doc.wf(),
    {
        self.scores(now_millis())
    }

    /// Finishes the run at a given time: the score document stamped
    /// `updated_at` replaces whatever the store held for the identity, and
    /// the job is marked done and waits for no worker.
    pub fn finish_at(&self, updated_at: i64, store: &mut ScoreStore, ledger: &mut JobLedger)
        requires
            old(ledger).wf(),
        ensures
            final(store)@ == old(store)@.insert(self@.did, self@.document(updated_at)),
            final(ledger).wf(),
            final(ledger)@.states == old(ledger)@.states.insert(self@.job_id, JobState::Done),
            final(ledger)@.pending == old(ledger)@.pending.remove(self@.job_id),
    {
        let doc = self.scores(updated_at);
        store.upsert_user_scores(self.did.as_str(), doc);
        ledger.mark_done(self.job_id.as_str());
    }

    /// Finishes the run now, and returns the time that the document was
    /// stamped with.
    pub fn finish(&self, store: &mut ScoreStore, ledger: &mut JobLedger) -> (updated_at: i64)
        requires
            old(ledger).wf(),
        ensures
            final(store)@ == old(store)@.insert(self@.did, self@.document(updated_at)),
            final(ledger).wf(),
            final(ledger)@.states == old(ledger)@.states.insert(self@.job_id, JobState::Done),
            final(ledger)@.pending == old(ledger)@.pending.remove(self@.job_id),
    {
        let updated_at = now_millis();
        self.finish_at(updated_at, store, ledger);
        updated_at
    }
}

} // verus!
