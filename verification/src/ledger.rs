//! The job ledger: the lifecycle state of every job, and the set of jobs
//! that wait for a worker.
//!
//! A job goes from pending to processing to done, and only a pending job
//! is ever claimed. The ledger is owned by whoever drives it and changed
//! only through a unique reference, so a claim is atomic: a job leaves the
//! pending set in the same step that hands it to its claimant.

use vstd::prelude::*;
use vstd::string::StringExecFns;
use dashmap::DashMap;
use crate::error::TrustError;
use crate::shared_map::{
    text_entries,
    text_map_first,
    text_map_get,
    text_map_insert,
    text_map_new,
    text_map_remove,
};

verus! {

/// Where a job stands in its lifecycle.
#[derive(Clone, Copy, Debug, PartialEq, Eq, Structural)]
pub enum JobState {
    Pending,
    Processing,
    Done,
}

/// The label under which a state is recorded and reported.
pub open spec fn label_of(state: JobState) -> Seq<char> {
    match state {
        JobState::Pending => "queued"@,
        JobState::Processing => "processing"@,
        JobState::Done => "done"@,
    }
}

/// The state that a label stands for, if it is one of the three labels.
pub open spec fn state_of(label: Seq<char>) -> Option<JobState> {
    if label == "queued"@ {
        Some(JobState::Pending)
    } else if label == "processing"@ {
        Some(JobState::Processing)
    } else if label == "done"@ {
        Some(JobState::Done)
    } else {
        None
    }
}

/// Reading a label back gives the state it was written for.
pub proof fn lemma_label_round_trip(state: JobState)
    ensures
        state_of(label_of(state)) == Some(state),
{
    reveal_strlit("queued");
    reveal_strlit("processing");
    reveal_strlit("done");
    assert("queued"@.len() == 6);
    assert("processing"@.len() == 10);
    assert("done"@.len() == 4);
}

impl JobState {
    /// The label of the state.
    pub fn label(&self) -> (label: &'static str)
        ensures
            label@ == label_of(*self),
    {
        match self {
            JobState::Pending => "queued",
            JobState::Processing => "processing",
            JobState::Done => "done",
        }
    }

    /// Reads a label.
    pub fn from_label(label: &str) -> (state: Option<JobState>)
        ensures
            state == state_of(label@),
    {
        let label = String::from_str(label);
        if label == String::from_str("queued") {
            Some(JobState::Pending)
        } else if label == String::from_str("processing") {
            Some(JobState::Processing)
        } else if label == String::from_str("done") {
            Some(JobState::Done)
        } else {
            None
        }
    }
}

/// Calls `uuid::Uuid::new_v4` and writes the identifier out as text. The
/// identifier is random, so the contract claims nothing of it. The call
/// panics if the operating system cannot give random bytes, which no
/// argument could rule out.
#[verifier::external_body]
fn fresh_job_id() -> (id: String) {
    uuid::Uuid::new_v4().to_string()
}

/// What a ledger holds: the state of every job it has seen, and the
/// identity of every job that waits for a worker.
pub struct LedgerView {
    pub states: Map<Seq<char>, JobState>,
    pub pending: Map<Seq<char>, Seq<char>>,
}

impl LedgerView {
    /// Every job that waits for a worker is in the pending state.
    pub open spec fn waiting_are_pending(self) -> bool {
        forall|id: Seq<char>| #[trigger]
            self.pending.contains_key(id) ==> self.states.contains_pair(id, JobState::Pending)
    }
}

/// A claim took the ledger from `pre` to `post` and handed out `job`, a job
/// id with its identity. A job that is handed out was waiting in the pending
/// state, waits no longer and is in processing; nothing else changed. No job
/// is handed out only when none was waiting, and then nothing changed.
pub open spec fn claimed(
    pre: LedgerView,
    post: LedgerView,
    job: Option<(Seq<char>, Seq<char>)>,
) -> bool {
    match job {
        Some((id, did)) => {
            &&& pre.pending.contains_pair(id, did)
            &&& pre.states.contains_pair(id, JobState::Pending)
            &&& post.pending == pre.pending.remove(id)
            &&& post.states == pre.states.insert(id, JobState::Processing)
        },
        None => pre.pending.dom() == Set::<Seq<char>>::empty() && post == pre,
    }
}

/// A run of claims with nothing else in between: `views` are the ledgers
/// before, between and after the claims, `jobs` what each claim handed out.
pub open spec fn claim_run(
    views: Seq<LedgerView>,
    jobs: Seq<Option<(Seq<char>, Seq<char>)>>,
) -> bool {
    &&& views.len() == jobs.len() + 1
    &&& forall|i: int| 0 <= i < jobs.len() ==> claimed(views[i], views[i + 1], #[trigger] jobs[i])
}

/// The job ledger.
pub struct JobLedger {
    jobs: DashMap<String, String>,
    queue: DashMap<String, String>,
}

impl View for JobLedger {
    type V = LedgerView;

    closed spec fn view(&self) -> LedgerView {
        LedgerView {
            states: Map::new(
                |id: Seq<char>|
                    text_entries(self.jobs).contains_key(id) && state_of(
                        text_entries(self.jobs)[id],
                    ) is Some,
                |id: Seq<char>| state_of(text_entries(self.jobs)[id])->Some_0,
            ),
            pending: text_entries(self.queue),
        }
    }
}

impl JobLedger {
    /// Every recorded label is the label of a state.
    pub closed spec fn labels_valid(&self) -> bool {
        forall|id: Seq<char>| #[trigger]
            text_entries(self.jobs).contains_key(id) ==> state_of(text_entries(self.jobs)[id])
                is Some
    }

    /// The ledger holds finitely many jobs, each in one of the three
    /// states, and the jobs that wait for a worker are in the pending state.
    pub open spec fn wf(&self) -> bool {
        &&& self.labels_valid()
        &&& self@.states.dom().finite()
        &&& self@.pending.dom().finite()
        &&& self@.waiting_are_pending()
    }

    proof fn lemma_states_dom(&self)
        requires
            self.labels_valid(),
        ensures
            self@.states.dom() == text_entries(self.jobs).dom(),
    {
        assert(self@.states.dom() =~= text_entries(self.jobs).dom());
    }

    /// A ledger without jobs.
    pub fn new() -> (ledger: Self)
        ensures
            ledger.wf(),
            ledger@.states == Map::<Seq<char>, JobState>::empty(),
            ledger@.pending == Map::<Seq<char>, Seq<char>>::empty(),
    {
        let ledger = JobLedger { jobs: text_map_new(), queue: text_map_new() };
        proof {
            assert(ledger@.states =~= Map::<Seq<char>, JobState>::empty());
            assert(ledger@.pending =~= Map::<Seq<char>, Seq<char>>::empty());
        }
        ledger
    }

    fn record(&mut self, job_id: &str, state: JobState)
        requires
            old(self).wf(),
            state != JobState::Pending ==> !old(self)@.pending.contains_key(job_id@),
        ensures
            final(self).wf(),
            final(self)@.states == old(self)@.states.insert(job_id@, state),
            final(self)@.pending == old(self)@.pending,
    {
        proof {
            lemma_label_round_trip(state);
            old(self).lemma_states_dom();
        }
        text_map_insert(&mut self.jobs, String::from_str(job_id), String::from_str(state.label()));
        proof {
            assert(self.labels_valid());
            assert(self@.states =~= old(self)@.states.insert(job_id@, state));
        }
    }

    /// Registers a job for an identity as pending. The job id is the
    /// caller's and should be fresh: a job already known under this id is
    /// overwritten, its state and its identity alike. `force` is accepted
    /// and has no effect.
    pub fn enqueue_score_job(&mut self, did: &str, job_id: &str, force: bool) -> (r: Result<
        (),
        TrustError,
    >)
        requires
            old(self).wf(),
        ensures
            r is Ok,
            final(self).wf(),
            final(self)@.states == old(self)@.states.insert(job_id@, JobState::Pending),
            final(self)@.pending == old(self)@.pending.insert(job_id@, did@),
    {
        self.record(job_id, JobState::Pending);
        text_map_insert(&mut self.queue, String::from_str(job_id), String::from_str(did));
        Ok(())
    }

    /// Registers a job for an identity under a fresh random id, and returns
    /// the id.
    pub fn enqueue_new(&mut self, did: &str, force: bool) -> (job_id: String)
        requires
            old(self).wf(),
        ensures
            final(self).wf(),
            final(self)@.states == old(self)@.states.insert(job_id@, JobState::Pending),
            final(self)@.pending == old(self)@.pending.insert(job_id@, did@),
    {
        let job_id = fresh_job_id();
        let _ = self.enqueue_score_job(did, job_id.as_str(), force);
        job_id
    }

    /// The state of a job, or nothing for an id that was never seen.
    pub fn get_job_status(&self, job_id: &str) -> (state: Option<JobState>)
        requires
            self.wf(),
        ensures
            state is Some <==> self@.states.contains_key(job_id@),
            state is Some ==> state->Some_0 == self@.states[job_id@],
    {
        match text_map_get(&self.jobs, job_id) {
            Some(label) => JobState::from_label(label.as_str()),
            None => None,
        }
    }

    /// Claims a pending job: takes one out of the pending set, moves it
    /// from pending to processing and returns its id and identity. Returns
    /// nothing, and changes nothing, when no job is pending. Which of
    /// several pending jobs is claimed is not specified. A job that was
    /// claimed or marked done cannot be claimed unless it is enqueued again.
    pub fn pop_job(&mut self) -> (job: Option<(String, String)>)
        requires
            old(self).wf(),
        ensures
            final(self).wf(),
            claimed(
                old(self)@,
                final(self)@,
                match job {
                    Some((id, did)) => Some((id@, did@)),
                    None => None,
                },
            ),
    {
        match text_map_first(&self.queue) {
            Some((job_id, did)) => {
                text_map_remove(&mut self.queue, job_id.as_str());
                self.record(job_id.as_str(), JobState::Processing);
                Some((job_id, did))
            },
            None => None,
        }
    }

    /// Puts a job in the done state, whatever state it was in and whether
    /// or not it was ever seen. A job that still waited for a worker waits
    /// no longer: a job that is done is never claimed.
    pub fn mark_done(&mut self, job_id: &str)
        requires
            old(self).wf(),
        ensures
            final(self).wf(),
            final(self)@.states == old(self)@.states.insert(job_id@, JobState::Done),
            final(self)@.pending == old(self)@.pending.remove(job_id@),
    {
        text_map_remove(&mut self.queue, job_id);
        self.record(job_id, JobState::Done);
    }
}

/// What holds after the first `k` claims of a run: the pending set has only
/// shrunk, by one job for each claim that the jobs pending at the start
/// could serve, and holds none of the jobs handed out so far.
spec fn claim_prefix(
    views: Seq<LedgerView>,
    jobs: Seq<Option<(Seq<char>, Seq<char>)>>,
    k: int,
) -> bool {
    let start = views[0].pending;
    let now = views[k].pending;
    &&& now.dom().finite()
    &&& forall|id: Seq<char>| #[trigger] now.contains_key(id) ==> start.contains_pair(id, now[id])
    &&& now.len() == if k <= start.len() {
        start.len() - k
    } else {
        0
    }
    &&& forall|i: int|
        0 <= i < k && (#[trigger] jobs[i]) is Some ==> !now.contains_key(jobs[i]->Some_0.0)
    &&& forall|i: int| 0 <= i < k ==> ((#[trigger] jobs[i]) is Some <==> i < start.len())
}

proof fn lemma_claim_prefix(
    views: Seq<LedgerView>,
    jobs: Seq<Option<(Seq<char>, Seq<char>)>>,
    k: int,
)
    requires
        claim_run(views, jobs),
        views[0].pending.dom().finite(),
        0 <= k <= jobs.len(),
    ensures
        claim_prefix(views, jobs, k),
    decreases k,
{
    if k > 0 {
        lemma_claim_prefix(views, jobs, k - 1);
        let pre = views[k - 1].pending;
        let post = views[k].pending;
        let job = jobs[k - 1];
        assert(claimed(views[k - 1], views[k - 1 + 1], job));
        match job {
            Some((id, did)) => {
                assert(pre.dom().contains(id));
                assert(post.dom() =~= pre.dom().remove(id));
                assert(pre.dom().len() != 0);
            },
            None => {
                assert(pre.dom().len() == 0);
            },
        }
    }
}

/// Claims hand out each job at most once. In a run of claims on a ledger
/// with `m` pending jobs, with nothing enqueued in between, the first `m`
/// claims each hand out a job and every later claim hands out none, so that
/// `n` claims hand out `min(n, m)` jobs and leave `m - min(n, m)` waiting; no
/// job id is handed out twice; and every job handed out waited at the
/// start, under the identity it is handed out with, is in the pending
/// state right before its claim and in processing right after.
pub proof fn lemma_claims_never_repeat(
    views: Seq<LedgerView>,
    jobs: Seq<Option<(Seq<char>, Seq<char>)>>,
)
    requires
        claim_run(views, jobs),
        views[0].pending.dom().finite(),
    ensures
        forall|i: int|
            0 <= i < jobs.len() ==> ((#[trigger] jobs[i]) is Some <==> i < views[0].pending.len()),
        forall|i: int, j: int|
            0 <= i < j < jobs.len() && (#[trigger] jobs[i]) is Some && (#[trigger] jobs[j]) is Some
                ==> jobs[i]->Some_0.0 != jobs[j]->Some_0.0,
        forall|i: int|
            0 <= i < jobs.len() && (#[trigger] jobs[i]) is Some ==> {
                &&& views[0].pending.contains_pair(jobs[i]->Some_0.0, jobs[i]->Some_0.1)
                &&& views[i].states.contains_pair(jobs[i]->Some_0.0, JobState::Pending)
                &&& views[i + 1].states.contains_pair(jobs[i]->Some_0.0, JobState::Processing)
            },
        forall|k: int|
            0 <= k <= jobs.len() ==> (#[trigger] views[k]).pending.len() == if k
                <= views[0].pending.len() {
                views[0].pending.len() - k
            } else {
                0
            },
{
    lemma_claim_prefix(views, jobs, jobs.len() as int);
    assert forall|k: int| 0 <= k <= jobs.len() implies (#[trigger] views[k]).pending.len() == if k
        <= views[0].pending.len() {
        views[0].pending.len() - k
    } else {
        0
    } by {
        lemma_claim_prefix(views, jobs, k);
    }
    assert forall|i: int, j: int|
        0 <= i < j < jobs.len() && (#[trigger] jobs[i]) is Some && (#[trigger] jobs[j])
            is Some implies jobs[i]->Some_0.0 != jobs[j]->Some_0.0 by {
        lemma_claim_prefix(views, jobs, j);
        assert(claimed(views[j], views[j + 1], jobs[j]));
    }
    assert forall|i: int| 0 <= i < jobs.len() && (#[trigger] jobs[i]) is Some implies {
        &&& views[0].pending.contains_pair(jobs[i]->Some_0.0, jobs[i]->Some_0.1)
        &&& views[i].states.contains_pair(jobs[i]->Some_0.0, JobState::Pending)
        &&& views[i + 1].states.contains_pair(jobs[i]->Some_0.0, JobState::Processing)
    } by {
        lemma_claim_prefix(views, jobs, i);
        assert(claimed(views[i], views[i + 1], jobs[i]));
    }
}

} // verus!
