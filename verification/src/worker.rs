//! What a remote worker decides between its calls to the ledger's host.

use vstd::prelude::*;
use vstd::string::StringExecFns;

verus! {

/// The status with which the host says that no job is pending.
pub const NO_CONTENT: u16 = 204;

/// The host's reply to a claim hands out a job: the status says success
/// and is not "no content", and neither the job id nor the identity is
/// empty.
pub open spec fn reply_has_job(status: u16, job_id: Seq<char>, did: Seq<char>) -> bool {
    &&& 200 <= status < 300
    &&& status != NO_CONTENT
    &&& job_id.len() > 0
    &&& did.len() > 0
}

/// Reads the host's reply to a claim: the job that it hands out, if any.
/// `job_id` and `did` are what the reply's body gave, empty where it gave
/// nothing.
pub fn job_from_reply(status: u16, job_id: &str, did: &str) -> (job: Option<(String, String)>)
    ensures
        job is Some <==> reply_has_job(status, job_id@, did@),
        job is Some ==> job->Some_0.0@ == job_id@ && job->Some_0.1@ == did@,
{
    if status == NO_CONTENT || status < 200 || status >= 300 {
        return None;
    }
    if job_id.is_empty() || did.is_empty() {
        return None;
    }
    Some((String::from_str(job_id), String::from_str(did)))
}

} // verus!
