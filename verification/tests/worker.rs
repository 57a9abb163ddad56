use trustsystem::error::TrustError;
use trustsystem::identity::identity_for;
use trustsystem::worker::job_from_reply;

#[test]
fn failed_resolution_falls_back_to_the_handle() {
    assert_eq!(identity_for(Ok("did:plc:abc".to_string()), "alice.example"), "did:plc:abc");
    assert_eq!(
        identity_for(Err(TrustError::UpstreamUnavailable), "alice.example"),
        "alice.example"
    );
}

#[test]
fn reply_with_a_job() {
    assert_eq!(
        job_from_reply(200, "job-1", "did:plc:alice"),
        Some(("job-1".to_string(), "did:plc:alice".to_string()))
    );
    assert_eq!(
        job_from_reply(299, "j", "d"),
        Some(("j".to_string(), "d".to_string()))
    );
}

#[test]
fn reply_without_a_job() {
    assert_eq!(job_from_reply(204, "job-1", "did:plc:alice"), None);
    assert_eq!(job_from_reply(200, "", "did:plc:alice"), None);
    assert_eq!(job_from_reply(200, "job-1", ""), None);
    assert_eq!(job_from_reply(500, "job-1", "did:plc:alice"), None);
    assert_eq!(job_from_reply(199, "job-1", "did:plc:alice"), None);
    assert_eq!(job_from_reply(300, "job-1", "did:plc:alice"), None);
    assert_eq!(job_from_reply(404, "", ""), None);
}
