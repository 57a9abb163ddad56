use trustsystem::classifier::{GeminiRequest, GeminiResponse, Verdict};
use trustsystem::error::TrustError;
use trustsystem::feed::{Author, FeedPost, PostRecord};
use trustsystem::ledger::{JobLedger, JobState};
use trustsystem::opinion::{Opinion, SCALE};
use trustsystem::pipeline::{Action, Event, Pipeline, Stage};
use trustsystem::scores::ScoreFacet;
use trustsystem::store::ScoreStore;

const CLAIM: &str = "According to the report, unemployment is at 5% in the region this year.";
const CHAT: &str = "what a lovely sunny morning over here my dear old friends";

fn post(cid: &str, text: Option<&str>) -> FeedPost {
    FeedPost {
        cid: cid.to_string(),
        uri: format!("at://did:plc:alice/app.bsky.feed.post/{}", cid),
        author: Author { did: "did:plc:alice".to_string() },
        record: Some(PostRecord { text: text.map(|t| t.to_string()) }),
    }
}

fn answer(label: &str, refs: &[&str]) -> Result<GeminiResponse, TrustError> {
    Ok(GeminiResponse {
        classification: label.to_string(),
        evidence_refs: refs.iter().map(|r| r.to_string()).collect(),
    })
}

fn started() -> Pipeline {
    Pipeline::start("did:plc:alice".to_string(), "alice.example".to_string(), "job-1".to_string())
}

/// Drives a run to its end: the first fetch gets `feed`, and `judge` answers
/// each classifier request. Returns the requests in the order they came.
fn drive(
    run: &mut Pipeline,
    feed: Result<Vec<FeedPost>, TrustError>,
    judge: &mut dyn FnMut(usize, &GeminiRequest) -> Result<GeminiResponse, TrustError>,
) -> Vec<GeminiRequest> {
    let mut feed = Some(feed);
    let mut requests: Vec<GeminiRequest> = Vec::new();
    for _ in 0..1000 {
        match run.action() {
            Action::FetchPosts { limit, .. } => {
                assert_eq!(limit, 25);
                let posts = feed.take().unwrap_or(Ok(Vec::new()));
                run.deliver(Event::Posts(posts));
            }
            Action::Classify(request) => {
                let verdict = judge(requests.len(), &request);
                requests.push(request);
                run.deliver(Event::Classified(verdict));
            }
            Action::Finish => return requests,
        }
    }
    panic!("the run did not end");
}

#[test]
fn empty_feed_gives_a_fully_uncertain_document() {
    let mut ledger = JobLedger::new();
    let mut store = ScoreStore::new();
    ledger.enqueue_score_job("did:plc:alice", "job-1", false).unwrap();
    let mut run = started();
    match run.action() {
        Action::FetchPosts { actor, limit } => {
            assert_eq!(actor, "did:plc:alice");
            assert_eq!(limit, 25);
        }
        other => panic!("unexpected action {:?}", other),
    }
    run.deliver(Event::Posts(Ok(Vec::new())));
    assert_eq!(run.stage(), Stage::FetchingByHandle);
    match run.action() {
        Action::FetchPosts { actor, limit } => {
            assert_eq!(actor, "alice.example");
            assert_eq!(limit, 25);
        }
        other => panic!("unexpected action {:?}", other),
    }
    run.deliver(Event::Posts(Ok(Vec::new())));
    assert_eq!(run.stage(), Stage::Scored);
    assert!(matches!(run.action(), Action::Finish));
    run.finish_at(1_700_000_000_123, &mut store, &mut ledger);
    assert_eq!(ledger.get_job_status("job-1"), Some(JobState::Done));
    assert_eq!(ledger.pop_job(), None);
    assert_eq!(ledger.get_job_status("job-1"), Some(JobState::Done));
    let doc = store.get_user_scores("did:plc:alice");
    assert_eq!(doc.did, "did:plc:alice");
    assert_eq!(doc.handle, "alice.example");
    assert_eq!(doc.updated_at, 1_700_000_000_123);
    for facet in [doc.accuracy, doc.civility] {
        assert_eq!(facet.alpha, 0);
        assert_eq!(facet.beta, 0);
        assert_eq!(facet.opinion, Opinion::new(0, 0, SCALE));
    }
    assert_eq!(doc.bot_prob, 120_000_000_000);
    assert!(doc.expertise.is_empty());
    assert!(doc.evidence.is_empty());
}

#[test]
fn failed_fetches_count_as_empty_feeds() {
    let mut run = started();
    run.deliver(Event::Posts(Err(TrustError::UpstreamUnavailable)));
    assert_eq!(run.stage(), Stage::FetchingByHandle);
    run.deliver(Event::Posts(Err(TrustError::UpstreamUnavailable)));
    assert_eq!(run.stage(), Stage::Scored);
    let doc = run.scores(7);
    assert_eq!(doc.accuracy, ScoreFacet::from_counts(0, 0));
    assert_eq!(doc.civility, ScoreFacet::from_counts(0, 0));
}

#[test]
fn feed_under_the_handle_is_scanned() {
    let mut run = started();
    run.deliver(Event::Posts(Ok(Vec::new())));
    run.deliver(Event::Posts(Ok(vec![post("c1", Some("a friendly hello"))])));
    assert_eq!(run.stage(), Stage::Classifying);
    run.deliver(Event::Classified(answer("accurate", &[])));
    assert_eq!(run.stage(), Stage::Scored);
    let doc = run.scores(1);
    assert_eq!(doc.accuracy, ScoreFacet::from_counts(1, 0));
    assert_eq!(doc.civility, ScoreFacet::from_counts(1, 0));
}

#[test]
fn verdicts_are_counted() {
    let mut run = started();
    let feed = vec![
        post("c0", Some("first claim of the day")),
        post("c1", Some("second claim of the day")),
        post("c2", Some("third claim of the day")),
        post("c3", Some("fourth claim of the day")),
        post("c4", Some("fifth claim of the day")),
        post("c5", Some("sixth claim of the day")),
    ];
    let labels = ["accurate", "inaccurate", "contested", "neutral", "accurate", "something else"];
    let requests = drive(&mut run, Ok(feed), &mut |i, _| {
        answer(labels[i], &["https://example.org/ref-a", "https://example.org/ref-b"])
    });
    assert_eq!(requests.len(), 6);
    assert_eq!(requests[2].text, "third claim of the day");
    assert_eq!(requests[2].domain, "politics");
    let doc = run.scores(42);
    assert_eq!(doc.accuracy.alpha, 2);
    assert_eq!(doc.accuracy.beta, 1);
    assert_eq!(
        doc.accuracy.opinion,
        Opinion::new(400_000_000_000, 200_000_000_000, 400_000_000_000)
    );
    assert_eq!(doc.civility.alpha, 6);
    assert_eq!(doc.civility.beta, 0);
    assert_eq!(doc.civility.opinion, Opinion::new(750_000_000_000, 0, 250_000_000_000));
    assert_eq!(doc.evidence.len(), 1);
    assert_eq!(doc.evidence[0].cid, "c2");
    assert_eq!(doc.evidence[0].domain, "politics");
    assert_eq!(doc.evidence[0].classification, "contested");
    assert_eq!(
        doc.evidence[0].evidence_refs,
        vec!["https://example.org/ref-a".to_string(), "https://example.org/ref-b".to_string()]
    );
    assert_eq!(doc.updated_at, 42);
    assert_eq!(doc.bot_prob, 120_000_000_000);
    assert!(doc.expertise.is_empty());
}

#[test]
fn failed_classification_counts_as_neutral() {
    let mut run = started();
    let feed = vec![post("c0", Some("first claim of the day")), post("c1", Some("you idiot!"))];
    let requests = drive(&mut run, Ok(feed), &mut |_, _| Err(TrustError::UpstreamUnavailable));
    assert_eq!(requests.len(), 2);
    let doc = run.scores(0);
    assert_eq!(doc.accuracy, ScoreFacet::from_counts(0, 0));
    assert_eq!(doc.civility, ScoreFacet::from_counts(1, 1));
    assert!(doc.evidence.is_empty());
}

#[test]
fn posts_without_text_are_skipped() {
    let mut run = started();
    let mut no_record = post("c1", None);
    no_record.record = None;
    let feed = vec![
        post("c0", None),
        no_record,
        post("c2", Some("")),
        post("c3", Some("hey")),
        post("c4", Some("You IDIOT")),
        post("c5", Some("idiot")),
        post("c6", Some("kind words")),
    ];
    let requests = drive(&mut run, Ok(feed), &mut |_, _| answer("neutral", &[]));
    let texts: Vec<&str> = requests.iter().map(|r| r.text.as_str()).collect();
    assert_eq!(texts, vec!["hey", "You IDIOT", "idiot", "kind words"]);
    let doc = run.scores(0);
    assert_eq!(doc.civility.alpha, 1);
    assert_eq!(doc.civility.beta, 1);
    assert_eq!(doc.accuracy, ScoreFacet::from_counts(0, 0));
}

#[test]
fn civility_counts_texts_longer_than_five_characters() {
    let mut run = started();
    let feed = vec![
        post("c0", Some("12345")),
        post("c1", Some("123456")),
        post("c2", Some("ééééé")),
        post("c3", Some("éééééé")),
    ];
    drive(&mut run, Ok(feed), &mut |_, _| answer("neutral", &[]));
    let doc = run.scores(0);
    assert_eq!(doc.civility.alpha, 2);
    assert_eq!(doc.civility.beta, 0);
}

#[test]
fn first_ten_posts_are_always_classified() {
    let mut run = started();
    let feed: Vec<FeedPost> = (0..15).map(|i| post(&format!("c{}", i), Some(CHAT))).collect();
    let requests = drive(&mut run, Ok(feed), &mut |_, _| answer("accurate", &[]));
    assert_eq!(requests.len(), 10);
    let doc = run.scores(0);
    assert_eq!(doc.accuracy.alpha, 10);
    assert_eq!(doc.civility.alpha, 15);
}

#[test]
fn forced_checks_go_by_position_in_the_feed() {
    let mut run = started();
    let mut feed: Vec<FeedPost> = (0..8).map(|i| post(&format!("e{}", i), None)).collect();
    feed.extend((0..6).map(|i| post(&format!("c{}", i), Some(CHAT))));
    let requests = drive(&mut run, Ok(feed), &mut |_, _| answer("accurate", &[]));
    assert_eq!(requests.len(), 2);
    assert_eq!(run.scores(0).civility.alpha, 6);
}

#[test]
fn later_posts_are_classified_when_they_look_like_claims() {
    let mut run = started();
    let mut feed: Vec<FeedPost> = (0..10).map(|i| post(&format!("c{}", i), Some(CHAT))).collect();
    feed.push(post("c10", Some(CLAIM)));
    feed.push(post("c11", Some(CHAT)));
    feed.push(post("c12", Some(CLAIM)));
    let requests = drive(&mut run, Ok(feed), &mut |i, _| {
        if i < 10 {
            answer("neutral", &[])
        } else {
            answer("inaccurate", &[])
        }
    });
    assert_eq!(requests.len(), 12);
    assert_eq!(requests[10].text, CLAIM);
    assert_eq!(requests[11].text, CLAIM);
    let doc = run.scores(0);
    assert_eq!(doc.accuracy, ScoreFacet::from_counts(0, 2));
    assert_eq!(doc.civility.alpha, 13);
}

#[test]
fn classifier_budget_is_twenty_five_calls() {
    let mut run = started();
    let feed: Vec<FeedPost> = (0..40).map(|i| post(&format!("c{}", i), Some(CLAIM))).collect();
    let requests = drive(&mut run, Ok(feed), &mut |_, _| answer("contested", &["https://r"]));
    assert_eq!(requests.len(), 25);
    let doc = run.scores(0);
    assert_eq!(doc.evidence.len(), 25);
    let cids: Vec<String> = doc.evidence.iter().map(|e| e.cid.clone()).collect();
    let expected: Vec<String> = (0..25).map(|i| format!("c{}", i)).collect();
    assert_eq!(cids, expected);
    assert_eq!(doc.accuracy, ScoreFacet::from_counts(0, 0));
    assert_eq!(doc.civility.alpha, 40);
}

#[test]
fn only_the_first_hundred_posts_are_scanned() {
    let mut run = started();
    let feed: Vec<FeedPost> =
        (0..130).map(|i| post(&format!("c{}", i), Some("a friendly hello"))).collect();
    let requests = drive(&mut run, Ok(feed), &mut |_, _| answer("accurate", &[]));
    assert_eq!(requests.len(), 10);
    let doc = run.scores(0);
    assert_eq!(doc.civility.alpha, 100);
    assert_eq!(doc.civility.beta, 0);
    assert_eq!(
        doc.civility.opinion,
        Opinion::new(980_392_156_862, 0, 19_607_843_138)
    );
}

#[test]
fn events_that_were_not_asked_for_are_ignored() {
    let mut run = started();
    run.deliver(Event::Classified(answer("accurate", &[])));
    assert_eq!(run.stage(), Stage::FetchingByIdentity);
    run.deliver(Event::Posts(Ok(vec![post("c0", Some("first claim of the day"))])));
    assert_eq!(run.stage(), Stage::Classifying);
    run.deliver(Event::Posts(Ok(vec![post("x", Some("you idiot, you"))])));
    assert_eq!(run.stage(), Stage::Classifying);
    run.deliver(Event::Classified(answer("accurate", &[])));
    assert_eq!(run.stage(), Stage::Scored);
    run.deliver(Event::Classified(answer("inaccurate", &[])));
    run.deliver(Event::Posts(Ok(vec![post("y", Some("you idiot, you"))])));
    assert_eq!(run.stage(), Stage::Scored);
    let doc = run.scores(0);
    assert_eq!(doc.accuracy, ScoreFacet::from_counts(1, 0));
    assert_eq!(doc.civility, ScoreFacet::from_counts(1, 0));
}

#[test]
fn finish_stamps_the_document_with_the_clock() {
    let mut ledger = JobLedger::new();
    let mut store = ScoreStore::new();
    let id = ledger.enqueue_new("did:plc:alice", false);
    let claimed = ledger.pop_job().unwrap();
    assert_eq!(claimed.0, id);
    let mut run = Pipeline::start(claimed.1, "alice.example".to_string(), claimed.0);
    drive(&mut run, Ok(vec![post("c0", Some("you idiot!"))]), &mut |_, _| {
        answer("inaccurate", &[])
    });
    let stamp = run.finish(&mut store, &mut ledger);
    assert!(stamp > 1_600_000_000_000);
    let doc = store.get_user_scores("did:plc:alice");
    assert_eq!(doc.updated_at, stamp);
    assert_eq!(doc.accuracy, ScoreFacet::from_counts(0, 1));
    assert_eq!(doc.civility, ScoreFacet::from_counts(0, 1));
    assert_eq!(ledger.get_job_status(&id), Some(JobState::Done));
}

#[test]
fn a_later_run_replaces_the_document() {
    let mut ledger = JobLedger::new();
    let mut store = ScoreStore::new();
    let mut first = started();
    drive(&mut first, Ok(vec![post("c0", Some("a friendly hello"))]), &mut |_, _| {
        answer("contested", &[])
    });
    first.finish_at(1, &mut store, &mut ledger);
    assert_eq!(store.get_user_scores("did:plc:alice").evidence.len(), 1);
    let mut second = started();
    drive(&mut second, Ok(Vec::new()), &mut |_, _| answer("neutral", &[]));
    second.finish_at(2, &mut store, &mut ledger);
    let doc = store.get_user_scores("did:plc:alice");
    assert_eq!(doc.updated_at, 2);
    assert!(doc.evidence.is_empty());
    assert_eq!(doc.civility, ScoreFacet::from_counts(0, 0));
}

#[test]
fn labels_are_read_exactly() {
    let read = |label: &str| GeminiResponse {
        classification: label.to_string(),
        evidence_refs: Vec::new(),
    }
    .verdict();
    assert_eq!(read("accurate"), Verdict::Accurate);
    assert_eq!(read("inaccurate"), Verdict::Inaccurate);
    assert_eq!(read("contested"), Verdict::Contested);
    assert_eq!(read("neutral"), Verdict::Neutral);
    assert_eq!(read("Accurate"), Verdict::Neutral);
    assert_eq!(read(""), Verdict::Neutral);
    let neutral = GeminiResponse::neutral();
    assert_eq!(neutral.classification, "neutral");
    assert!(neutral.evidence_refs.is_empty());
}

#[test]
fn prompt_quotes_the_text() {
    let request = GeminiRequest {
        text: "He said \"taxes fell by 5%\" today".to_string(),
        domain: "politics".to_string(),
    };
    let expected = format!(
        "You are a factuality and content classifier for social posts. Classify the following post into exactly one of: accurate, inaccurate, contested, neutral.\n\nRules:\n- If the post makes a factual claim and you can infer it is likely correct, output \"accurate\".\n- If it makes a factual claim that is likely false, output \"inaccurate\".\n- If it is a factual claim but contested/uncertain, output \"contested\".\n- If it is not a factual claim, output \"neutral\".\nReturn a single-line JSON: {{\"classification\":\"...\", \"evidenceRefs\":[\"url\", ...]}}. Provide 0-2 reputable URLs when available; otherwise an empty list.\n\nPost (domain={}):\n\"{}\"",
        "politics", "He said 'taxes fell by 5%' today"
    );
    assert_eq!(request.prompt(), expected);
}

#[test]
fn prompt_of_empty_text() {
    let request = GeminiRequest { text: String::new(), domain: "health".to_string() };
    assert!(request.prompt().ends_with("Post (domain=health):\n\"\""));
    assert!(request.prompt().starts_with("You are a factuality"));
}

#[test]
fn a_run_takes_at_most_two_fetches_and_one_answer_per_post() {
    let mut run = started();
    let feed: Vec<FeedPost> = (0..130).map(|i| post(&format!("c{}", i), Some(CLAIM))).collect();
    let mut feed = Some(feed);
    let mut events = 0;
    loop {
        let event = match run.action() {
            Action::FetchPosts { .. } => Event::Posts(Ok(feed.take().unwrap_or_default())),
            Action::Classify(_) => Event::Classified(answer("accurate", &[])),
            Action::Finish => break,
        };
        run.deliver(event);
        events += 1;
        assert!(events <= 102);
    }
    assert_eq!(events, 26);
    assert_eq!(run.stage(), Stage::Scored);
}

#[test]
fn a_run_on_failing_collaborators_still_ends() {
    let mut run = started();
    let mut events = 0;
    loop {
        let event = match run.action() {
            Action::FetchPosts { .. } => Event::Posts(Err(TrustError::UpstreamUnavailable)),
            Action::Classify(_) => Event::Classified(Err(TrustError::UpstreamUnavailable)),
            Action::Finish => break,
        };
        run.deliver(event);
        events += 1;
    }
    assert_eq!(events, 2);
}

#[test]
fn scores_now_stamps_the_document_with_the_clock() {
    let mut run = started();
    drive(&mut run, Ok(vec![post("c0", Some("a friendly hello"))]), &mut |_, _| {
        answer("accurate", &[])
    });
    let doc = run.scores_now();
    assert!(doc.updated_at > 1_600_000_000_000);
    assert_eq!(doc.did, "did:plc:alice");
    assert_eq!(doc.handle, "alice.example");
    assert_eq!(doc.accuracy, ScoreFacet::from_counts(1, 0));
    assert_eq!(doc.civility, ScoreFacet::from_counts(1, 0));
    assert!(doc.expertise.is_empty());
    assert_eq!(doc.bot_prob, 120_000_000_000);
}
