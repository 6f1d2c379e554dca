use reach_monitor::ident::prefixed_hex;
use reach_monitor::poller::{BlockRange, Poller};
use reach_monitor::records::{stamp, FailureKind, FailureReport, NewOperatorEndpointError, NewReachabilityError};
use reach_monitor::reply::{classify_discovery_body, classify_refresh_body};
use reach_monitor::resolver::{discovery_url, DiscoveryReply, Resolution, ResolveStep, RESOLVE_MAX_ATTEMPTS, RESOLVE_RETRY_SECS};
use reach_monitor::scope::{
    dispatch, in_scope, is_allowed_image, task_for, JobEvent, JobVerificationTask, Metadata, AMD64_IMAGE_URL,
    ARM64_IMAGE_URL,
};
use reach_monitor::worker::{
    cross_check_failure, refresh_url, Action, CrossCheckOutcome, Event, Stage, Worker, STARTUP_DELAY_SECS,
};

fn metadata(url: Option<&str>, region: Option<&str>) -> Metadata {
    Metadata { url: url.map(|u| u.to_string()), instance: None, region: region.map(|r| r.to_string()) }
}

fn event(job: Vec<u8>, url: Option<&str>) -> JobEvent {
    JobEvent {
        job,
        owner: vec![0x11; 20],
        operator: vec![0xab; 20],
        control_plane_url: Some("http://cp.example:8080".to_string()),
        metadata: Some(metadata(url, Some("us-east"))),
    }
}

fn task() -> JobVerificationTask {
    task_for(&event(vec![0xab, 0xc1, 0x23], Some(AMD64_IMAGE_URL))).unwrap()
}

/// Drives a worker through a whole verification with the given outside results,
/// collecting its reports.
fn drive(resolved: Result<&str, &str>, probe: bool, outcome: CrossCheckOutcome) -> (Worker, Vec<FailureReport>) {
    let mut w = Worker::new(task());
    let mut reports = Vec::new();
    let (a, r) = w.step(Event::Begin);
    assert!(matches!(a, Action::Sleep { secs } if secs == STARTUP_DELAY_SECS));
    reports.extend(r);
    let (a, r) = w.step(Event::StartupElapsed);
    assert!(matches!(a, Action::ResolveAddress));
    reports.extend(r);
    let (a, r) = w.step(Event::Resolved(resolved.map(|s| s.to_string()).map_err(|s| s.to_string())));
    reports.extend(r);
    if let Action::Probe { address } = a {
        let (a, r) = w.step(Event::Probed(probe));
        assert_eq!(address, w.address.clone().unwrap());
        reports.extend(r);
        assert!(matches!(a, Action::CrossCheck { .. }));
        let (a, r) = w.step(Event::CrossChecked(outcome));
        assert!(matches!(a, Action::Finish));
        reports.extend(r);
    } else {
        assert!(matches!(a, Action::Finish));
    }
    (w, reports)
}

#[test]
fn job_id_renders_as_prefixed_lowercase_hex() {
    assert_eq!(prefixed_hex(&[0xab, 0xc1, 0x23]), "0xabc123");
    assert_eq!(prefixed_hex(&[0x00, 0x0f, 0xf0]), "0x000ff0");
    assert_eq!(prefixed_hex(&[]), "0x");
}

#[test]
fn ticks_without_failures_cover_blocks_exactly() {
    let mut p = Poller::new(100);
    let heads = [105u64, 105, 109, 110];
    let mut ranges = Vec::new();
    for h in heads {
        if let Some(r) = p.plan(Some(h)) {
            ranges.push(r);
            p.commit(r, true);
        }
        assert_eq!(p.watermark, h);
    }
    assert_eq!(
        ranges,
        vec![BlockRange { from: 101, to: 105 }, BlockRange { from: 106, to: 109 }, BlockRange { from: 110, to: 110 }]
    );
}

#[test]
fn head_at_or_below_watermark_queries_nothing() {
    let p = Poller::new(50);
    assert_eq!(p.plan(Some(50)), None);
    assert_eq!(p.plan(Some(49)), None);
    assert_eq!(p.plan(Some(51)), Some(BlockRange { from: 51, to: 51 }));
}

#[test]
fn failed_tick_keeps_watermark_and_requeries() {
    let mut p = Poller::new(10);
    assert_eq!(p.plan(None), None);
    assert_eq!(p.watermark, 10);
    let r = p.plan(Some(20)).unwrap();
    p.commit(r, false);
    assert_eq!(p.watermark, 10);
    assert_eq!(p.plan(Some(20)), Some(r));
    assert_eq!(p.plan(Some(25)), Some(BlockRange { from: 11, to: 25 }));
}

#[test]
fn commit_of_a_stale_range_is_ignored() {
    let mut p = Poller::new(10);
    p.commit(BlockRange { from: 5, to: 30 }, true);
    assert_eq!(p.watermark, 10);
    p.commit(BlockRange { from: 11, to: 30 }, true);
    assert_eq!(p.watermark, 30);
}

#[test]
fn largest_head_is_reached() {
    let mut p = Poller::new(u64::MAX - 1);
    let r = p.plan(Some(u64::MAX)).unwrap();
    assert_eq!(r, BlockRange { from: u64::MAX, to: u64::MAX });
    p.commit(r, true);
    assert_eq!(p.watermark, u64::MAX);
    assert_eq!(p.plan(Some(u64::MAX)), None);
}

#[test]
fn only_approved_images_are_in_scope() {
    assert!(is_allowed_image(&AMD64_IMAGE_URL.to_string()));
    assert!(is_allowed_image(&ARM64_IMAGE_URL.to_string()));
    assert!(!is_allowed_image(&"https://example.com/other.eif".to_string()));
    assert!(!is_allowed_image(&format!("{}/", AMD64_IMAGE_URL)));
    assert!(in_scope(&metadata(Some(ARM64_IMAGE_URL), None)));
    assert!(!in_scope(&metadata(None, Some("us-east"))));
}

#[test]
fn out_of_scope_events_spawn_no_worker() {
    assert!(task_for(&event(vec![1], None)).is_none());
    assert!(task_for(&event(vec![1], Some("https://example.com/other.eif"))).is_none());
    let mut unparsed = event(vec![1], Some(AMD64_IMAGE_URL));
    unparsed.metadata = None;
    assert!(task_for(&unparsed).is_none());
    let mut no_cp = event(vec![1], Some(AMD64_IMAGE_URL));
    no_cp.control_plane_url = None;
    assert!(task_for(&no_cp).is_none());
}

#[test]
fn dispatch_keeps_in_scope_events_in_order() {
    let events = vec![
        event(vec![0x01], Some(AMD64_IMAGE_URL)),
        event(vec![0x02], None),
        event(vec![0x03], Some(ARM64_IMAGE_URL)),
        event(vec![0x04], Some("https://example.com/x.eif")),
    ];
    let tasks = dispatch(&events);
    let jobs: Vec<&str> = tasks.iter().map(|t| t.job.as_str()).collect();
    assert_eq!(jobs, vec!["0x01", "0x03"]);
    assert!(dispatch(&Vec::new()).is_empty());
}

#[test]
fn task_carries_job_operator_url_and_region() {
    let t = task();
    assert_eq!(t.job, "0xabc123");
    assert_eq!(t.operator, format!("0x{}", "ab".repeat(20)));
    assert_eq!(t.control_plane_url, "http://cp.example:8080");
    assert_eq!(t.region, "us-east");
    let mut e = event(vec![0x05], Some(AMD64_IMAGE_URL));
    e.metadata = Some(metadata(Some(AMD64_IMAGE_URL), None));
    assert_eq!(task_for(&e).unwrap().region, "");
}

#[test]
fn resolution_failure_records_unknown_address_once() {
    let (w, reports) = drive(Err("timed out"), true, CrossCheckOutcome::Replied { has_address: true });
    assert_eq!(w.stage, Stage::Done);
    assert_eq!(reports.len(), 1);
    assert_eq!(reports[0].kind, FailureKind::Reachability);
    assert_eq!(reports[0].ip, "unknown");
    assert_eq!(reports[0].job, "0xabc123");
    assert_eq!(reports[0].error, "Failed to get IP address: timed out");
}

#[test]
fn probe_and_cross_check_failures_record_twice() {
    let (w, reports) = drive(Ok("3.4.5.6"), false, CrossCheckOutcome::Transport("connection refused".to_string()));
    assert_eq!(w.stage, Stage::Done);
    assert_eq!(reports.len(), 2);
    assert_eq!(reports[0].kind, FailureKind::Reachability);
    assert_eq!(reports[0].ip, "3.4.5.6");
    assert_eq!(reports[0].error, "Instance reachability test failed");
    assert_eq!(reports[1].kind, FailureKind::Endpoint);
    assert_eq!(reports[1].ip, "3.4.5.6");
    assert_eq!(reports[1].error, "Failed to call refresh API: connection refused");
}

#[test]
fn passing_job_records_nothing() {
    let (w, reports) = drive(Ok("3.4.5.6"), true, CrossCheckOutcome::Replied { has_address: true });
    assert_eq!(w.stage, Stage::Done);
    assert!(reports.is_empty());
}

#[test]
fn scenario_reachable_job_with_address_reaches_done() {
    let outcome = classify_refresh_body(r#"{"ip":"3.4.5.6"}"#);
    let (w, reports) = drive(Ok("3.4.5.6"), true, outcome);
    assert_eq!(w.stage, Stage::Done);
    assert_eq!(w.address.as_deref(), Some("3.4.5.6"));
    assert_eq!(w.task.job, "0xabc123");
    assert!(reports.is_empty());
}

#[test]
fn scenario_empty_cross_check_response_records_endpoint_failure() {
    let outcome = classify_refresh_body("{}");
    let (w, reports) = drive(Ok("3.4.5.6"), true, outcome);
    assert_eq!(w.stage, Stage::Done);
    assert_eq!(reports.len(), 1);
    assert_eq!(reports[0].kind, FailureKind::Endpoint);
    assert_eq!(reports[0].operator, format!("0x{}", "ab".repeat(20)));
    assert_eq!(reports[0].ip, "3.4.5.6");
    assert_eq!(reports[0].error, "IP key NOT found in refresh API response");
}

#[test]
fn cross_check_failure_messages_name_the_cause() {
    assert_eq!(
        cross_check_failure(&CrossCheckOutcome::Undecodable("expected value".to_string())),
        Some("Failed to parse refresh API response: expected value".to_string())
    );
    assert_eq!(
        cross_check_failure(&CrossCheckOutcome::Transport("dns".to_string())),
        Some("Failed to call refresh API: dns".to_string())
    );
    assert_eq!(
        cross_check_failure(&CrossCheckOutcome::Replied { has_address: false }),
        Some("IP key NOT found in refresh API response".to_string())
    );
    assert_eq!(cross_check_failure(&CrossCheckOutcome::Replied { has_address: true }), None);
}

#[test]
fn refresh_url_appends_job() {
    assert_eq!(
        refresh_url(&"0xabc123".to_string()),
        "https://sk.arb1.marlin.org/operators/jobs/refresh/ArbOne/0xabc123"
    );
}

#[test]
fn events_out_of_order_are_ignored() {
    let mut w = Worker::new(task());
    let (a, r) = w.step(Event::Probed(false));
    assert!(matches!(a, Action::Ignore));
    assert!(r.is_none());
    assert_eq!(w.stage, Stage::Created);
    w.step(Event::Begin);
    w.step(Event::StartupElapsed);
    w.step(Event::Resolved(Err("x".to_string())));
    let (a, r) = w.step(Event::CrossChecked(CrossCheckOutcome::Replied { has_address: false }));
    assert!(matches!(a, Action::Ignore));
    assert!(r.is_none());
    assert_eq!(w.stage, Stage::Done);
}

#[test]
fn resolution_retries_then_gives_up() {
    let mut res = Resolution::new();
    for _ in 0..RESOLVE_MAX_ATTEMPTS - 1 {
        assert!(matches!(res.after_reply(DiscoveryReply::NotYet), ResolveStep::RetryAfter { secs } if secs == RESOLVE_RETRY_SECS));
    }
    match res.after_reply(DiscoveryReply::Failed("503".to_string())) {
        ResolveStep::GiveUp(m) => assert_eq!(m, "503"),
        other => panic!("expected to give up, got {:?}", other),
    }
    assert_eq!(res.attempts, RESOLVE_MAX_ATTEMPTS);
}

#[test]
fn resolution_finds_non_empty_address() {
    let mut res = Resolution::new();
    assert!(matches!(res.after_reply(DiscoveryReply::Address(String::new())), ResolveStep::RetryAfter { .. }));
    match res.after_reply(DiscoveryReply::Address("3.4.5.6".to_string())) {
        ResolveStep::Found(a) => assert_eq!(a, "3.4.5.6"),
        other => panic!("expected an address, got {:?}", other),
    }
    assert_eq!(res.attempts, 2);
}

#[test]
fn stamp_clamps_clock_readings() {
    assert_eq!(stamp(Some(1_700_000_000)), 1_700_000_000);
    assert_eq!(stamp(Some(u64::MAX)), i64::MAX);
    assert_eq!(stamp(None), 0);
}

#[test]
fn new_records_keep_fields_and_stamp_now() {
    let r = NewReachabilityError::new("0x01".to_string(), "0x02".to_string(), "unknown".to_string(), "e".to_string());
    assert_eq!((r.job.as_str(), r.operator.as_str(), r.ip.as_str(), r.error.as_str()), ("0x01", "0x02", "unknown", "e"));
    assert!(r.timestamp > 1_600_000_000);
    let e = NewOperatorEndpointError::new("0x01".to_string(), "0x02".to_string(), "1.2.3.4".to_string(), "m".to_string());
    assert_eq!(e.ip, "1.2.3.4");
    assert!(e.timestamp > 1_600_000_000);
}

#[test]
fn refresh_body_is_classified_by_its_ip_member() {
    assert!(matches!(classify_refresh_body(r#"{"ip":"3.4.5.6"}"#), CrossCheckOutcome::Replied { has_address: true }));
    assert!(matches!(classify_refresh_body(r#"{"ip":null}"#), CrossCheckOutcome::Replied { has_address: true }));
    assert!(matches!(classify_refresh_body(r#"{"addr":"3.4.5.6"}"#), CrossCheckOutcome::Replied { has_address: false }));
    assert!(matches!(classify_refresh_body("[1,2]"), CrossCheckOutcome::Replied { has_address: false }));
    assert!(matches!(classify_refresh_body("<html>"), CrossCheckOutcome::Undecodable(_)));
    assert!(matches!(classify_refresh_body(""), CrossCheckOutcome::Undecodable(_)));
}

#[test]
fn undecodable_refresh_body_records_endpoint_failure() {
    let (_, reports) = drive(Ok("3.4.5.6"), true, classify_refresh_body("not json"));
    assert_eq!(reports.len(), 1);
    assert_eq!(reports[0].kind, FailureKind::Endpoint);
    assert!(reports[0].error.starts_with("Failed to parse refresh API response: "));
    assert!(reports[0].error.len() > "Failed to parse refresh API response: ".len());
}

#[test]
fn discovery_body_gives_address_or_waits() {
    match classify_discovery_body(r#"{"ip":"3.4.5.6","id":"0xabc123"}"#) {
        DiscoveryReply::Address(a) => assert_eq!(a, "3.4.5.6"),
        other => panic!("expected an address, got {:?}", other),
    }
    assert!(matches!(classify_discovery_body(r#"{"ip":7}"#), DiscoveryReply::NotYet));
    assert!(matches!(classify_discovery_body("{}"), DiscoveryReply::NotYet));
    assert!(matches!(classify_discovery_body("{"), DiscoveryReply::Failed(_)));
}

#[test]
fn discovery_url_names_job_and_region() {
    assert_eq!(discovery_url(&task()), "http://cp.example:8080/ip?id=0xabc123&region=us-east");
}
