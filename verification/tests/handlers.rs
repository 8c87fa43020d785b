use ncube::data::ConfigSetting;
use ncube::host::ActorError;
use ncube::handlers::config::{
    bootstrap_inserts, insert_reply_outcome, endpoint_value, require_bootstrapped, require_not_bootstrapped,
    secret_key_value,
};
use ncube::handlers::investigation::{
    start, step, InvestigationRecord, SegmentRecord, VerifySegmentAction, VerifySegmentEvent,
    VerifySegmentRequest, VerifySegmentState,
};
use ncube::handlers::HandlerError;

#[test]
fn config_needs_bootstrapping() {
    assert!(require_bootstrapped(true).is_ok());
    match require_bootstrapped(false) {
        Err(HandlerError::Invalid(m)) => assert_eq!(m, "Ncube requires initial bootstrapping."),
        other => panic!("unexpected {:?}", other),
    }
}

#[test]
fn bootstrap_only_once() {
    assert!(require_not_bootstrapped(false).is_ok());
    match require_not_bootstrapped(true) {
        Err(HandlerError::NotAllowed(m)) => assert_eq!(m, "Ncube already bootstrapped"),
        other => panic!("unexpected {:?}", other),
    }
}

#[test]
fn exactly_one_of_bootstrap_and_access_is_allowed() {
    for b in [false, true] {
        assert_ne!(require_bootstrapped(b).is_ok(), require_not_bootstrapped(b).is_ok());
    }
}

#[test]
fn bootstrap_writes_settings_then_secret_key() {
    let settings = vec![
        ("workspace_root".to_string(), "~/Ncube".to_string()),
        ("secret_key".to_string(), "mine".to_string()),
        ("name".to_string(), "Alice".to_string()),
    ];
    let inserts = bootstrap_inserts(settings, "generated".to_string());
    let pairs: Vec<(String, String)> = inserts.into_iter().map(|i| (i.name, i.value)).collect();
    assert_eq!(
        pairs,
        vec![
            ("workspace_root".to_string(), "~/Ncube".to_string()),
            ("secret_key".to_string(), "mine".to_string()),
            ("name".to_string(), "Alice".to_string()),
            ("secret_key".to_string(), "generated".to_string()),
        ]
    );
}

#[test]
fn bootstrap_without_settings_writes_secret_key() {
    let inserts = bootstrap_inserts(vec![], "k".to_string());
    assert_eq!(inserts.len(), 1);
    assert_eq!(inserts[0].name, "secret_key");
    assert_eq!(inserts[0].value, "k");
}

#[test]
fn setting_values() {
    let some = ConfigSetting { name: "secret_key".to_string(), value: Some("s3".to_string()) };
    assert_eq!(secret_key_value(some).unwrap(), "s3");
    let none = ConfigSetting { name: "secret_key".to_string(), value: None };
    match secret_key_value(none) {
        Err(HandlerError::NotFound(m)) => assert_eq!(m, "no secret key"),
        other => panic!("unexpected {:?}", other),
    }
    let none = ConfigSetting { name: "endpoint".to_string(), value: None };
    match endpoint_value(none) {
        Err(HandlerError::NotFound(m)) => assert_eq!(m, "no endpoint"),
        other => panic!("unexpected {:?}", other),
    }
    let some = ConfigSetting { name: "endpoint".to_string(), value: Some("https://x".to_string()) };
    assert_eq!(endpoint_value(some).unwrap(), "https://x");
}

fn request() -> VerifySegmentRequest {
    VerifySegmentRequest {
        workspace: "syrian-archive".to_string(),
        investigation: "inv-1".to_string(),
        segment: "seg-1".to_string(),
    }
}

type Event = VerifySegmentEvent<String, Vec<i32>>;
type Action = VerifySegmentAction<String, Vec<i32>>;

#[test]
fn verify_segment_complete_flow() {
    let req = request();
    let (state, action): (VerifySegmentState<String>, Action) = start(&req);
    assert!(matches!(action, VerifySegmentAction::EnsureWorkspace(ref w) if w == "syrian-archive"));
    let (state, action) = step(&req, state, Event::WorkspaceReady);
    assert!(matches!(action, VerifySegmentAction::ShowInvestigation(ref i) if i == "inv-1"));
    let investigation = InvestigationRecord { id: 7, methodology: "tutorial".to_string() };
    let (state, action) = step(&req, state, Event::InvestigationShown(Some(investigation)));
    assert!(matches!(action, VerifySegmentAction::ShowMethodology(ref m) if m == "tutorial"));
    let (state, action) = step(&req, state, Event::MethodologyShown(Some("incoming".to_string())));
    assert!(matches!(action, VerifySegmentAction::ShowSegment(ref s) if s == "seg-1"));
    let segment = SegmentRecord { id: 3, query: "aleppo".to_string() };
    let (state, action) = step(&req, state, Event::SegmentShown(Some(segment)));
    assert!(matches!(action, VerifySegmentAction::ListUnits(ref q) if q == "aleppo"));
    let (state, action) = step(&req, state, Event::UnitsListed(vec![1, 2]));
    match action {
        VerifySegmentAction::VerifySegment { investigation_id, segment_id, units, initial_state } => {
            assert_eq!(investigation_id, 7);
            assert_eq!(segment_id, 3);
            assert_eq!(units, vec![1, 2]);
            assert_eq!(initial_state, "incoming");
        }
        other => panic!("unexpected {:?}", other),
    }
    let (state, action) = step(&req, state, Event::SegmentVerified);
    assert!(matches!(state, VerifySegmentState::Done));
    assert!(matches!(action, VerifySegmentAction::Finish(Ok(()))));
}

fn expect_not_found(action: Action, expected: &str) {
    match action {
        VerifySegmentAction::Finish(Err(HandlerError::NotFound(m))) => assert_eq!(m, expected),
        other => panic!("unexpected {:?}", other),
    }
}

#[test]
fn verify_segment_missing_investigation() {
    let req = request();
    let (state, _): (VerifySegmentState<String>, Action) = start(&req);
    let (state, _) = step(&req, state, Event::WorkspaceReady);
    let (state, action) = step(&req, state, Event::InvestigationShown(None));
    assert!(matches!(state, VerifySegmentState::Done));
    expect_not_found(action, "Investigation 'inv-1' could not be found.");
}

#[test]
fn verify_segment_missing_methodology_and_segment() {
    let req = request();
    let (state, _): (VerifySegmentState<String>, Action) = start(&req);
    let (state, _) = step(&req, state, Event::WorkspaceReady);
    let investigation = InvestigationRecord { id: 7, methodology: "tutorial".to_string() };
    let (after_investigation, _) = step(&req, state, Event::InvestigationShown(Some(investigation)));
    let (state, action) = step(&req, after_investigation, Event::MethodologyShown(None));
    assert!(matches!(state, VerifySegmentState::Done));
    expect_not_found(action, "Methodology 'tutorial' could not be found.");

    let (state, _): (VerifySegmentState<String>, Action) = start(&req);
    let (state, _) = step(&req, state, Event::WorkspaceReady);
    let investigation = InvestigationRecord { id: 7, methodology: "tutorial".to_string() };
    let (state, _) = step(&req, state, Event::InvestigationShown(Some(investigation)));
    let (state, _) = step(&req, state, Event::MethodologyShown(Some("s".to_string())));
    let (state, action) = step(&req, state, Event::SegmentShown(None));
    assert!(matches!(state, VerifySegmentState::Done));
    expect_not_found(action, "Segment 'seg-1' could not be found.");
}

#[test]
fn verify_segment_store_failure_ends_flow() {
    let req = request();
    let (state, _): (VerifySegmentState<String>, Action) = start(&req);
    let failure = HandlerError::NotFound("Workspace 'x' could not be found.".to_string());
    let (state, action) = step(&req, state, Event::Failed(failure));
    assert!(matches!(state, VerifySegmentState::Done));
    expect_not_found(action, "Workspace 'x' could not be found.");
}

#[test]
fn failed_insert_does_not_fail_the_handler() {
    assert!(insert_reply_outcome(Ok(())).is_ok());
    assert!(insert_reply_outcome(Err(ActorError::Store("disk full".to_string()))).is_ok());
}
