use landscape_deploy::config::{first_missing_var, missing_var_message, required_env_vars};
use landscape_deploy::content_type::{content_type_for, content_type_from_guess};
use landscape_deploy::decision::{decide, decide_entry, needs_local_time, Decision};
use landscape_deploy::key::{is_entry, is_hidden, is_logo, object_key};
use landscape_deploy::phase::{is_finished, next_phase, Event, Phase};
use landscape_deploy::plan::{plan_entry, plan_file, UploadRequest};
use landscape_deploy::report::{
    collect_failures, pass_event, pass_result, render_failures, FileError, FileOutcome,
};
use landscape_deploy::snapshot::{ListedObject, ListedPage, ListingStep, Snapshot};
use landscape_deploy::timestamp::Timestamp;

fn ts(secs: i64) -> Timestamp {
    Timestamp::new(secs, 0)
}

fn snapshot_of(entries: &[(&str, Timestamp)]) -> Snapshot {
    let mut s = Snapshot::new();
    for (k, t) in entries {
        s.insert(k.to_string(), *t);
    }
    s
}

fn upload_of(r: Result<Option<UploadRequest>, FileError>) -> UploadRequest {
    match r {
        Ok(Some(req)) => req,
        _ => panic!("expected an upload"),
    }
}

#[test]
fn scenario_fresh_site_uploads_assets_then_entry() {
    let snapshot = Snapshot::new();
    let t = ts(1_700_000_000);
    assert!(matches!(plan_file("index.html", &snapshot, t), Ok(None)));
    let req = upload_of(plan_file("app.js", &snapshot, t));
    assert_eq!(req.key, "app.js");
    assert_eq!(req.content_type, "text/javascript");

    let outcomes = vec![FileOutcome::Skipped(Decision::SkipEntryDocument), FileOutcome::Uploaded];
    assert!(pass_result(&outcomes).is_ok());
    let failures = collect_failures(&outcomes);
    let mut phase = next_phase(Phase::Start, Event::ConfigChecked);
    phase = next_phase(phase, Event::ListingSucceeded);
    assert_eq!(phase, Phase::Uploading);
    phase = next_phase(phase, pass_event(&failures));
    assert_eq!(phase, Phase::PublishingEntry);

    let entry = plan_entry(&snapshot, t).expect("entry is sent");
    assert_eq!(entry.key, "index.html");
    assert_eq!(entry.content_type, "text/html");
    phase = next_phase(phase, Event::EntryPublished);
    assert_eq!(phase, Phase::Done);
}

#[test]
fn scenario_existing_logo_is_deduplicated() {
    let snapshot = snapshot_of(&[("logos/abc123.svg", ts(10))]);
    assert_eq!(decide("logos/abc123.svg", &snapshot, ts(500)), Decision::SkipDeduplicated);
    assert!(matches!(plan_file("logos/abc123.svg", &snapshot, ts(500)), Ok(None)));
}

#[test]
fn scenario_older_remote_copy_is_uploaded() {
    let snapshot = snapshot_of(&[("style.css", ts(100))]);
    assert_eq!(decide("style.css", &snapshot, ts(200)), Decision::Upload);
    let req = upload_of(plan_file("style.css", &snapshot, ts(200)));
    assert_eq!(req.content_type, "text/css");
}

#[test]
fn scenario_newer_or_equal_remote_copy_is_up_to_date() {
    let snapshot = snapshot_of(&[("style.css", ts(200))]);
    assert_eq!(decide("style.css", &snapshot, ts(100)), Decision::SkipUpToDate);
    assert_eq!(decide("style.css", &snapshot, ts(200)), Decision::SkipUpToDate);
    assert_eq!(
        decide("style.css", &snapshot, Timestamp::new(200, 1)),
        Decision::Upload
    );
}

#[test]
fn scenario_one_failure_among_ten_aborts_before_entry() {
    let mut outcomes = Vec::new();
    for i in 0..10 {
        if i == 4 {
            outcomes.push(FileOutcome::Failed(FileError::new(
                "js/broken.js".to_string(),
                "connection reset".to_string(),
            )));
        } else {
            outcomes.push(FileOutcome::Uploaded);
        }
    }
    let uploaded = outcomes.iter().filter(|o| matches!(o, FileOutcome::Uploaded)).count();
    assert_eq!(uploaded, 9);
    let errors = match pass_result(&outcomes) {
        Err(errors) => errors,
        Ok(()) => panic!("expected a failure"),
    };
    assert_eq!(errors.len(), 1);
    assert_eq!(errors[0].key, "js/broken.js");
    assert_eq!(render_failures(&errors), "- js/broken.js: connection reset\n");
    let phase = next_phase(Phase::Uploading, pass_event(&errors));
    assert_eq!(phase, Phase::Aborted);
    assert_eq!(next_phase(phase, Event::EntryPublished), Phase::Aborted);
}

#[test]
fn absent_key_is_uploaded() {
    let snapshot = snapshot_of(&[("other.js", ts(1))]);
    assert_eq!(decide("data/full.json", &snapshot, ts(1)), Decision::Upload);
    assert_eq!(decide("logos/new.svg", &snapshot, ts(1)), Decision::Upload);
}

#[test]
fn logo_is_skipped_whatever_the_times() {
    let snapshot = snapshot_of(&[("logos/a.svg", ts(1))]);
    assert_eq!(decide("logos/a.svg", &snapshot, ts(1_000_000)), Decision::SkipDeduplicated);
    assert_eq!(decide("logos/a.svg", &snapshot, ts(0)), Decision::SkipDeduplicated);
    assert!(!needs_local_time("logos/a.svg", &snapshot));
}

#[test]
fn stale_check_compares_nanoseconds() {
    let snapshot = snapshot_of(&[("a.css", Timestamp::new(-1, 999_999_999))]);
    assert_eq!(decide("a.css", &snapshot, Timestamp::new(0, 0)), Decision::Upload);
    assert_eq!(decide("a.css", &snapshot, Timestamp::new(-1, 999_999_999)), Decision::SkipUpToDate);
    assert!(needs_local_time("a.css", &snapshot));
}

#[test]
fn hidden_files_are_skipped() {
    let empty = Snapshot::new();
    let full = snapshot_of(&[(".env", ts(0)), ("assets/.keep", ts(0))]);
    for s in [&empty, &full] {
        assert_eq!(decide(".env", s, ts(5)), Decision::SkipHidden);
        assert_eq!(decide("assets/.keep", s, ts(5)), Decision::SkipHidden);
        assert!(!needs_local_time(".env", s));
    }
    assert!(is_hidden(".DS_Store"));
    assert!(is_hidden("a/b/.x"));
    assert!(!is_hidden(".well/visible.txt"));
    assert!(!is_hidden("plain.txt"));
    assert!(!is_hidden(""));
}

#[test]
fn entry_document_is_left_to_the_publisher() {
    let snapshot = snapshot_of(&[("index.html", ts(1))]);
    assert_eq!(decide("index.html", &snapshot, ts(9)), Decision::SkipEntryDocument);
    assert_eq!(decide("index.html", &Snapshot::new(), ts(9)), Decision::SkipEntryDocument);
    assert!(is_entry("index.html"));
    assert!(!is_entry("sub/index.html"));
    assert_eq!(decide("sub/index.html", &snapshot, ts(9)), Decision::Upload);
}

#[test]
fn entry_document_follows_staleness_only() {
    let fresh = snapshot_of(&[("index.html", ts(50))]);
    assert_eq!(decide_entry(&fresh, ts(50)), Decision::SkipUpToDate);
    assert!(plan_entry(&fresh, ts(40)).is_none());
    assert_eq!(decide_entry(&fresh, ts(51)), Decision::Upload);
    assert_eq!(decide_entry(&Snapshot::new(), ts(51)), Decision::Upload);
}

#[test]
fn second_run_sends_nothing() {
    let files = [("index.html", ts(10)), ("app.js", ts(20)), ("logos/x.svg", ts(30)), (".hidden", ts(5))];
    let mut remote = snapshot_of(&[("app.js", ts(25))]);
    let first = remote_copy(&remote);
    let upload_time = ts(100);
    for (k, t) in files.iter() {
        let sends = if is_entry(k) {
            decide_entry(&first, *t) == Decision::Upload
        } else {
            decide(k, &first, *t) == Decision::Upload
        };
        if sends {
            remote.insert(k.to_string(), upload_time);
        }
    }
    for (k, t) in files.iter() {
        if is_entry(k) {
            assert_eq!(decide_entry(&remote, *t), Decision::SkipUpToDate);
        } else {
            assert_ne!(decide(k, &remote, *t), Decision::Upload);
        }
    }
}

fn remote_copy(s: &Snapshot) -> Snapshot {
    let mut c = Snapshot::new();
    for k in ["app.js", "index.html", "logos/x.svg"] {
        if let Some(t) = s.get(k) {
            c.insert(k.to_string(), t);
        }
    }
    c
}

#[test]
fn failed_pass_never_reaches_entry_phase() {
    let mut phase = next_phase(Phase::Uploading, Event::UploadsFinished { failures: 3 });
    for e in [
        Event::UploadsFinished { failures: 0 },
        Event::ListingSucceeded,
        Event::EntryPublished,
        Event::ConfigChecked,
    ] {
        phase = next_phase(phase, e);
        assert_eq!(phase, Phase::Aborted);
    }
    assert!(is_finished(phase));
}

#[test]
fn phases_move_forward_only() {
    assert_eq!(next_phase(Phase::Start, Event::ConfigMissing), Phase::Aborted);
    assert_eq!(next_phase(Phase::Listing, Event::ListingFailed), Phase::Aborted);
    assert_eq!(next_phase(Phase::PublishingEntry, Event::EntryFailed), Phase::Aborted);
    assert_eq!(next_phase(Phase::Listing, Event::EntryPublished), Phase::Aborted);
    assert_eq!(next_phase(Phase::Done, Event::EntryFailed), Phase::Done);
    assert!(!is_finished(Phase::Uploading));
    assert_ne!(
        next_phase(Phase::Done, Event::UploadsFinished { failures: 0 }),
        Phase::PublishingEntry
    );
}

#[test]
fn keys_are_relative_to_the_root() {
    assert_eq!(object_key("site/app.js", "site"), "app.js");
    assert_eq!(object_key("site/logos/a.svg", "site/"), "logos/a.svg");
    assert_eq!(object_key("site//x/y.css", "site"), "x/y.css");
    assert_eq!(object_key("/abs/site/a", "/abs/site"), "a");
    assert_eq!(object_key("other/a", "site"), "other/a");
    assert_eq!(object_key("site", "site"), "");
}

#[test]
fn logo_prefix_is_exact() {
    assert!(is_logo("logos/a.svg"));
    assert!(!is_logo("logos.svg"));
    assert!(!is_logo("x/logos/a.svg"));
}

#[test]
fn listing_pages_build_the_snapshot() {
    let mut s = Snapshot::new();
    let page = ListedPage {
        objects: vec![
            ListedObject { key: Some("a.js".to_string()), last_modified: Some(ts(1)) },
            ListedObject { key: None, last_modified: Some(ts(2)) },
            ListedObject { key: Some("b.js".to_string()), last_modified: None },
            ListedObject { key: Some("a.js".to_string()), last_modified: Some(ts(3)) },
        ],
        is_truncated: true,
        next_token: Some("tok".to_string()),
    };
    match s.absorb_page(&page) {
        ListingStep::Fetch(Some(t)) => assert_eq!(t, "tok"),
        _ => panic!("expected another page"),
    }
    assert_eq!(s.len(), 1);
    assert_eq!(s.get("a.js"), Some(ts(3)));
    assert!(!s.contains_key("b.js"));
    let last = ListedPage {
        objects: vec![ListedObject { key: Some("c.css".to_string()), last_modified: Some(ts(4)) }],
        is_truncated: false,
        next_token: None,
    };
    assert!(matches!(s.absorb_page(&last), ListingStep::Complete));
    assert_eq!(s.len(), 2);
    assert_eq!(s.get("c.css"), Some(ts(4)));
}

#[test]
fn unknown_extension_fails_that_file() {
    match content_type_for("data/blob.unknownext") {
        Err(e) => {
            assert_eq!(e.key, "data/blob.unknownext");
            assert_eq!(e.cause, "cannot detect content type");
        }
        Ok(_) => panic!("expected no content type"),
    }
    assert!(plan_file("LICENSE", &Snapshot::new(), ts(1)).is_err());
    assert_eq!(content_type_for("logos/a.svg").ok().as_deref(), Some("image/svg+xml"));
    assert_eq!(
        content_type_from_guess("a.x", Some("text/plain".to_string())).ok().as_deref(),
        Some("text/plain")
    );
    assert!(content_type_from_guess("a.x", None).is_err());
}

#[test]
fn failures_are_all_reported_in_order() {
    let outcomes = vec![
        FileOutcome::Failed(FileError::new("a".to_string(), "x".to_string())),
        FileOutcome::Skipped(Decision::SkipHidden),
        FileOutcome::Failed(FileError::new("b".to_string(), "y".to_string())),
    ];
    let errors = collect_failures(&outcomes);
    assert_eq!(render_failures(&errors), "- a: x\n- b: y\n");
    assert_eq!(render_failures(&Vec::new()), "");
    assert_eq!(pass_event(&errors), Event::UploadsFinished { failures: 2 });
}

#[test]
fn environment_check_names_first_missing() {
    let names = required_env_vars();
    assert_eq!(names, vec!["AWS_REGION", "AWS_ACCESS_KEY_ID", "AWS_SECRET_ACCESS_KEY"]);
    let all = vec![Some("eu".to_string()), Some("id".to_string()), Some("k".to_string())];
    assert_eq!(first_missing_var(&all), None);
    let empty = vec![Some("eu".to_string()), Some(String::new()), None];
    assert_eq!(first_missing_var(&empty), Some(1));
    assert_eq!(
        missing_var_message("AWS_REGION"),
        "required environment variable AWS_REGION not provided"
    );
}

#[test]
fn timestamps_order_by_total_nanoseconds() {
    assert_eq!(Timestamp::new(2, 5).total_nanos(), 2_000_000_005);
    assert_eq!(Timestamp::new(-11, 123_456_789).total_nanos(), -10_876_543_211);
    assert!(Timestamp::new(1, 0).is_at_least(&Timestamp::new(0, 999_999_999)));
    assert!(Timestamp::new(3, 7).is_at_least(&Timestamp::new(3, 7)));
    assert!(!Timestamp::new(3, 6).is_at_least(&Timestamp::new(3, 7)));
    assert!(Timestamp::new(i64::MAX, 999_999_999).is_at_least(&Timestamp::new(i64::MIN, 0)));
}
