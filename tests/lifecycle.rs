use importer_core::config::{CommonImporter, ImporterConfiguration, ImporterKind, SourceSettings};
use importer_core::importer::{
    heartbeat_fresh, Importer, ImporterData, ImporterRow, Revisioned, RowError, State, HEARTBEAT_RATE,
};
use importer_core::lifecycle::{
    claim, complete_run, record_progress, refresh_heartbeat, release, should_run, update_guarded,
    ClaimError, ReportLog, RunOutcome, UpdateError,
};
use importer_core::progress::{into_progress_details, Progress};

const SECOND: i128 = 1_000_000_000;
const T0: i128 = 1_704_067_200 * SECOND;
const RATE: u128 = HEARTBEAT_RATE;

fn common(disabled: bool) -> CommonImporter {
    CommonImporter {
        disabled,
        period: 30 * SECOND as u128,
        description: Some("feed".into()),
        labels: vec![("source".into(), "nvd".into())],
    }
}

fn importer(disabled: bool, last_run: Option<i128>, heartbeat: Option<i128>) -> Importer {
    Importer {
        name: "cve".into(),
        heartbeat,
        data: ImporterData {
            configuration: ImporterConfiguration::Cve(SourceSettings {
                common: common(disabled),
                source: "https://example.com/cve".into(),
            }),
            state: State::Waiting,
            last_change: T0 - 100 * SECOND,
            last_success: None,
            last_run,
            last_error: None,
            progress: Progress::default(),
            continuation: None,
        },
    }
}

fn stored(imp: Importer, revision: u64) -> Revisioned<Importer> {
    Revisioned { value: imp, revision }
}

#[test]
fn due_cycle() {
    let imp = importer(false, None, None);
    assert!(imp.is_due_at(T0));
    let imp = importer(false, Some(T0), None);
    assert!(!imp.is_due_at(T0));
    assert!(!imp.is_due_at(T0 + 30 * SECOND));
    assert!(imp.is_due_at(T0 + 30 * SECOND + 1));
    assert!(imp.is_due_at(T0 + 31 * SECOND));
    // a last run in the future is not due
    assert!(!imp.is_due_at(T0 - SECOND));
}

#[test]
fn liveness_window() {
    let imp = importer(false, None, Some(T0));
    assert!(imp.is_running_at(T0, RATE));
    assert!(imp.is_running_at(T0 + 19 * SECOND, RATE));
    assert!(!imp.is_running_at(T0 + 20 * SECOND, RATE));
    assert!(!importer(false, None, None).is_running_at(T0, RATE));
    assert!(heartbeat_fresh(T0, T0 + SECOND, 1_000_000_000));
    assert!(!heartbeat_fresh(T0, T0 + 2 * SECOND, 1_000_000_000));
    assert!(heartbeat_fresh(i128::MIN, i128::MAX, u128::MAX));
}

#[test]
fn heartbeat_outside_calendar_is_not_running() {
    // far beyond any calendar date: a fresh-looking heartbeat that the
    // calendar cannot represent does not count
    let hb = i128::MAX - 1;
    let imp = importer(false, None, Some(hb));
    assert!(heartbeat_fresh(hb, hb, RATE));
    assert!(!imp.is_running_at(hb, RATE));
}

#[test]
fn progress_worked_example_and_degenerate() {
    let d = into_progress_details(T0, T0 + 10 * SECOND, Some(15), Some(100)).unwrap();
    assert_eq!(d.estimated_seconds_remaining, 56);
    assert_eq!(d.estimated_completion, T0 + 66 * SECOND);
    assert!(into_progress_details(T0, T0 + 10 * SECOND, None, Some(100)).is_none());
    assert!(into_progress_details(T0, T0 + 10 * SECOND, Some(15), None).is_none());
    assert!(into_progress_details(T0, T0 + 10 * SECOND, Some(10), Some(1)).is_none());
    assert!(into_progress_details(T0, T0 + 10 * SECOND, Some(0), Some(0)).is_none());
}

#[test]
fn progress_edges() {
    // nothing done yet: the estimate is unbounded
    let d = into_progress_details(T0, T0 + SECOND, Some(0), Some(10)).unwrap();
    assert_eq!(d.estimated_seconds_remaining, u64::MAX);
    // no time elapsed: no estimate
    let d = into_progress_details(T0, T0, Some(5), Some(10)).unwrap();
    assert_eq!(d.estimated_seconds_remaining, 0);
    assert_eq!(d.estimated_completion, T0);
    // done
    let d = into_progress_details(T0, T0 + SECOND, Some(10), Some(10)).unwrap();
    assert_eq!(d.estimated_seconds_remaining, 0);
    // a negative stored count reads as a large unsigned one
    assert!(into_progress_details(T0, T0 + SECOND, Some(-1), Some(10)).is_none());
    let d = into_progress_details(T0, T0 + SECOND, Some(1), Some(-1)).unwrap();
    assert_eq!(d.total, u32::MAX);
}

#[test]
fn concurrent_claims_one_wins() {
    let shared = stored(importer(false, None, None), 7);
    let seen_a = stored(shared.value.clone(), shared.revision);
    let seen_b = stored(shared.value.clone(), shared.revision);
    let mut record = shared;
    assert_eq!(claim(&mut record, seen_a, T0, RATE), Ok(8));
    assert_eq!(record.value.data.state, State::Running);
    assert_eq!(record.value.heartbeat, Some(T0));
    assert_eq!(claim(&mut record, seen_b, T0, RATE), Err(ClaimError::Update(UpdateError::Conflict)));
    assert_eq!(record.revision, 8);
    assert_eq!(record.value.data.state, State::Running);
    assert_eq!(record.value.data.last_change, T0);
}

#[test]
fn claim_rejections() {
    let mut record = stored(importer(true, None, None), 1);
    let seen = stored(record.value.clone(), 1);
    assert_eq!(claim(&mut record, seen, T0, RATE), Err(ClaimError::Disabled));
    assert_eq!(record.revision, 1);

    let mut record = stored(importer(false, Some(T0 - SECOND), None), 1);
    let seen = stored(record.value.clone(), 1);
    assert_eq!(claim(&mut record, seen, T0, RATE), Err(ClaimError::NotDue));

    let mut record = stored(importer(false, None, Some(T0 - SECOND)), 1);
    let seen = stored(record.value.clone(), 1);
    assert!(!should_run(&seen.value, T0, RATE));
    assert_eq!(claim(&mut record, seen, T0, RATE), Err(ClaimError::AlreadyRunning));

    let mut record = stored(importer(false, None, None), u64::MAX);
    let seen = stored(record.value.clone(), u64::MAX);
    assert!(should_run(&seen.value, T0, RATE));
    assert_eq!(
        claim(&mut record, seen, T0, RATE),
        Err(ClaimError::Update(UpdateError::RevisionsExhausted))
    );
    assert_eq!(record.value.data.state, State::Waiting);
}

#[test]
fn guarded_update_conflict_leaves_record() {
    let mut record = stored(importer(false, None, None), 3);
    let other = importer(true, None, None);
    assert_eq!(update_guarded(&mut record, 2, other.clone()), Err(UpdateError::Conflict));
    assert!(record.value.is_enabled());
    assert_eq!(record.revision, 3);
    assert_eq!(update_guarded(&mut record, 3, other), Ok(4));
    assert!(!record.value.is_enabled());
}

#[test]
fn end_to_end_success() {
    let mut record = stored(importer(false, None, None), 0);
    let mut log = ReportLog::new();
    let seen = stored(record.value.clone(), record.revision);
    assert!(should_run(&seen.value, T0, RATE));
    let mut rev = claim(&mut record, seen, T0, RATE).unwrap();

    rev = refresh_heartbeat(&mut record, rev, T0 + 10 * SECOND).unwrap();
    rev = record_progress(&mut record, rev, T0 + 12 * SECOND, Some(30), Some(100), None).unwrap();
    let d = record.value.data.progress.details.clone().unwrap();
    assert_eq!((d.current, d.total), (30, 100));
    assert_eq!(d.estimated_seconds_remaining, 28);
    rev = refresh_heartbeat(&mut record, rev, T0 + 20 * SECOND).unwrap();
    rev = record_progress(&mut record, rev, T0 + 28 * SECOND, Some(70), Some(100), Some("half".into())).unwrap();
    assert_eq!(record.value.data.progress.message, Some("half".to_string()));
    assert!(record.value.is_running_at(T0 + 29 * SECOND, RATE));

    let done = T0 + 30 * SECOND;
    let outcome = RunOutcome::Success {
        continuation: Some(serde_json::Value::String("C2".into())),
        report: None,
    };
    assert_eq!(complete_run(&mut record, rev, &mut log, done, outcome), Ok(rev + 1));
    let data = &record.value.data;
    assert_eq!(data.state, State::Waiting);
    assert_eq!(data.last_success, Some(done));
    assert_eq!(data.last_run, Some(done));
    assert_eq!(data.continuation, Some(serde_json::Value::String("C2".into())));
    assert_eq!(data.last_error, None);
    assert_eq!(record.value.heartbeat, None);
    assert_eq!(log.reports.len(), 1);
    assert_eq!(log.reports[0].importer, "cve");
    assert_eq!(log.reports[0].creation, done);
    assert_eq!(log.reports[0].error, None);
    assert!(!record.value.is_due_at(done));
}

#[test]
fn failure_keeps_continuation_and_reports_error() {
    let mut imp = importer(false, None, None);
    imp.data.continuation = Some(serde_json::Value::String("C1".into()));
    let mut record = stored(imp, 5);
    let mut log = ReportLog::new();
    log.append("other".into(), T0, None, None);
    let outcome = RunOutcome::Failure {
        error: "fetch failed".into(),
        report: Some(serde_json::Value::Bool(true)),
    };
    assert_eq!(complete_run(&mut record, 5, &mut log, T0, outcome), Ok(6));
    assert_eq!(record.value.data.last_error, Some("fetch failed".to_string()));
    assert_eq!(record.value.data.continuation, Some(serde_json::Value::String("C1".into())));
    assert_eq!(record.value.data.last_success, None);
    assert_eq!(record.value.data.last_run, Some(T0));
    assert_eq!(log.reports.len(), 2);
    assert_eq!(log.reports[0].importer, "other");
    assert_eq!(log.reports[1].id, 1);
    assert_eq!(log.reports[1].error, Some("fetch failed".to_string()));
    assert_eq!(log.reports[1].report, Some(serde_json::Value::Bool(true)));
}

#[test]
fn release_conflict_leaves_record() {
    let mut record = stored(importer(false, None, Some(T0)), 9);
    let outcome = RunOutcome::Success { continuation: None, report: None };
    assert_eq!(release(&mut record, 8, T0, outcome), Err(UpdateError::Conflict));
    assert_eq!(record.value.heartbeat, Some(T0));
    assert_eq!(refresh_heartbeat(&mut record, 8, T0), Err(UpdateError::Conflict));
}

#[test]
fn row_round_trip() {
    let mut imp = importer(true, Some(T0), Some(T0 + 1));
    imp.data.progress = importer_core::progress::into_progress(
        imp.data.last_change, T0, Some(3), Some(4), Some("m".into()));
    let row = imp.clone().into_row(42);
    assert_eq!(row.kind, ImporterKind::Cve);
    assert_eq!(row.progress_current, Some(3));
    let back = Importer::from_row_at(row, T0).unwrap();
    assert_eq!(back.revision, 42);
    assert_eq!(back.value.name, imp.name);
    assert_eq!(back.value.data.configuration, imp.data.configuration);
    assert_eq!(back.value.data.configuration.common(), &common(true));
    assert_eq!(back.value.data.last_run, Some(T0));
    assert_eq!(back.value.data.progress, imp.data.progress);
}

#[test]
fn row_with_out_of_range_time() {
    let mut row: ImporterRow = importer(false, None, None).into_row(1);
    row.last_change = i128::MAX;
    assert_eq!(Importer::from_row_at(row.clone(), T0).err(), Some(RowError::TimeOutOfRange));
    assert_eq!(Importer::from_revisioned(row).err(), Some(RowError::TimeOutOfRange));
}

#[test]
fn common_projection() {
    let mut c = ImporterConfiguration::Quay(SourceSettings { common: common(false), source: "q".into() });
    assert_eq!(c.kind(), ImporterKind::Quay);
    c.common_mut().disabled = true;
    assert!(c.common().disabled);
    assert_eq!(c.kind(), ImporterKind::Quay);
    let (k, s) = c.clone().into_parts();
    assert_eq!(s.source, "q");
    assert_eq!(ImporterConfiguration::from_parts(k, s), c);
}
