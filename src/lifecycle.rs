//! The run lifecycle: eligibility, claim, heartbeat, progress and release,
//! each written through a revision-guarded update, and the append-only log
//! of run reports.
//!
//! Mutual exclusion is opportunistic: a worker claims an importer only when
//! no fresh heartbeat shows another owner, and only if the revision it read
//! is still the stored one. Under severe clock skew two workers may both
//! see a stale heartbeat; that brief double run is accepted.
use vstd::prelude::*;
use crate::clock::{shorter_than, valid_time};
use crate::importer::{due_at, running_at, Importer, ImporterData, Revisioned, State};
use crate::progress::{details_of, into_progress, Progress};

verus! {

/// Why a revision-guarded update was not written.
#[derive(Clone, Copy, Debug, PartialEq, Eq, Structural)]
pub enum UpdateError {
    /// The stored revision is not the one the caller read.
    Conflict,
    /// The stored revision cannot advance any further.
    RevisionsExhausted,
}

/// Why a claim was not made.
#[derive(Clone, Copy, Debug, PartialEq, Eq, Structural)]
pub enum ClaimError {
    Disabled,
    NotDue,
    AlreadyRunning,
    Update(UpdateError),
}

/// The terminal outcome of one run of an adapter.
#[derive(Clone, Debug)]
pub enum RunOutcome {
    Success { continuation: Option<serde_json::Value>, report: Option<serde_json::Value> },
    Failure { error: String, report: Option<serde_json::Value> },
}

/// An immutable record of one completed run.
#[derive(Clone, Debug)]
pub struct ImporterReport {
    /// The ID of the report, unique within its log.
    pub id: u64,
    /// The name of the importer this report belongs to.
    pub importer: String,
    /// The time the report was created, in Unix nanoseconds.
    pub creation: i128,
    /// The error of the run, if it failed.
    pub error: Option<String>,
    /// Detailed report information.
    pub report: Option<serde_json::Value>,
}

/// Whether at `now` the importer may be claimed: enabled, due, and not
/// running by any worker.
pub open spec fn eligible(imp: Importer, now: i128, rate: u128) -> bool {
    &&& imp.data.configuration.is_enabled_spec()
    &&& due_at(imp.data, now)
    &&& !running_at(imp.heartbeat, now, rate)
}

/// The outcome of writing `value` over `record` when the caller read
/// revision `expected`.
pub open spec fn update_outcome(record: Revisioned<Importer>, expected: u64) -> Result<u64, UpdateError> {
    if record.revision != expected {
        Err(UpdateError::Conflict)
    } else if expected == u64::MAX {
        Err(UpdateError::RevisionsExhausted)
    } else {
        Ok((expected + 1) as u64)
    }
}

/// The stored record after that write: the new value under the next
/// revision, or the record untouched.
pub open spec fn after_update(record: Revisioned<Importer>, expected: u64, value: Importer) -> Revisioned<Importer> {
    match update_outcome(record, expected) {
        Ok(rev) => Revisioned { value, revision: rev },
        Err(_) => record,
    }
}

/// The importer as a claim at `now` leaves it.
pub open spec fn claimed(imp: Importer, now: i128) -> Importer {
    Importer {
        heartbeat: Some(now),
        data: ImporterData {
            state: State::Running,
            last_change: now,
            progress: Progress { message: None, details: None },
            ..imp.data
        },
        ..imp
    }
}

/// The outcome of a claim by a worker that read `seen`.
pub open spec fn claim_outcome(
    record: Revisioned<Importer>,
    seen: Revisioned<Importer>,
    now: i128,
    rate: u128,
) -> Result<u64, ClaimError> {
    if !seen.value.data.configuration.is_enabled_spec() {
        Err(ClaimError::Disabled)
    } else if !due_at(seen.value.data, now) {
        Err(ClaimError::NotDue)
    } else if running_at(seen.value.heartbeat, now, rate) {
        Err(ClaimError::AlreadyRunning)
    } else {
        match update_outcome(record, seen.revision) {
            Ok(rev) => Ok(rev),
            Err(e) => Err(ClaimError::Update(e)),
        }
    }
}

/// The stored record after that claim.
pub open spec fn after_claim(
    record: Revisioned<Importer>,
    seen: Revisioned<Importer>,
    now: i128,
    rate: u128,
) -> Revisioned<Importer> {
    if eligible(seen.value, now, rate) {
        after_update(record, seen.revision, claimed(seen.value, now))
    } else {
        record
    }
}

/// The importer as a release at `now` with `outcome` leaves it.
pub open spec fn released(imp: Importer, now: i128, outcome: RunOutcome) -> Importer {
    let data = ImporterData {
        state: State::Waiting,
        last_change: now,
        last_run: Some(now),
        ..imp.data
    };
    Importer {
        heartbeat: None,
        data: match outcome {
            RunOutcome::Success { continuation, .. } => ImporterData {
                last_success: Some(now),
                last_error: None,
                continuation,
                ..data
            },
            RunOutcome::Failure { error, .. } => ImporterData { last_error: Some(error), ..data },
        },
        ..imp
    }
}

/// Whether a scheduler should try to claim the importer at `now`.
pub fn should_run(imp: &Importer, now: i128, rate: u128) -> (r: bool)
    ensures
        r == eligible(*imp, now, rate),
{
    imp.is_enabled() && imp.is_due_at(now) && !imp.is_running_at(now, rate)
}

/// Whether the owning worker should refresh its heartbeat at `now`, having
/// last done so at `last_beat`: once a full rate has passed.
pub fn heartbeat_due(last_beat: i128, now: i128, rate: u128) -> (r: bool)
    ensures
        r == (now - last_beat >= rate),
{
    !shorter_than(last_beat, now, rate)
}

/// The positions, in increasing order, of the importers that may be
/// claimed at `now`: one poll of the scheduler.
pub fn runnable(importers: &Vec<Importer>, now: i128, rate: u128) -> (r: Vec<usize>)
    ensures
        forall|k: int| 0 <= k < r@.len() ==> r@[k] < importers@.len(),
        forall|k: int, l: int| 0 <= k < l < r@.len() ==> r@[k] < r@[l],
        forall|k: int| 0 <= k < r@.len() ==> eligible(#[trigger] importers@[r@[k] as int], now, rate),
        forall|i: int|
            0 <= i < importers@.len() && eligible(#[trigger] importers@[i], now, rate) ==> exists|k: int|
                0 <= k < r@.len() && r@[k] == i,
{
    let mut r: Vec<usize> = Vec::new();
    let mut i: usize = 0;
    while i < importers.len()
        invariant
            i <= importers@.len(),
            forall|k: int| 0 <= k < r@.len() ==> r@[k] < i,
            forall|k: int, l: int| 0 <= k < l < r@.len() ==> r@[k] < r@[l],
            forall|k: int| 0 <= k < r@.len() ==> eligible(#[trigger] importers@[r@[k] as int], now, rate),
            forall|j: int|
                0 <= j < i && eligible(#[trigger] importers@[j], now, rate) ==> exists|k: int|
                    0 <= k < r@.len() && r@[k] == j,
        decreases importers@.len() - i,
    {
        if should_run(&importers[i], now, rate) {
            let ghost before = r@;
            r.push(i);
            assert forall|j: int|
                0 <= j <= i && eligible(#[trigger] importers@[j], now, rate) implies exists|k: int|
                    0 <= k < r@.len() && r@[k] == j by {
                if j < i {
                    let k = choose|k: int| 0 <= k < before.len() && before[k] == j;
                    assert(r@[k] == j);
                } else {
                    assert(r@[before.len() as int] == j);
                }
            }
        }
        i += 1;
    }
    r
}

/// Writes `value` over `record` if its revision is still `expected`,
/// advancing the revision by one; otherwise leaves it untouched.
pub fn update_guarded(record: &mut Revisioned<Importer>, expected: u64, value: Importer) -> (r: Result<u64, UpdateError>)
    ensures
        r == update_outcome(*old(record), expected),
        *final(record) == after_update(*old(record), expected, value),
{
    if record.revision != expected {
        return Err(UpdateError::Conflict);
    }
    if expected == u64::MAX {
        return Err(UpdateError::RevisionsExhausted);
    }
    record.value = value;
    record.revision = expected + 1;
    Ok(expected + 1)
}

/// Claims the importer for a worker that read `seen`: rejected unless the
/// importer it read is enabled, due and not running, and written only if
/// the stored revision is still the one it read.
pub fn claim(record: &mut Revisioned<Importer>, seen: Revisioned<Importer>, now: i128, rate: u128) -> (r: Result<u64, ClaimError>)
    ensures
        r == claim_outcome(*old(record), seen, now, rate),
        *final(record) == after_claim(*old(record), seen, now, rate),
{
    let imp = &seen.value;
    if !imp.is_enabled() {
        return Err(ClaimError::Disabled);
    }
    if !imp.is_due_at(now) {
        return Err(ClaimError::NotDue);
    }
    if imp.is_running_at(now, rate) {
        return Err(ClaimError::AlreadyRunning);
    }
    let expected = seen.revision;
    let mut value = seen.value;
    value.heartbeat = Some(now);
    value.data.state = State::Running;
    value.data.last_change = now;
    value.data.progress = Progress { message: None, details: None };
    match update_guarded(record, expected, value) {
        Ok(rev) => Ok(rev),
        Err(e) => Err(ClaimError::Update(e)),
    }
}

/// The importer with its heartbeat refreshed at `now`.
pub open spec fn with_heartbeat(imp: Importer, now: i128) -> Importer {
    Importer { heartbeat: Some(now), ..imp }
}

/// The importer with its progress as reported at `now`.
pub open spec fn with_progress(
    imp: Importer,
    now: i128,
    current: Option<i32>,
    total: Option<i32>,
    message: Option<String>,
) -> Importer {
    Importer {
        data: ImporterData {
            progress: Progress {
                message,
                details: details_of(imp.data.last_change, now, current, total),
            },
            ..imp.data
        },
        ..imp
    }
}

/// The owning worker's liveness signal: sets the heartbeat to `now`, guarded
/// by the revision it last wrote.
pub fn refresh_heartbeat(record: &mut Revisioned<Importer>, expected: u64, now: i128) -> (r: Result<u64, UpdateError>)
    ensures
        r == update_outcome(*old(record), expected),
        *final(record) == after_update(*old(record), expected, with_heartbeat(old(record).value, now)),
{
    if record.revision != expected {
        return Err(UpdateError::Conflict);
    }
    if expected == u64::MAX {
        return Err(UpdateError::RevisionsExhausted);
    }
    record.value.heartbeat = Some(now);
    record.revision = expected + 1;
    Ok(expected + 1)
}

/// Stores the progress that the adapter reported at `now`, guarded by the
/// revision the owning worker last wrote.
pub fn record_progress(
    record: &mut Revisioned<Importer>,
    expected: u64,
    now: i128,
    current: Option<i32>,
    total: Option<i32>,
    message: Option<String>,
) -> (r: Result<u64, UpdateError>)
    requires
        valid_time(now),
        valid_time(old(record).value.data.last_change),
    ensures
        r == update_outcome(*old(record), expected),
        *final(record) == after_update(
            *old(record),
            expected,
            with_progress(old(record).value, now, current, total, message),
        ),
{
    if record.revision != expected {
        return Err(UpdateError::Conflict);
    }
    if expected == u64::MAX {
        return Err(UpdateError::RevisionsExhausted);
    }
    let progress = into_progress(record.value.data.last_change, now, current, total, message);
    record.value.data.progress = progress;
    record.revision = expected + 1;
    Ok(expected + 1)
}

/// Ends the run at `now` with its outcome: back to waiting, the run and
/// (on success) the success time recorded, the continuation taken over on
/// success and kept on failure, the error of a failure recorded.
pub fn release(record: &mut Revisioned<Importer>, expected: u64, now: i128, outcome: RunOutcome) -> (r: Result<u64, UpdateError>)
    ensures
        r == update_outcome(*old(record), expected),
        *final(record) == after_update(*old(record), expected, released(old(record).value, now, outcome)),
{
    if record.revision != expected {
        return Err(UpdateError::Conflict);
    }
    if expected == u64::MAX {
        return Err(UpdateError::RevisionsExhausted);
    }
    record.value.heartbeat = None;
    record.value.data.state = State::Waiting;
    record.value.data.last_change = now;
    record.value.data.last_run = Some(now);
    match outcome {
        RunOutcome::Success { continuation, .. } => {
            record.value.data.last_success = Some(now);
            record.value.data.last_error = None;
            record.value.data.continuation = continuation;
        },
        RunOutcome::Failure { error, .. } => {
            record.value.data.last_error = Some(error);
        },
    }
    record.revision = expected + 1;
    Ok(expected + 1)
}

/// The append-only log of run reports.
pub struct ReportLog {
    pub reports: Vec<ImporterReport>,
}

impl ReportLog {
    /// An empty log.
    pub fn new() -> (r: ReportLog)
        ensures
            r.reports@.len() == 0,
    {
        ReportLog { reports: Vec::new() }
    }

    /// Appends the report of a run of `importer` created at `creation`; the
    /// reports already there stay as they were. Returns its ID, its position.
    pub fn append(
        &mut self,
        importer: String,
        creation: i128,
        error: Option<String>,
        report: Option<serde_json::Value>,
    ) -> (r: u64)
        ensures
            r == old(self).reports@.len(),
            final(self).reports@ == old(self).reports@.push(
                ImporterReport { id: r, importer, creation, error, report },
            ),
    {
        let id = self.reports.len() as u64;
        self.reports.push(ImporterReport { id, importer, creation, error, report });
        id
    }
}

/// The error and the payload that the report of `outcome` carries.
pub open spec fn report_parts(outcome: RunOutcome) -> (Option<String>, Option<serde_json::Value>) {
    match outcome {
        RunOutcome::Success { report, .. } => (None, report),
        RunOutcome::Failure { error, report } => (Some(error), report),
    }
}

/// Completes a run at `now`: appends its report, whatever the outcome and
/// whether or not the release is written, then releases the importer.
pub fn complete_run(
    record: &mut Revisioned<Importer>,
    expected: u64,
    log: &mut ReportLog,
    now: i128,
    outcome: RunOutcome,
) -> (r: Result<u64, UpdateError>)
    ensures
        r == update_outcome(*old(record), expected),
        *final(record) == after_update(*old(record), expected, released(old(record).value, now, outcome)),
        final(log).reports@ == old(log).reports@.push(
            ImporterReport {
                id: old(log).reports@.len() as u64,
                importer: old(record).value.name,
                creation: now,
                error: report_parts(outcome).0,
                report: report_parts(outcome).1,
            },
        ),
{
    let name = record.value.name.clone();
    // the payload goes to the report; the state keeps only the rest
    let (kept, error, report) = match outcome {
        RunOutcome::Success { continuation, report } => (
            RunOutcome::Success { continuation, report: None },
            None,
            report,
        ),
        RunOutcome::Failure { error, report } => {
            let e = error.clone();
            (RunOutcome::Failure { error, report: None }, Some(e), report)
        },
    };
    log.append(name, now, error, report);
    release(record, expected, now, kept)
}

/// Two workers that read the same record and both find it eligible race to
/// claim it: whichever writes first takes it and sets it running; the other
/// gets a conflict and the record stays as the first left it.
pub proof fn lemma_concurrent_claims(
    shared: Revisioned<Importer>,
    now_a: i128,
    now_b: i128,
    rate: u128,
)
    requires
        eligible(shared.value, now_a, rate),
        eligible(shared.value, now_b, rate),
        shared.revision < u64::MAX,
    ensures
        ({
            let first = after_claim(shared, shared, now_a, rate);
            &&& claim_outcome(shared, shared, now_a, rate) == Ok::<u64, ClaimError>(
                (shared.revision + 1) as u64,
            )
            &&& first.value.data.state == State::Running
            &&& first.value.heartbeat == Some(now_a)
            &&& claim_outcome(first, shared, now_b, rate) == Err::<u64, ClaimError>(
                ClaimError::Update(UpdateError::Conflict),
            )
            &&& after_claim(first, shared, now_b, rate) == first
        }),
{
}

/// Due-time after a run: an importer that never ran is due; right after a
/// release at `now` it is not; it is due again once strictly more than its
/// period has passed since.
pub proof fn lemma_due_cycle(imp: Importer, now: i128, later: i128, outcome: RunOutcome)
    ensures
        imp.data.last_run.is_none() ==> due_at(imp.data, now),
        !due_at(released(imp, now, outcome).data, now),
        later - now > imp.data.configuration.common_spec().period ==> due_at(
            released(imp, now, outcome).data,
            later,
        ),
{
}

} // verus!
