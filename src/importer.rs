//! An importer and its runtime state: due-time policy, liveness from the
//! heartbeat, and the persisted row it is read from and written to.
use vstd::prelude::*;
use crate::clock::{is_representable, now_unix_nanos, representable_nanos, shorter_than, longer_than, valid_time};
use crate::config::{ImporterConfiguration, ImporterKind, SourceSettings};
use crate::progress::{into_progress, details_of, counter, Progress};

verus! {

/// An opaque structured value (a continuation token, a report payload).
#[verifier::external_type_specification]
#[verifier::external_body]
pub struct ExValue(serde_json::Value);

/// How often a running importer refreshes its heartbeat, in nanoseconds,
/// unless the process is configured otherwise.
pub const HEARTBEAT_RATE: u128 = 10_000_000_000;

/// The lifecycle state of an importer.
#[derive(Clone, Copy, Debug, PartialEq, Eq, Structural)]
pub enum State {
    Waiting,
    Running,
}

/// The runtime data of an importer.
#[derive(Clone, Debug)]
pub struct ImporterData {
    pub configuration: ImporterConfiguration,
    /// The current state of the importer.
    pub state: State,
    /// The last state change, in Unix nanoseconds.
    pub last_change: i128,
    /// The last successful run.
    pub last_success: Option<i128>,
    /// The last run, successful or not.
    pub last_run: Option<i128>,
    /// The error of the last run, if it failed.
    pub last_error: Option<String>,
    /// The current progress.
    pub progress: Progress,
    /// The continuation token of the importer; `None` when empty.
    pub continuation: Option<serde_json::Value>,
}

/// An importer: its unique name, its heartbeat and its data.
#[derive(Clone, Debug)]
pub struct Importer {
    pub name: String,
    /// The last liveness signal of a worker running it, in Unix nanoseconds.
    pub heartbeat: Option<i128>,
    pub data: ImporterData,
}

/// A value together with the revision it was stored under.
#[derive(Clone, Debug)]
pub struct Revisioned<T> {
    pub value: T,
    pub revision: u64,
}

/// An importer as persisted: the configuration split into its kind and its
/// settings, and progress as raw counters.
#[derive(Clone, Debug)]
pub struct ImporterRow {
    pub name: String,
    pub kind: ImporterKind,
    pub settings: SourceSettings,
    pub state: State,
    pub last_change: i128,
    pub last_success: Option<i128>,
    pub last_run: Option<i128>,
    pub last_error: Option<String>,
    pub progress_current: Option<i32>,
    pub progress_total: Option<i32>,
    pub progress_message: Option<String>,
    pub continuation: Option<serde_json::Value>,
    pub heartbeat: Option<i128>,
    pub revision: u64,
}

/// Why a persisted row cannot be read.
#[derive(Clone, Copy, Debug, PartialEq, Eq, Structural)]
pub enum RowError {
    /// The last state change lies outside the representable instants.
    TimeOutOfRange,
}

/// A newly created importer: waiting since `now`, never run, with no
/// heartbeat, error, progress or continuation.
pub open spec fn initial(name: String, configuration: ImporterConfiguration, now: i128) -> Importer {
    Importer {
        name,
        heartbeat: None,
        data: ImporterData {
            configuration,
            state: State::Waiting,
            last_change: now,
            last_success: None,
            last_run: None,
            last_error: None,
            progress: Progress { message: None, details: None },
            continuation: None,
        },
    }
}

/// Whether at `now` the importer is due: it never ran, or strictly more than
/// its period has passed since its last run.
pub open spec fn due_at(data: ImporterData, now: i128) -> bool {
    match data.last_run {
        None => true,
        Some(t) => now - t > data.configuration.common_spec().period,
    }
}

/// Whether a heartbeat at `heartbeat` is still fresh at `now`: strictly less
/// than twice the heartbeat rate has passed since.
pub open spec fn fresh(heartbeat: i128, now: i128, rate: u128) -> bool {
    now - heartbeat < 2 * rate
}

/// Whether at `now` some worker is running the importer: its heartbeat is
/// present, a representable instant, and fresh.
pub open spec fn running_at(heartbeat: Option<i128>, now: i128, rate: u128) -> bool {
    match heartbeat {
        None => false,
        Some(t) => representable_nanos(t) && fresh(t, now, rate),
    }
}

/// Whether the heartbeat at `heartbeat` is still fresh at `now`.
pub fn heartbeat_fresh(heartbeat: i128, now: i128, rate: u128) -> (r: bool)
    ensures
        r == fresh(heartbeat, now, rate),
{
    if rate > u128::MAX / 2 {
        // twice the rate exceeds any distance between two instants
        true
    } else {
        shorter_than(heartbeat, now, 2 * rate)
    }
}

impl Importer {
    /// A newly created importer, as `initial` describes it.
    pub fn new(name: String, configuration: ImporterConfiguration, now: i128) -> (r: Importer)
        ensures
            r == initial(name, configuration, now),
    {
        Importer {
            name,
            heartbeat: None,
            data: ImporterData {
                configuration,
                state: State::Waiting,
                last_change: now,
                last_success: None,
                last_run: None,
                last_error: None,
                progress: Progress { message: None, details: None },
                continuation: None,
            },
        }
    }

    /// Check if the importer needs to run at `now`.
    pub fn is_due_at(&self, now: i128) -> (r: bool)
        ensures
            r == due_at(self.data, now),
    {
        match self.data.last_run {
            Some(t) => longer_than(t, now, self.data.configuration.common().period),
            None => true,
        }
    }

    /// Check if the importer needs to run now.
    pub fn is_due(&self) -> (r: bool)
        ensures
            exists|now: i128| valid_time(now) && r == #[trigger] due_at(self.data, now),
            self.data.last_run.is_none() ==> r,
    {
        self.is_due_at(now_unix_nanos())
    }

    /// Check if any worker is running this importer at `now`, for workers that
    /// refresh their heartbeat every `rate` nanoseconds.
    pub fn is_running_at(&self, now: i128, rate: u128) -> (r: bool)
        ensures
            r == running_at(self.heartbeat, now, rate),
    {
        match self.heartbeat {
            Some(t) => is_representable(t) && heartbeat_fresh(t, now, rate),
            None => false,
        }
    }

    /// Check if any worker is running this importer now.
    pub fn is_running(&self) -> (r: bool)
        ensures
            exists|now: i128|
                valid_time(now) && r == #[trigger] running_at(self.heartbeat, now, HEARTBEAT_RATE),
            self.heartbeat.is_none() ==> !r,
    {
        self.is_running_at(now_unix_nanos(), HEARTBEAT_RATE)
    }

    /// Check if the importer is enabled to run.
    pub fn is_enabled(&self) -> (r: bool)
        ensures
            r == self.data.configuration.is_enabled_spec(),
    {
        !self.data.configuration.common().disabled
    }

    /// Reads a persisted row, computing its progress as observed at `now`.
    pub fn from_row_at(row: ImporterRow, now: i128) -> (r: Result<Revisioned<Importer>, RowError>)
        requires
            valid_time(now),
        ensures
            valid_time(row.last_change) ==> r is Ok && r->Ok_0 == importer_of_row(row, now),
            !valid_time(row.last_change) ==> r == Err::<Revisioned<Importer>, RowError>(
                RowError::TimeOutOfRange,
            ),
    {
        if row.last_change < -crate::clock::TIME_BOUND || row.last_change > crate::clock::TIME_BOUND {
            return Err(RowError::TimeOutOfRange);
        }
        let progress = into_progress(
            row.last_change,
            now,
            row.progress_current,
            row.progress_total,
            row.progress_message,
        );
        Ok(Revisioned {
            value: Importer {
                name: row.name,
                heartbeat: row.heartbeat,
                data: ImporterData {
                    configuration: ImporterConfiguration::from_parts(row.kind, row.settings),
                    state: row.state,
                    last_change: row.last_change,
                    last_success: row.last_success,
                    last_run: row.last_run,
                    last_error: row.last_error,
                    progress,
                    continuation: row.continuation,
                },
            },
            revision: row.revision,
        })
    }

    /// Reads a persisted row, computing its progress as observed now.
    pub fn from_revisioned(row: ImporterRow) -> (r: Result<Revisioned<Importer>, RowError>)
        ensures
            r is Ok <==> valid_time(row.last_change),
            r is Ok ==> exists|now: i128|
                valid_time(now) && r->Ok_0 == #[trigger] importer_of_row(row, now),
    {
        Importer::from_row_at(row, now_unix_nanos())
    }

    /// The persisted row of this importer under revision `revision`.
    pub fn into_row(self, revision: u64) -> (r: ImporterRow)
        ensures
            r == row_of(self, revision),
    {
        let (kind, settings) = self.data.configuration.into_parts();
        let (current, total) = match &self.data.progress.details {
            Some(d) => (Some(store_counter(d.current)), Some(store_counter(d.total))),
            None => (None, None),
        };
        ImporterRow {
            name: self.name,
            kind,
            settings,
            state: self.data.state,
            last_change: self.data.last_change,
            last_success: self.data.last_success,
            last_run: self.data.last_run,
            last_error: self.data.last_error,
            progress_current: current,
            progress_total: total,
            progress_message: self.data.progress.message,
            continuation: self.data.continuation,
            heartbeat: self.heartbeat,
            revision,
        }
    }
}

/// The stored form of a count: the `i32` whose counter reading is `c`.
pub open spec fn stored_counter(c: u32) -> i32 {
    if c > i32::MAX as u32 {
        (c - 0x1_0000_0000) as i32
    } else {
        c as i32
    }
}

fn store_counter(c: u32) -> (r: i32)
    ensures
        r == stored_counter(c),
        counter(r) == c,
{
    if c > i32::MAX as u32 {
        (c as i64 - 0x1_0000_0000i64) as i32
    } else {
        c as i32
    }
}

/// The importer read from `row` at `now`, under the row's revision.
pub open spec fn importer_of_row(row: ImporterRow, now: i128) -> Revisioned<Importer> {
    Revisioned {
        value: Importer {
            name: row.name,
            heartbeat: row.heartbeat,
            data: ImporterData {
                configuration: ImporterConfiguration::of_kind(row.kind, row.settings),
                state: row.state,
                last_change: row.last_change,
                last_success: row.last_success,
                last_run: row.last_run,
                last_error: row.last_error,
                progress: Progress {
                    message: row.progress_message,
                    details: details_of(row.last_change, now, row.progress_current, row.progress_total),
                },
                continuation: row.continuation,
            },
        },
        revision: row.revision,
    }
}

/// The row persisting `imp` under revision `revision`.
pub open spec fn row_of(imp: Importer, revision: u64) -> ImporterRow {
    ImporterRow {
        name: imp.name,
        kind: imp.data.configuration.kind_spec(),
        settings: imp.data.configuration.settings(),
        state: imp.data.state,
        last_change: imp.data.last_change,
        last_success: imp.data.last_success,
        last_run: imp.data.last_run,
        last_error: imp.data.last_error,
        progress_current: match imp.data.progress.details {
            Some(d) => Some(stored_counter(d.current)),
            None => None,
        },
        progress_total: match imp.data.progress.details {
            Some(d) => Some(stored_counter(d.total)),
            None => None,
        },
        progress_message: imp.data.progress.message,
        continuation: imp.data.continuation,
        heartbeat: imp.heartbeat,
        revision,
    }
}

/// Persisting an importer and reading it back keeps its name, its revision,
/// its configuration variant and every common setting, and its state and
/// timestamps.
pub proof fn lemma_row_round_trip(imp: Importer, revision: u64, now: i128)
    ensures
        ({
            let back = importer_of_row(row_of(imp, revision), now);
            &&& back.revision == revision
            &&& back.value.name == imp.name
            &&& back.value.heartbeat == imp.heartbeat
            &&& back.value.data.configuration == imp.data.configuration
            &&& back.value.data.configuration.kind_spec() == imp.data.configuration.kind_spec()
            &&& back.value.data.configuration.common_spec() == imp.data.configuration.common_spec()
            &&& back.value.data.state == imp.data.state
            &&& back.value.data.last_change == imp.data.last_change
            &&& back.value.data.last_success == imp.data.last_success
            &&& back.value.data.last_run == imp.data.last_run
            &&& back.value.data.last_error == imp.data.last_error
            &&& back.value.data.continuation == imp.data.continuation
        }),
{
    let c = imp.data.configuration;
    assert(ImporterConfiguration::of_kind(c.kind_spec(), c.settings()) == c);
}

/// Liveness from the heartbeat: a heartbeat written at `now` shows the
/// importer running at `now`; one at least twice the rate old does not; an
/// absent one never does.
pub proof fn lemma_liveness(heartbeat: i128, now: i128, rate: u128)
    requires
        representable_nanos(heartbeat),
        rate > 0,
    ensures
        running_at(Some(heartbeat), heartbeat, rate),
        now - heartbeat >= 2 * rate ==> !running_at(Some(heartbeat), now, rate),
        !running_at(None, now, rate),
{
}

} // verus!
