//! What all collectors share: the counters, the store of one record, the run
//! ledger, and the course of one run.

use vstd::prelude::*;
use crate::error::Error;
use crate::locate::{
    are_expansions_of, chrome_root, chrome_target, discover_chrome_history_db,
    discover_podcasts_db, expand_paths, expand_tilde, first_present, is_chrome_match,
    is_expansion_of, is_first_podcasts_match, is_newest_match, is_podcasts_match, podcasts_root,
    podcasts_target, seen, texts_of, ScannedDir,
};
use crate::sqlite::{bound_values, execute, last_insert_rowid, open, SqlFailure, SqlParam};
use crate::text::{join_path, joined_path, lowercase, same_text, to_lowercase};
use crate::timestamp::now_unix;
use crate::types::{ExtractionConfig, ExtractionResult, ExtractionStatus};

verus! {

/// The most rows that one query is read to. The extraction of a source
/// that yields more fails with [`Error::ExtractionFailed`]; this bounds
/// every reading loop.
pub const ROW_LIMIT: u64 = 0xffff_ffff_ffff_ffff;

/// A count raised by one; a count that cannot grow stays.
pub open spec fn bumped(n: usize) -> usize {
    if n < usize::MAX {
        (n + 1) as usize
    } else {
        n
    }
}

/// A count raised by one; a count that cannot grow stays.
pub fn bump(n: usize) -> (r: usize)
    ensures
        r == bumped(n),
{
    if n < usize::MAX {
        n + 1
    } else {
        n
    }
}

/// What became of the attempt to store one record.
#[derive(Debug, Clone, PartialEq, Eq)]
pub enum InsertOutcome {
    /// The record is new and was stored.
    Inserted,
    /// The store holds a record of the same identity key already.
    Duplicate,
    /// The store failed otherwise.
    Failed(Error),
}

/// What an answer of the store means: a stored record, a duplicate where a
/// constraint of uniqueness refused it, and a failure with the store's text
/// for every other refusal.
pub open spec fn insert_outcome(answer: Result<usize, SqlFailure>) -> InsertOutcome {
    match answer {
        Ok(_) => InsertOutcome::Inserted,
        Err(failure) => if failure.is_uniqueness_violation() {
            InsertOutcome::Duplicate
        } else {
            InsertOutcome::Failed(Error::Database(failure.text))
        },
    }
}

/// Reads the store's answer to an insert.
pub fn classify_insert(answer: Result<usize, SqlFailure>) -> (r: InsertOutcome)
    ensures
        r == insert_outcome(answer),
{
    match answer {
        Ok(_) => InsertOutcome::Inserted,
        Err(failure) => if failure.uniqueness_violation() {
            InsertOutcome::Duplicate
        } else {
            InsertOutcome::Failed(Error::Database(failure.text))
        },
    }
}

/// The counts `(added, skipped)` after an outcome.
pub open spec fn counted(counts: (usize, usize), outcome: InsertOutcome) -> (usize, usize) {
    match outcome {
        InsertOutcome::Inserted => (bumped(counts.0), counts.1),
        InsertOutcome::Duplicate => (counts.0, bumped(counts.1)),
        InsertOutcome::Failed(_) => counts,
    }
}

/// Whether the counts `after` are the counts `before` with one record
/// more, added or skipped.
pub open spec fn one_more(before: (usize, usize), after: (usize, usize)) -> bool {
    after == counted(before, InsertOutcome::Inserted) || after == counted(
        before,
        InsertOutcome::Duplicate,
    )
}

/// Whether neither count of `after` lies below that of `before`.
pub open spec fn not_below(before: (usize, usize), after: (usize, usize)) -> bool {
    before.0 <= after.0 && before.1 <= after.1
}

/// The failure of the storage engine as a failure of the library.
pub fn database_error(failure: SqlFailure) -> (r: Error)
    ensures
        r == Error::Database(failure.text),
{
    Error::Database(failure.text)
}

/// Whether a natural key is present: it is there and not empty.
pub open spec fn is_key(key: Option<String>) -> bool {
    key is Some && key.unwrap()@.len() > 0
}

/// The natural key, where it is present.
pub fn present_key(key: Option<String>) -> (r: Option<String>)
    ensures
        match r {
            Some(k) => is_key(key) && key == Some(k),
            None => !is_key(key),
        },
{
    match key {
        Some(k) => if k.as_str().is_empty() {
            None
        } else {
            Some(k)
        },
        None => None,
    }
}

/// Whether a failure is that of a source that holds more rows than are
/// read.
pub open spec fn is_row_limit_failure(e: Error) -> bool {
    e matches Error::ExtractionFailed(reason) && reason@
        == "the source holds more rows than can be read"@
}

/// The failure of a source that holds more rows than are read.
pub fn too_many_rows() -> (r: Error)
    ensures
        is_row_limit_failure(r),
{
    Error::ExtractionFailed(String::from_str("the source holds more rows than can be read"))
}

/// What became of locating a source and copying it.
#[derive(Debug, Clone, PartialEq, Eq)]
pub enum Snapshot {
    /// No candidate path exists.
    NotFound,
    /// The copy failed.
    Failed(Error),
    /// The source was found at `source`, and its copy is at `copy`.
    Taken { source: String, copy: String },
}

/// The step of taking a snapshot at which a file operation failed.
#[derive(Debug, Clone, Copy, PartialEq, Eq, Structural)]
pub enum CopyStep {
    /// Making the directory of the snapshots.
    CreateDir,
    /// Removing the former snapshot.
    RemoveOld,
    /// Copying the source.
    Copy,
}

/// A failed file operation, in plain values.
#[derive(Debug, Clone, PartialEq, Eq)]
pub struct IoFailure {
    /// The step that failed.
    pub step: CopyStep,
    /// Whether the operation was refused for want of permission.
    pub permission_denied: bool,
    /// The operating system's own text.
    pub text: String,
}

/// What a failed snapshot of the source at `source_path` is reported as: a
/// copy that was refused for want of permission, as that, with the path of
/// the source; any other failed copy, as a failed copy with the cause; a
/// failure before the copy, as a failed file operation.
pub open spec fn snapshot_error(source_path: String, failure: IoFailure) -> Error {
    match failure.step {
        CopyStep::Copy => if failure.permission_denied {
            Error::PermissionDenied { path: source_path }
        } else {
            Error::CopyFailed(failure.text)
        },
        _ => Error::Io(failure.text),
    }
}

/// What a failed snapshot of the source at `source_path` is reported as.
pub fn copy_failure(source_path: String, failure: IoFailure) -> (r: Error)
    ensures
        r == snapshot_error(source_path, failure),
{
    match failure.step {
        CopyStep::Copy => if failure.permission_denied {
            Error::PermissionDenied { path: source_path }
        } else {
            Error::CopyFailed(failure.text)
        },
        _ => Error::Io(failure.text),
    }
}

/// What became of locating the source and copying it to `destination`:
/// `located` is the path of the source, if one was found, and `copied` tells
/// how the copy went.
pub fn snapshot_outcome(
    located: Option<String>,
    destination: String,
    copied: Result<(), IoFailure>,
) -> (r: Snapshot)
    ensures
        r == match located {
            None => Snapshot::NotFound,
            Some(source_path) => match copied {
                Ok(_) => (Snapshot::Taken { source: source_path, copy: destination }),
                Err(failure) => Snapshot::Failed(snapshot_error(source_path, failure)),
            },
        },
{
    match located {
        None => Snapshot::NotFound,
        Some(source_path) => match copied {
            Ok(_) => Snapshot::Taken { source: source_path, copy: destination },
            Err(failure) => Snapshot::Failed(copy_failure(source_path, failure)),
        },
    }
}

/// The state that every collector holds.
pub struct BaseCollector<'a> {
    pub name: String,
    pub config: &'a ExtractionConfig,
    pub unified_db: &'a rusqlite::Connection,
    pub records_added: usize,
    pub records_skipped: usize,
}

impl<'a> BaseCollector<'a> {
    /// The counts `(added, skipped)`.
    pub open spec fn counts(&self) -> (usize, usize) {
        (self.records_added, self.records_skipped)
    }

    /// The state of a collector named `name` that has stored nothing yet.
    pub fn new(name: String, config: &'a ExtractionConfig, unified_db: &'a rusqlite::Connection) -> (r:
        Self)
        ensures
            r.name == name,
            r.config == config,
            r.unified_db == unified_db,
            r.counts() == (0usize, 0usize),
    {
        BaseCollector { name, config, unified_db, records_added: 0, records_skipped: 0 }
    }

    /// Counts an outcome: a stored record as added, a duplicate as skipped.
    /// A failure is handed back and counts as neither.
    pub fn record(&mut self, outcome: InsertOutcome) -> (r: Result<(), Error>)
        ensures
            final(self).counts() == counted(old(self).counts(), outcome),
            final(self).name == old(self).name,
            final(self).config == old(self).config,
            final(self).unified_db == old(self).unified_db,
            match outcome {
                InsertOutcome::Failed(e) => r == Err::<(), Error>(e),
                _ => r is Ok,
            },
    {
        match outcome {
            InsertOutcome::Inserted => {
                self.records_added = bump(self.records_added);
                Ok(())
            },
            InsertOutcome::Duplicate => {
                self.records_skipped = bump(self.records_skipped);
                Ok(())
            },
            InsertOutcome::Failed(e) => Err(e),
        }
    }

    /// Runs the insert `sql` with `params` on the unified store and counts
    /// what became of it.
    pub fn store(&mut self, sql: &str, params: &Vec<SqlParam>) -> (r: Result<(), Error>)
        ensures
            final(self).name == old(self).name,
            final(self).config == old(self).config,
            final(self).unified_db == old(self).unified_db,
            match r {
                Ok(_) => one_more(old(self).counts(), final(self).counts()),
                Err(e) => final(self).counts() == old(self).counts() && e is Database,
            },
    {
        let answer = execute(self.unified_db, sql, bound_values(params));
        let outcome = classify_insert(answer);
        self.record(outcome)
    }
}

/// The statement that opens an entry of the run ledger.
pub const START_RUN_SQL: &'static str =
    "INSERT INTO extraction_runs (started_at, source, status) VALUES (?, ?, 'running')";

/// The statement that closes an entry of the run ledger.
pub const COMPLETE_RUN_SQL: &'static str =
    "UPDATE extraction_runs SET completed_at = ?, records_added = ?, records_skipped = ?, status = ? WHERE id = ?";

/// A count as the ledger stores it: the count itself, or the largest number
/// the ledger holds where the count is larger.
pub open spec fn ledger_count(n: usize) -> i64 {
    if n > i64::MAX {
        i64::MAX
    } else {
        n as i64
    }
}

/// A count as the ledger stores it.
pub fn to_ledger_count(n: usize) -> (r: i64)
    ensures
        r == ledger_count(n),
{
    let wide: u64 = n as u64;
    if wide > 0x7fff_ffff_ffff_ffffu64 {
        i64::MAX
    } else {
        wide as i64
    }
}

/// What is bound to the statement that opens a ledger entry.
pub fn start_run_params(now: i64, name: &str) -> (r: Vec<SqlParam>)
    ensures
        r@.len() == 2,
        r@[0] == SqlParam::Integer(now),
        r@[1] matches SqlParam::Text(t) && t@ == name@,
{
    let mut params: Vec<SqlParam> = Vec::new();
    params.push(SqlParam::Integer(now));
    params.push(SqlParam::Text(String::from_str(name)));
    params
}

/// What is bound to the statement that closes a ledger entry.
pub fn complete_run_params(
    now: i64,
    run_id: i64,
    status: &str,
    records_added: usize,
    records_skipped: usize,
) -> (r: Vec<SqlParam>)
    ensures
        r@.len() == 5,
        r@[0] == SqlParam::Integer(now),
        r@[1] == SqlParam::Integer(ledger_count(records_added)),
        r@[2] == SqlParam::Integer(ledger_count(records_skipped)),
        r@[3] matches SqlParam::Text(t) && t@ == status@,
        r@[4] == SqlParam::Integer(run_id),
{
    let mut params: Vec<SqlParam> = Vec::new();
    params.push(SqlParam::Integer(now));
    params.push(SqlParam::Integer(to_ledger_count(records_added)));
    params.push(SqlParam::Integer(to_ledger_count(records_skipped)));
    params.push(SqlParam::Text(String::from_str(status)));
    params.push(SqlParam::Integer(run_id));
    params
}

/// The reason given where no source was found.
pub open spec fn not_found_reason(name: Seq<char>) -> Seq<char> {
    "Source database not found for "@ + name
}

/// The reason given where the copy failed with `error`.
pub open spec fn copy_failed_reason(error: Error) -> Seq<char> {
    "Failed to copy source database: "@ + error.text()
}

/// The path of the private copy of the source named `name`.
pub open spec fn snapshot_path_of(config: ExtractionConfig, name: Seq<char>) -> Seq<char> {
    joined_path(config.source_db_dir@, name + ".db"@)
}

/// Whether `located` is the path that the search for a source named
/// `lower_name` comes to: the first candidate that was seen to exist; where
/// none was, for the media-listening store what the group-container scan
/// picks, and for the browser history store what the profile-directory scan
/// picks; else nothing.
pub open spec fn is_located(
    lower_name: Seq<char>,
    candidates: Seq<String>,
    present: Seq<bool>,
    root: Seq<char>,
    scanned: Seq<ScannedDir>,
    located: Option<String>,
) -> bool {
    if exists|i: int| 0 <= i < candidates.len() && seen(present, i) {
        located matches Some(path) && exists|i: int|
            0 <= i < candidates.len() && seen(present, i) && path == candidates[i] && forall|
                k: int,
            |
                0 <= k < i ==> !seen(present, k)
    } else if lower_name == "podcasts"@ {
        match located {
            Some(path) => exists|at: int|
                is_first_podcasts_match(scanned, at) && path@ == podcasts_target(
                    root,
                    scanned[at].name@,
                ),
            None => forall|i: int|
                0 <= i < scanned.len() ==> !is_podcasts_match(#[trigger] scanned[i]),
        }
    } else if lower_name == "chrome"@ {
        match located {
            Some(path) => exists|best: int|
                is_newest_match(scanned, scanned.len() as int, best) && path@ == chrome_target(
                    root,
                    scanned[best].name@,
                ),
            None => forall|i: int|
                0 <= i < scanned.len() ==> !is_chrome_match(#[trigger] scanned[i]),
        }
    } else {
        located is None
    }
}

/// The paths that are searched: those that the configuration names in
/// place of the default ones, else the default ones.
pub open spec fn searched_paths(settings: ExtractionConfig, default_paths: Seq<Seq<char>>) -> Seq<
    Seq<char>,
> {
    match settings.custom_source_paths {
        Some(custom) => texts_of(custom@),
        None => default_paths,
    }
}

/// A failure of an extraction as it is reported for a source that was found
/// at `source`: a permission failure names that path; every other failure
/// stays as it is.
pub open spec fn failure_at(e: Error, source: String) -> Error {
    match e {
        Error::PermissionDenied { .. } => Error::PermissionDenied { path: source },
        _ => e,
    }
}

/// A failure of an extraction as it is reported for a source that was found
/// at `source`.
pub fn at_source(e: Error, source: String) -> (r: Error)
    ensures
        r == failure_at(e, source),
{
    match e {
        Error::PermissionDenied { .. } => Error::PermissionDenied { path: source },
        other => other,
    }
}

/// The status and the counts that close the ledger entry of a run whose
/// extraction came to `extracted` with the counts `counts`: completed with
/// the counts, or failed without counts.
pub open spec fn closing_of(extracted: Result<(), Error>, counts: (usize, usize)) -> (
    ExtractionStatus,
    usize,
    usize,
) {
    match extracted {
        Ok(_) => (ExtractionStatus::Completed, counts.0, counts.1),
        Err(_) => (ExtractionStatus::Failed, 0usize, 0usize),
    }
}

/// The status and the counts that close the ledger entry of a run.
pub fn ledger_closing(extracted: &Result<(), Error>, counts: (usize, usize)) -> (r: (
    ExtractionStatus,
    usize,
    usize,
))
    ensures
        r == closing_of(*extracted, counts),
{
    match extracted {
        Ok(_) => (ExtractionStatus::Completed, counts.0, counts.1),
        Err(_) => (ExtractionStatus::Failed, 0, 0),
    }
}

/// The course that the run of a copied source took.
#[derive(Debug, PartialEq, Eq)]
pub enum Course {
    /// The ledger entry could not be opened; nothing was extracted.
    NotEntered(Error),
    /// The ledger entry was opened: the extraction came to `extracted` and
    /// left the counts `added` and `skipped`, and closing the entry came to
    /// `closed`.
    Entered { extracted: Result<(), Error>, added: usize, skipped: usize, closed: Result<(), Error> },
}

/// Whether `result` is what the result `before` of a run becomes when the
/// run took the course `course`: completed with the counts where the
/// extraction succeeded and the ledger entry was closed; else failed, for
/// the reason of the ledger where it failed, and for that of the extraction
/// otherwise.
pub open spec fn is_run_outcome(before: ExtractionResult, course: Course, result: ExtractionResult) -> bool {
    match course {
        Course::NotEntered(e) => result.is_failure_with(before, e.text()),
        Course::Entered { extracted, added, skipped, closed } => match closed {
            Err(e) => result.is_failure_with(before, e.text()),
            Ok(_) => match extracted {
                Ok(_) => result.is_completion_of(before, added, skipped),
                Err(e) => result.is_failure_with(before, e.text()),
            },
        },
    }
}

/// What the result `result` of a run becomes when the run took the course
/// `course`.
pub fn run_outcome(result: ExtractionResult, course: Course) -> (r: ExtractionResult)
    ensures
        is_run_outcome(result, course, r),
{
    match course {
        Course::NotEntered(e) => result.fail(e.to_string()),
        Course::Entered { extracted, added, skipped, closed } => match closed {
            Err(e) => result.fail(e.to_string()),
            Ok(_) => match extracted {
                Ok(_) => result.complete(added, skipped),
                Err(e) => result.fail(e.to_string()),
            },
        },
    }
}

/// Whether a course is one of a source that was found at `source`: where
/// its extraction failed for want of permission, the failure names that
/// path.
pub open spec fn is_course_at(course: Course, source: String) -> bool {
    course matches Course::Entered { extracted: Err(Error::PermissionDenied { path }), .. }
        ==> path == source
}

/// Whether `before` is the result of a run of the collector named `name`
/// that has just begun.
pub open spec fn is_begun(name: Seq<char>, before: ExtractionResult) -> bool {
    &&& before.source@ == name
    &&& before.records_added == 0
    &&& before.records_skipped == 0
    &&& before.completed_at is None
    &&& before.status == ExtractionStatus::Running
    &&& before.error_message is None
}

/// Whether `result` is what a run of the collector named `name` can come to
/// where locating and copying its source came to `snapshot`: a finished
/// result under the collector's name; a completed one only where the copy was
/// taken, and then without a reason; a failed one without counts and with a
/// reason, which is that of the missing source or of the failed copy where
/// the run ended there. For a copied source the result is that of a course
/// that the run can take ([`is_run_outcome`]).
pub open spec fn is_run_result(name: Seq<char>, snapshot: Snapshot, result: ExtractionResult) -> bool {
    &&& result.source@ == name
    &&& result.completed_at is Some
    &&& result.status != ExtractionStatus::Running
    &&& result.status == ExtractionStatus::Completed ==> snapshot is Taken
        && result.error_message is None
    &&& result.status == ExtractionStatus::Failed ==> result.records_added == 0
        && result.records_skipped == 0 && result.error_message is Some
    &&& snapshot is NotFound ==> result.status == ExtractionStatus::Failed
        && result.error_message.unwrap()@ == not_found_reason(name)
    &&& snapshot matches Snapshot::Failed(e) ==> result.status == ExtractionStatus::Failed
        && result.error_message.unwrap()@ == copy_failed_reason(e)
    &&& snapshot matches Snapshot::Taken { source, .. } ==> exists|
        before: ExtractionResult,
        course: Course,
    |
        is_begun(name, before) && is_course_at(course, source) && #[trigger] is_run_outcome(
            before,
            course,
            result,
        )
}

/// What a collector of one kind of source does.
pub trait Collector {
    /// The collector's name.
    spec fn name_text(&self) -> Seq<char>;

    /// The counts `(added, skipped)`.
    spec fn counts(&self) -> (usize, usize);

    /// The configuration that the collector was made with.
    spec fn settings(&self) -> ExtractionConfig;

    /// The paths at which the source is searched by default.
    spec fn default_paths(&self) -> Seq<Seq<char>>;

    /// The connection to the unified store that the collector was made
    /// with.
    spec fn unified_store(&self) -> rusqlite::Connection;

    /// The name of the collector.
    fn name(&self) -> (r: &str)
        ensures
            r@ == self.name_text(),
    ;

    /// The paths at which the source is searched by default.
    fn source_paths(&self) -> (r: Vec<String>)
        ensures
            texts_of(r@) == self.default_paths(),
    ;

    /// Reads the source behind `source_conn` and stores its records.
    /// Whatever comes of it, no count goes down.
    fn extract(&mut self, source_conn: &rusqlite::Connection) -> (r: Result<(), Error>)
        ensures
            not_below(old(self).counts(), final(self).counts()),
            final(self).name_text() == old(self).name_text(),
            final(self).settings() == old(self).settings(),
            final(self).unified_store() == old(self).unified_store(),
    ;

    /// The configuration.
    fn config(&self) -> (r: &ExtractionConfig)
        ensures
            *r == self.settings(),
    ;

    /// The connection to the unified store that the collector was made
    /// with.
    fn unified_db(&self) -> (r: &rusqlite::Connection)
        ensures
            *r == self.unified_store(),
    ;

    /// The counts `(added, skipped)`.
    fn get_counts(&self) -> (r: (usize, usize))
        ensures
            r == self.counts(),
    ;

    /// Counts one more record as added.
    fn increment_added(&mut self)
        ensures
            final(self).counts() == counted(old(self).counts(), InsertOutcome::Inserted),
            final(self).name_text() == old(self).name_text(),
            final(self).settings() == old(self).settings(),
    ;

    /// Counts one more record as skipped.
    fn increment_skipped(&mut self)
        ensures
            final(self).counts() == counted(old(self).counts(), InsertOutcome::Duplicate),
            final(self).name_text() == old(self).name_text(),
            final(self).settings() == old(self).settings(),
    ;

    /// Whether progress is to be reported.
    fn verbose(&self) -> (r: bool)
        ensures
            r == self.settings().verbose,
    {
        self.config().verbose
    }

    /// The paths that are tried for the source, in order, with the tilde of
    /// each expanded: those of the configuration where it names any, else
    /// the default ones.
    fn candidate_paths(&self) -> (r: Vec<String>)
        ensures
            are_expansions_of(searched_paths(self.settings(), self.default_paths()), r@),
    {
        let config = self.config();
        match &config.custom_source_paths {
            Some(custom) => {
                let paths = custom.as_slice();
                assert(texts_of(paths@) =~= texts_of(custom@));
                expand_paths(paths)
            },
            None => {
                let defaults = self.source_paths();
                let paths = defaults.as_slice();
                assert(texts_of(paths@) =~= texts_of(defaults@));
                expand_paths(paths)
            },
        }
    }

    /// The directory that is scanned where no candidate path exists, with
    /// its tilde expanded; nothing for a source that is not searched for.
    fn discovery_root(&self) -> (r: Option<String>)
        ensures
            match r {
                Some(root) => if lowercase(self.name_text()) == "podcasts"@ {
                    is_expansion_of(podcasts_root(), root@)
                } else {
                    lowercase(self.name_text()) == "chrome"@ && is_expansion_of(
                        chrome_root(),
                        root@,
                    )
                },
                None => lowercase(self.name_text()) != "podcasts"@ && lowercase(self.name_text())
                    != "chrome"@,
            },
    {
        let name = to_lowercase(self.name());
        if same_text(name.as_str(), "podcasts") {
            Some(expand_tilde("~/Library/Group Containers"))
        } else if same_text(name.as_str(), "chrome") {
            Some(expand_tilde("~/Library/Application Support/Google/Chrome"))
        } else {
            None
        }
    }

    /// The path, below an entry of the scanned directory, of the database
    /// that is searched for; nothing for a source that is not searched for.
    fn discovery_target(&self) -> (r: Option<&'static str>)
        ensures
            match r {
                Some(target) => if lowercase(self.name_text()) == "podcasts"@ {
                    target@ == "Documents/MTLibrary.sqlite"@
                } else {
                    lowercase(self.name_text()) == "chrome"@ && target@ == "History"@
                },
                None => lowercase(self.name_text()) != "podcasts"@ && lowercase(self.name_text())
                    != "chrome"@,
            },
    {
        let name = to_lowercase(self.name());
        if same_text(name.as_str(), "podcasts") {
            Some("Documents/MTLibrary.sqlite")
        } else if same_text(name.as_str(), "chrome") {
            Some("History")
        } else {
            None
        }
    }

    /// The path of the source: the first candidate path that was seen to
    /// exist (`present[i]` tells of `candidates[i]`), else what the scan of
    /// `root` with the entries `scanned` finds for this kind of source.
    fn find_source_db(
        &self,
        candidates: &[String],
        present: &[bool],
        root: &str,
        scanned: &[ScannedDir],
    ) -> (r: Option<String>)
        ensures
            is_located(
                lowercase(self.name_text()),
                candidates@,
                present@,
                root@,
                scanned@,
                r,
            ),
    {
        match first_present(candidates, present) {
            Some(path) => Some(path),
            None => {
                let name = to_lowercase(self.name());
                if same_text(name.as_str(), "podcasts") {
                    discover_podcasts_db(root, scanned)
                } else if same_text(name.as_str(), "chrome") {
                    discover_chrome_history_db(root, scanned)
                } else {
                    None
                }
            },
        }
    }

    /// The path at which the private copy of the source is kept.
    fn snapshot_path(&self) -> (r: String)
        ensures
            r@ == snapshot_path_of(self.settings(), self.name_text()),
    {
        let mut file = String::from_str(self.name());
        file.append(".db");
        join_path(self.config().source_db_dir.as_str(), file.as_str())
    }

    /// Opens an entry of the run ledger and returns its identity.
    fn start_extraction_run(&self) -> (r: Result<i64, Error>)
        ensures
            r matches Err(e) ==> e is Database,
    {
        let now = now_unix();
        let params = start_run_params(now, self.name());
        match execute(self.unified_db(), START_RUN_SQL, bound_values(&params)) {
            Ok(_) => Ok(last_insert_rowid(self.unified_db())),
            Err(failure) => Err(database_error(failure)),
        }
    }

    /// Closes the entry `run_id` of the run ledger.
    fn complete_extraction_run(
        &self,
        run_id: i64,
        status: &str,
        records_added: usize,
        records_skipped: usize,
    ) -> (r: Result<(), Error>)
        ensures
            r matches Err(e) ==> e is Database,
    {
        let now = now_unix();
        let params = complete_run_params(now, run_id, status, records_added, records_skipped);
        match execute(self.unified_db(), COMPLETE_RUN_SQL, bound_values(&params)) {
            Ok(_) => Ok(()),
            Err(failure) => Err(database_error(failure)),
        }
    }

    /// One run: the source was located and copied by the caller, who hands
    /// in what became of it; the run is entered in the ledger, the copy is
    /// read, and the ledger entry is closed.
    ///
    /// A run always comes to a result. Where no source was found and where
    /// the copy failed, the result is a failed one with that reason. For a
    /// copied source the result is that of the course the run took
    /// ([`run_outcome`]): the extraction's failure is reported for the path
    /// at which the source was found ([`at_source`]), and the ledger entry
    /// is closed with the status and counts of [`ledger_closing`].
    fn run(&mut self, snapshot: Snapshot) -> (r: Result<ExtractionResult, Error>)
        ensures
            r is Ok,
            is_run_result(old(self).name_text(), snapshot, r.unwrap()),
            r.unwrap().status == ExtractionStatus::Completed ==> {
                &&& r.unwrap().records_added == final(self).counts().0
                &&& r.unwrap().records_skipped == final(self).counts().1
            },
            !(snapshot is Taken) ==> final(self).counts() == old(self).counts(),
            not_below(old(self).counts(), final(self).counts()),
            final(self).name_text() == old(self).name_text(),
    {
        let result = ExtractionResult::new(String::from_str(self.name()));
        match snapshot {
            Snapshot::NotFound => {
                let mut reason = String::from_str("Source database not found for ");
                reason.append(self.name());
                Ok(result.fail(reason))
            },
            Snapshot::Failed(e) => {
                let mut reason = String::from_str("Failed to copy source database: ");
                let text = e.to_string();
                reason.append(text.as_str());
                Ok(result.fail(reason))
            },
            Snapshot::Taken { source, copy } => {
                let ghost before = result;
                let course = match self.start_extraction_run() {
                    Err(e) => Course::NotEntered(e),
                    Ok(run_id) => {
                        let extracted = match open(copy.as_str()) {
                            Ok(source_conn) => match self.extract(&source_conn) {
                                Ok(_) => Ok(()),
                                Err(e) => Err(at_source(e, source)),
                            },
                            Err(failure) => Err(database_error(failure)),
                        };
                        let counts = self.get_counts();
                        let (status, added, skipped) = ledger_closing(&extracted, counts);
                        let closed = self.complete_extraction_run(
                            run_id,
                            status.as_str(),
                            added,
                            skipped,
                        );
                        Course::Entered { extracted, added: counts.0, skipped: counts.1, closed }
                    },
                };
                let ghost taken = course;
                let outcome = run_outcome(result, course);
                assert(is_begun(old(self).name_text(), before) && is_course_at(taken, source)
                    && is_run_outcome(before, taken, outcome));
                Ok(outcome)
            },
        }
    }
}

} // verus!
