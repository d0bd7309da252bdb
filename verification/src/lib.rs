//! Consolidation of device-activity records into one unified store.
//!
//! The records of a messaging store, a browser history store, a device-usage
//! telemetry store and a media-listening store are read from a private copy
//! of each source, brought into one shape, given an identity key, and stored
//! in a unified store that holds each record once.
//!
//! But for the storage engine, which opens the databases it is given, the
//! file system is not touched here. The caller finds out what exists, copies
//! the source, and hands in what it saw; which path is taken, what a row
//! becomes, and what a run comes to is decided here.

use vstd::prelude::*;
use crate::collectors::base::{database_error, is_run_result, Collector, Snapshot};
use crate::collectors::create_collector;
use crate::locate::{expand_paths, first_present, is_expansion_of, seen, texts_of};
use crate::text::{join_path, joined_path};

pub mod clock;
pub mod collectors;
pub mod error;
pub mod locate;
pub mod schema;
pub mod sqlite;
pub mod store;
pub mod text;
pub mod timestamp;
pub mod types;
pub mod uniffi_api;

pub use crate::error::Error;
pub use crate::types::{CollectorType, ExtractionConfig as CoreExtractionConfig, ExtractionResult};

verus! {

/// The path of the unified store below the output directory.
pub open spec fn unified_db_path(output_dir: Seq<char>) -> Seq<char> {
    joined_path(output_dir, "unified.db"@)
}

/// Opens the unified store below `output_dir`, which is made where it is
/// not there, and makes its tables where they are not there.
pub fn open_unified_db(output_dir: &str) -> (r: Result<rusqlite::Connection, Error>)
    ensures
        r matches Err(e) ==> e is Database,
{
    let db_path = join_path(output_dir, "unified.db");
    let conn = match sqlite::open(db_path.as_str()) {
        Ok(conn) => conn,
        Err(failure) => {
            return Err(database_error(failure));
        },
    };
    match schema::init_database(&conn) {
        Ok(_) => Ok(conn),
        Err(e) => Err(e),
    }
}

/// The first of `paths` that was seen to exist, with its tilde expanded:
/// `present[i]` tells whether `paths[i]`, with its tilde expanded, exists.
pub fn find_source_db(paths: &[String], present: &[bool]) -> (r: Option<String>)
    ensures
        match r {
            Some(path) => exists|i: int|
                0 <= i < paths@.len() && seen(present@, i) && is_expansion_of(
                    (#[trigger] paths@[i])@,
                    path@,
                ) && forall|k: int| 0 <= k < i ==> !seen(present@, k),
            None => forall|i: int| 0 <= i < paths@.len() ==> !seen(present@, i),
        },
{
    let expanded = expand_paths(paths);
    let found = first_present(expanded.as_slice(), present);
    proof {
        if found is Some {
            let path = found.unwrap();
            let i = choose|i: int|
                0 <= i < expanded@.len() && seen(present@, i) && path == expanded@[i] && forall|
                    k: int,
                | 0 <= k < i ==> !seen(present@, k);
            assert(texts_of(paths@)[i] == paths@[i]@);
            assert(is_expansion_of(paths@[i]@, expanded@[i]@));
        }
    }
    found
}

/// Extracts one source into the unified store behind `unified_db`:
/// `snapshot` tells what became of locating and copying it.
pub fn extract_into(
    config: &CoreExtractionConfig,
    unified_db: &rusqlite::Connection,
    collector_type: CollectorType,
    snapshot: Snapshot,
) -> (r: ExtractionResult)
    ensures
        is_run_result(collector_type.name_text(), snapshot, r),
{
    match create_collector(collector_type, config, unified_db) {
        Ok(collector) => {
            let mut collector = collector;
            match collector.run(snapshot) {
                Ok(result) => result,
                Err(_) => unreached(),
            }
        },
        Err(_) => unreached(),
    }
}

/// Extracts one source: `snapshot` tells what became of locating and
/// copying it. Fails only where the unified store cannot be opened.
pub fn extract_source(
    config: &CoreExtractionConfig,
    collector_type: CollectorType,
    snapshot: Snapshot,
) -> (r: Result<ExtractionResult, Error>)
    ensures
        match r {
            Ok(result) => is_run_result(collector_type.name_text(), snapshot, result),
            Err(e) => e is Database,
        },
{
    match open_unified_db(config.output_dir.as_str()) {
        Ok(unified_db) => Ok(extract_into(config, &unified_db, collector_type, snapshot)),
        Err(e) => Err(e),
    }
}

/// What became of locating and copying the source at `at`: a source without
/// an entry counts as not found.
pub open spec fn snapshot_at(snapshots: Seq<Snapshot>, at: int) -> Snapshot {
    if 0 <= at < snapshots.len() {
        snapshots[at]
    } else {
        Snapshot::NotFound
    }
}

/// Whether `results` are the results of a batch over `snapshots`: one
/// result for each kind of source, in the order of the kinds, each what a
/// run of its kind can come to with the snapshot of that kind.
pub open spec fn is_batch(snapshots: Seq<Snapshot>, results: Seq<ExtractionResult>) -> bool {
    &&& results.len() == CollectorType::all_types().len()
    &&& forall|i: int|
        0 <= i < results.len() ==> is_run_result(
            CollectorType::all_types()[i].name_text(),
            snapshot_at(snapshots, i),
            #[trigger] results[i],
        )
}

/// A batch in progress: the results of the kinds extracted so far, in the
/// order of [`CollectorType::all`]. The caller locates and copies the source
/// of the kind that is next, and hands in what became of it.
pub struct Batch {
    pub results: Vec<ExtractionResult>,
}

impl Batch {
    /// The kind of source that is extracted next; none where every kind has
    /// its result.
    pub open spec fn pending(self) -> Option<CollectorType> {
        if self.results@.len() < CollectorType::all_types().len() {
            Some(CollectorType::all_types()[self.results@.len() as int])
        } else {
            None
        }
    }

    /// A batch of which nothing is extracted yet.
    pub fn new() -> (r: Batch)
        ensures
            r.results@.len() == 0,
    {
        Batch { results: Vec::new() }
    }

    /// The kind of source that is extracted next.
    pub fn next(&self) -> (r: Option<CollectorType>)
        ensures
            r == self.pending(),
    {
        let types = CollectorType::all();
        if self.results.len() < types.len() {
            Some(types[self.results.len()])
        } else {
            None
        }
    }

    /// Extracts the source of the kind that is next into the unified store
    /// behind `unified_db`, and adds its result: `snapshot` tells what
    /// became of locating and copying that source. Whatever the result is,
    /// the batch goes on to the next kind. Where no kind is left, nothing
    /// happens.
    pub fn extract(
        &mut self,
        config: &CoreExtractionConfig,
        unified_db: &rusqlite::Connection,
        snapshot: Snapshot,
    )
        ensures
            match old(self).pending() {
                Some(kind) => {
                    &&& final(self).results@.len() == old(self).results@.len() + 1
                    &&& final(self).results@.drop_last() == old(self).results@
                    &&& is_run_result(kind.name_text(), snapshot, final(self).results@.last())
                },
                None => final(self).results@ == old(self).results@,
            },
    {
        match self.next() {
            Some(kind) => {
                let result = extract_into(config, unified_db, kind, snapshot);
                self.results.push(result);
                assert(self.results@.drop_last() =~= old(self).results@);
            },
            None => {},
        }
    }

    /// The results of the batch.
    pub fn finish(self) -> (r: Vec<ExtractionResult>)
        ensures
            r == self.results,
    {
        self.results
    }
}

/// Extracts all kinds of source into the unified store behind
/// `unified_db`, one after another, in the order of
/// [`CollectorType::all`]: `snapshots[i]` tells what became of locating and
/// copying the source of the kind at `i`, and a kind without an entry counts
/// as not found. Every kind has its result; a source that fails does not
/// keep the others from being extracted.
pub fn extract_all_into(
    config: &CoreExtractionConfig,
    unified_db: &rusqlite::Connection,
    snapshots: Vec<Snapshot>,
) -> (r: Vec<ExtractionResult>)
    ensures
        is_batch(snapshots@, r@),
{
    let ghost given = snapshots@;
    let mut snapshots = snapshots;
    let mut batch = Batch::new();
    let kinds: usize = CollectorType::all().len();
    let mut at: usize = 0;
    while at < kinds
        invariant
            kinds == CollectorType::all_types().len(),
            snapshots@.len() == given.len(),
            forall|k: int| at <= k < given.len() ==> snapshots@[k] == given[k],
            batch.results@.len() == at,
            at <= CollectorType::all_types().len(),
            forall|i: int|
                0 <= i < at ==> is_run_result(
                    CollectorType::all_types()[i].name_text(),
                    snapshot_at(given, i),
                    #[trigger] batch.results@[i],
                ),
        decreases CollectorType::all_types().len() - at,
    {
        let snapshot = if at < snapshots.len() {
            let mut taken = Snapshot::NotFound;
            std::mem::swap(&mut snapshots[at], &mut taken);
            taken
        } else {
            Snapshot::NotFound
        };
        assert(snapshot == snapshot_at(given, at as int));
        let ghost before = batch.results@;
        batch.extract(config, unified_db, snapshot);
        proof {
            assert forall|i: int| 0 <= i < at + 1 implies is_run_result(
                CollectorType::all_types()[i].name_text(),
                snapshot_at(given, i),
                #[trigger] batch.results@[i],
            ) by {
                if i < at {
                    assert(batch.results@[i] == batch.results@.drop_last()[i]);
                    assert(batch.results@[i] == before[i]);
                }
            }
        }
        at = at + 1;
    }
    batch.finish()
}

/// Extracts all kinds of source, as [`extract_all_into`] does, into the
/// unified store below the output directory. Where that store cannot be
/// opened no source is extracted, and there are no results.
pub fn extract_all(config: &CoreExtractionConfig, snapshots: Vec<Snapshot>) -> (r: Result<
    Vec<ExtractionResult>,
    Error,
>)
    ensures
        r is Ok,
        r.unwrap()@.len() == 0 || is_batch(snapshots@, r.unwrap()@),
{
    match open_unified_db(config.output_dir.as_str()) {
        Ok(unified_db) => Ok(extract_all_into(config, &unified_db, snapshots)),
        Err(_) => Ok(Vec::new()),
    }
}

} // verus!
