//! The collector of the browser history store.

use vstd::prelude::*;
use crate::collectors::base::{
    bump, database_error, is_row_limit_failure, not_below, one_more, too_many_rows, BaseCollector,
    Collector, ROW_LIMIT,
};
use crate::collectors::utils::{make_hash_from_values, record_hash};
use crate::error::Error;
use crate::sqlite::{
    cell_at, cells, column_int, column_opt_int, column_opt_text, column_text, next_row,
    opt_int_of, opt_int_param, opt_text_of, opt_text_param, opt_view, prepare, query, read_int,
    read_opt_int, read_opt_text, read_text, text_of, text_param, Cell, SqlFailure, SqlParam,
};
use crate::text::{decimal, i64_to_string};
use crate::timestamp::{chrome_to_unix_opt, chrome_unix};
use crate::types::{CollectorType, ExtractionConfig};

verus! {

/// The query that reads the visits of the history store.
pub const VISITS_QUERY: &'static str =
    "
            SELECT
                v.id,
                u.url,
                u.title,
                v.visit_time,
                v.visit_duration,
                v.transition
            FROM visits v
            JOIN urls u ON v.url = u.id
            ORDER BY v.visit_time
            ";

/// The statement that stores a visit. The duration is bound in microseconds
/// and stored in seconds.
pub const VISIT_INSERT: &'static str =
    "
                INSERT INTO web_visits
                (record_hash, url, title, visit_time, visit_duration_seconds, transition_type, browser)
                VALUES (?, ?, ?, ?, ? / 1000000.0, ?, 'chrome')
                ";

/// The name of the way in which a page was come to, by the core of the
/// transition value.
pub open spec fn transition_name(core: int) -> Seq<char> {
    if core == 0 {
        "link"@
    } else if core == 1 {
        "typed"@
    } else if core == 2 {
        "auto_bookmark"@
    } else if core == 3 {
        "auto_subframe"@
    } else if core == 4 {
        "manual_subframe"@
    } else if core == 5 {
        "generated"@
    } else if core == 6 {
        "auto_toplevel"@
    } else if core == 7 {
        "form_submit"@
    } else if core == 8 {
        "reload"@
    } else if core == 9 {
        "keyword"@
    } else if core == 10 {
        "keyword_generated"@
    } else {
        "other"@
    }
}

/// The name of the way in which a page was come to. The lowest eight bits
/// of the transition value hold its core; the bits above qualify it.
pub fn get_transition_type_name(transition: i64) -> (r: &'static str)
    ensures
        r@ == transition_name((transition & 0xFF) as int),
{
    let core: i64 = transition & 0xFF;
    if core == 0 {
        "link"
    } else if core == 1 {
        "typed"
    } else if core == 2 {
        "auto_bookmark"
    } else if core == 3 {
        "auto_subframe"
    } else if core == 4 {
        "manual_subframe"
    } else if core == 5 {
        "generated"
    } else if core == 6 {
        "auto_toplevel"
    } else if core == 7 {
        "form_submit"
    } else if core == 8 {
        "reload"
    } else if core == 9 {
        "keyword"
    } else if core == 10 {
        "keyword_generated"
    } else {
        "other"
    }
}

/// A visit as the history store holds it.
#[derive(Debug, Clone, PartialEq, Eq)]
pub struct VisitRow {
    pub url: String,
    pub title: Option<String>,
    /// Microseconds since 1601-01-01.
    pub visit_time: i64,
    /// Microseconds.
    pub duration: Option<i64>,
    pub transition: i64,
}

/// A visit as the unified store holds it.
#[derive(Debug, Clone, PartialEq, Eq)]
pub struct VisitRecord {
    pub record_hash: String,
    pub url: String,
    pub title: Option<String>,
    /// Unix seconds.
    pub visit_time: i64,
    /// Microseconds, not below zero.
    pub visit_duration_micros: Option<i64>,
    pub transition_type: String,
}

/// A duration that is not below zero: a negative one counts as none.
pub open spec fn clamped_duration(duration: Option<i64>) -> Option<i64> {
    match duration {
        Some(d) => if d > 0 {
            Some(d)
        } else {
            Some(0i64)
        },
        None => None,
    }
}

/// The natural-key parts of a visit: the address, the time of the visit as
/// the source holds it, and the browser.
pub open spec fn visit_key(row: VisitRow) -> Seq<Seq<char>> {
    seq![row.url@, decimal(row.visit_time as int), "chrome"@]
}

/// Whether `record` is the record of the visit `row`.
pub open spec fn is_visit_record(row: VisitRow, record: VisitRecord) -> bool {
    &&& record.record_hash@ == record_hash(visit_key(row))
    &&& record.url == row.url
    &&& record.title == row.title
    &&& chrome_unix(row.visit_time as int) == Some(record.visit_time as int)
    &&& record.visit_duration_micros == clamped_duration(row.duration)
    &&& record.transition_type@ == transition_name((row.transition & 0xFF) as int)
}

/// The record of a visit; none for a visit whose time is no timestamp.
pub fn visit_record(row: VisitRow) -> (r: Option<VisitRecord>)
    ensures
        match r {
            Some(record) => is_visit_record(row, record),
            None => row.visit_time <= 0,
        },
{
    let visit_time = match chrome_to_unix_opt(Some(row.visit_time)) {
        Some(ts) => ts,
        None => {
            return None;
        },
    };
    let visit_duration_micros = match row.duration {
        Some(d) => if d > 0 {
            Some(d)
        } else {
            Some(0i64)
        },
        None => None,
    };
    let transition_type = String::from_str(get_transition_type_name(row.transition));
    let visit_time_text = i64_to_string(row.visit_time);
    let mut parts: Vec<&str> = Vec::new();
    parts.push(row.url.as_str());
    parts.push(visit_time_text.as_str());
    parts.push("chrome");
    let record_hash = make_hash_from_values(parts.as_slice());
    assert(parts@.map_values(|p: &str| p@) =~= visit_key(row));
    Some(
        VisitRecord {
            record_hash,
            url: row.url,
            title: row.title,
            visit_time,
            visit_duration_micros,
            transition_type,
        },
    )
}

/// What is bound to the statement that stores a visit.
pub open spec fn visit_param_list(record: VisitRecord) -> Seq<SqlParam> {
    seq![
        text_of(record.record_hash),
        text_of(record.url),
        opt_text_of(record.title),
        SqlParam::Integer(record.visit_time),
        opt_int_of(record.visit_duration_micros),
        text_of(record.transition_type),
    ]
}

/// What is bound to the statement that stores a visit.
pub fn visit_params(record: &VisitRecord) -> (r: Vec<SqlParam>)
    ensures
        r@ == visit_param_list(*record),
{
    let mut params: Vec<SqlParam> = Vec::new();
    params.push(text_param(&record.record_hash));
    params.push(text_param(&record.url));
    params.push(opt_text_param(&record.title));
    params.push(SqlParam::Integer(record.visit_time));
    params.push(opt_int_param(record.visit_duration_micros));
    params.push(text_param(&record.transition_type));
    assert(params@ =~= visit_param_list(*record));
    params
}

/// Whether `read` is what the columns of a row of the visits query are read as:
/// every column holds what is read from it, and each field is its column,
/// in the order of the query.
pub open spec fn is_visit_row(columns: Seq<Cell>, read: VisitRow) -> bool {
    &&& read_int(cell_at(columns, 0)) is Some
    &&& read_text(cell_at(columns, 1)) == Some(read.url@)
    &&& read_opt_text(cell_at(columns, 2)) == Some(opt_view(read.title))
    &&& read_int(cell_at(columns, 3)) == Some(read.visit_time)
    &&& read_opt_int(cell_at(columns, 4)) == Some(read.duration)
    &&& read_int(cell_at(columns, 5)) == Some(read.transition)
}

/// Reads a row of the visits query; fails where a column does not hold what
/// is read from it.
fn read_visit_row(row: &rusqlite::Row<'_>) -> (r: Result<VisitRow, SqlFailure>)
    ensures
        match r {
            Ok(read) => is_visit_row(cells(*row), read),
            Err(failure) => failure.extended_code is None && forall|read: VisitRow|
                !#[trigger] is_visit_row(cells(*row), read),
        },
{
    let _visit_id = column_int(row, 0)?;
    let url = column_text(row, 1)?;
    let title = column_opt_text(row, 2)?;
    let visit_time = column_int(row, 3)?;
    let duration = column_opt_int(row, 4)?;
    let transition = column_int(row, 5)?;
    Ok(VisitRow { url, title, visit_time, duration, transition })
}

/// The collector of the browser history store.
pub struct ChromeCollector<'a> {
    pub base: BaseCollector<'a>,
}

impl<'a> ChromeCollector<'a> {
    /// A collector that has stored nothing yet.
    pub fn new(config: &'a ExtractionConfig, unified_db: &'a rusqlite::Connection) -> (r: Result<
        Self,
        Error,
    >)
        ensures
            r is Ok,
            r.unwrap().base.name@ == CollectorType::Chrome.name_text(),
            r.unwrap().base.config == config,
            r.unwrap().base.unified_db == unified_db,
            r.unwrap().base.counts() == (0usize, 0usize),
    {
        Ok(
            ChromeCollector {
                base: BaseCollector::new(
                    String::from_str(CollectorType::Chrome.name()),
                    config,
                    unified_db,
                ),
            },
        )
    }

    /// Stores the record of one visit and counts what became of it:
    /// a stored record as added, one that the store holds already as
    /// skipped. A row without a record counts nothing and is no failure; a
    /// failure of the store counts nothing.
    pub fn store_visit(&mut self, raw: VisitRow) -> (r: Result<(), Error>)
        ensures
            final(self).base.name == old(self).base.name,
            final(self).base.config == old(self).base.config,
            final(self).base.unified_db == old(self).base.unified_db,
            match r {
                Ok(_) => if raw.visit_time <= 0 {
                    final(self).base.counts() == old(self).base.counts()
                } else {
                    one_more(old(self).base.counts(), final(self).base.counts())
                },
                Err(e) => {
                    &&& !(raw.visit_time <= 0)
                    &&& e is Database
                    &&& final(self).base.counts() == old(self).base.counts()
                },
            },
    {
        match visit_record(raw) {
            Some(record) => {
                let params = visit_params(&record);
                self.base.store(VISIT_INSERT, &params)
            },
            None => Ok(()),
        }
    }

    /// Reads the visits of `source` in the order of their time and stores the
    /// record of each; a visit without a record is passed over.
    pub fn extract_visits(&mut self, source: &rusqlite::Connection) -> (r: Result<(), Error>)
        ensures
            not_below(old(self).base.counts(), final(self).base.counts()),
            final(self).base.name == old(self).base.name,
            final(self).base.config == old(self).base.config,
            final(self).base.unified_db == old(self).base.unified_db,
            r matches Err(e) ==> e is Database || is_row_limit_failure(e),
    {
        let mut stmt = match prepare(source, VISITS_QUERY) {
            Ok(stmt) => stmt,
            Err(failure) => {
                return Err(database_error(failure));
            },
        };
        let mut rows = match query(&mut stmt) {
            Ok(rows) => rows,
            Err(failure) => {
                return Err(database_error(failure));
            },
        };
        let mut budget: u64 = ROW_LIMIT;
        while budget > 0
            invariant
                not_below(old(self).base.counts(), self.base.counts()),
                self.base.name == old(self).base.name,
                self.base.config == old(self).base.config,
                self.base.unified_db == old(self).base.unified_db,
            decreases budget,
        {
            budget = budget - 1;
            let raw = match next_row(&mut rows) {
                Ok(Some(row)) => match read_visit_row(row) {
                    Ok(raw) => raw,
                    Err(failure) => {
                        return Err(database_error(failure));
                    },
                },
                Ok(None) => {
                    return Ok(());
                },
                Err(failure) => {
                    return Err(database_error(failure));
                },
            };
            match self.store_visit(raw) {
                Ok(_) => {},
                Err(e) => {
                    return Err(e);
                },
            }
        }
        Err(too_many_rows())
    }
}

impl<'a> Collector for ChromeCollector<'a> {
    open spec fn name_text(&self) -> Seq<char> {
        self.base.name@
    }

    open spec fn counts(&self) -> (usize, usize) {
        self.base.counts()
    }

    open spec fn settings(&self) -> ExtractionConfig {
        *self.base.config
    }

    open spec fn default_paths(&self) -> Seq<Seq<char>> {
        CollectorType::Chrome.default_paths()
    }

    open spec fn unified_store(&self) -> rusqlite::Connection {
        *self.base.unified_db
    }

    fn name(&self) -> (r: &str) {
        self.base.name.as_str()
    }

    fn source_paths(&self) -> (r: Vec<String>) {
        CollectorType::Chrome.default_source_paths()
    }

    /// The visits; a failure is one of the storage engine, or that of a
    /// source with more rows than are read.
    fn extract(&mut self, source_conn: &rusqlite::Connection) -> (r: Result<(), Error>)
        ensures
            r matches Err(e) ==> e is Database || is_row_limit_failure(e),
    {
        self.extract_visits(source_conn)
    }

    fn config(&self) -> (r: &ExtractionConfig) {
        self.base.config
    }

    fn unified_db(&self) -> (r: &rusqlite::Connection) {
        assert(self.unified_store() == *self.base.unified_db);
        self.base.unified_db
    }

    fn get_counts(&self) -> (r: (usize, usize)) {
        (self.base.records_added, self.base.records_skipped)
    }

    fn increment_added(&mut self) {
        self.base.records_added = bump(self.base.records_added);
    }

    fn increment_skipped(&mut self) {
        self.base.records_skipped = bump(self.base.records_skipped);
    }
}

} // verus!
