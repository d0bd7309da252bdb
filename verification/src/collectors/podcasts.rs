//! The collector of the media-listening store.

use vstd::prelude::*;
use crate::collectors::base::{
    bump, database_error, is_key, is_row_limit_failure, not_below, one_more, present_key, too_many_rows,
    BaseCollector, Collector, ROW_LIMIT,
};
use crate::error::Error;
use crate::sqlite::{
    cell_at, cells, column_int, column_number, column_opt_int, column_opt_text, column_real,
    next_row, opt_cell, opt_int_of, opt_int_param, opt_real_of, opt_real_param, opt_text_of,
    opt_text_param, opt_view, prepare, query, read_int, read_number, read_opt_int,
    read_opt_text, read_real, text_of, text_param, Cell, Real, SqlFailure, SqlParam,
};
use crate::timestamp::{apple_to_unix_opt, apple_unix_opt, Number};
use crate::types::{CollectorType, ExtractionConfig};

verus! {

/// The query that reads the shows that are subscribed to or were played.
pub const SHOWS_QUERY: &'static str =
    "
            SELECT
                Z_PK,
                ZUUID,
                ZTITLE,
                ZAUTHOR,
                ZFEEDURL,
                ZADDEDDATE,
                (SELECT COUNT(*) FROM ZMTEPISODE WHERE ZPODCAST = ZMTPODCAST.Z_PK) as episode_count
            FROM ZMTPODCAST
            WHERE ZSUBSCRIBED = 1 OR ZLASTDATEPLAYED IS NOT NULL
            ";

/// The statement that stores a show.
pub const SHOW_INSERT: &'static str =
    "
                INSERT INTO podcast_shows
                (record_hash, title, author, feed_url, subscribed_at, episode_count)
                VALUES (?, ?, ?, ?, ?, ?)
                ";

/// The query that reads the episodes that were played, the one played last
/// first.
pub const EPISODES_QUERY: &'static str =
    "
            SELECT
                e.Z_PK,
                e.ZUUID,
                e.ZTITLE,
                p.ZTITLE as show_title,
                p.ZUUID as show_uuid,
                e.ZDURATION,
                e.ZPLAYHEAD,
                e.ZPLAYCOUNT,
                e.ZLASTDATEPLAYED,
                e.ZPUBDATE
            FROM ZMTEPISODE e
            LEFT JOIN ZMTPODCAST p ON e.ZPODCAST = p.Z_PK
            WHERE e.ZPLAYCOUNT > 0 OR e.ZPLAYHEAD > 0 OR e.ZLASTDATEPLAYED IS NOT NULL
            ORDER BY e.ZLASTDATEPLAYED DESC
            ";

/// The statement that stores an episode.
pub const EPISODE_INSERT: &'static str =
    "
                INSERT INTO podcast_episodes
                (record_hash, episode_title, show_title, show_uuid, duration_seconds,
                 played_seconds, play_count, last_played_at, published_at)
                VALUES (?, ?, ?, ?, ?, ?, ?, ?, ?)
                ";

/// A show as the media-listening store holds it.
#[derive(Debug)]
pub struct ShowRow {
    pub uuid: Option<String>,
    pub title: Option<String>,
    pub author: Option<String>,
    pub feed_url: Option<String>,
    /// Seconds since 2001-01-01.
    pub added_date: Option<Number>,
    pub episode_count: Option<i64>,
}

/// A show as the unified store holds it. Its identifier of the source is its
/// identity key.
#[derive(Debug)]
pub struct ShowRecord {
    pub record_hash: String,
    pub title: Option<String>,
    pub author: Option<String>,
    pub feed_url: Option<String>,
    /// Unix seconds.
    pub subscribed_at: Option<i64>,
    pub episode_count: Option<i64>,
}

/// Whether `record` is the record of the show `row`.
pub open spec fn is_show_record(row: ShowRow, record: ShowRecord) -> bool {
    &&& is_key(row.uuid)
    &&& record.record_hash == row.uuid.unwrap()
    &&& record.title == row.title
    &&& record.author == row.author
    &&& record.feed_url == row.feed_url
    &&& record.subscribed_at == apple_unix_opt(row.added_date)
    &&& record.episode_count == row.episode_count
}

/// The record of a show; none for a show without an identifier.
pub fn show_record(row: ShowRow) -> (r: Option<ShowRecord>)
    ensures
        match r {
            Some(record) => is_show_record(row, record),
            None => !is_key(row.uuid),
        },
{
    match present_key(row.uuid) {
        Some(uuid) => Some(
            ShowRecord {
                record_hash: uuid,
                title: row.title,
                author: row.author,
                feed_url: row.feed_url,
                subscribed_at: apple_to_unix_opt(row.added_date),
                episode_count: row.episode_count,
            },
        ),
        None => None,
    }
}

/// What is bound to the statement that stores a show.
pub open spec fn show_param_list(record: ShowRecord) -> Seq<SqlParam> {
    seq![
        text_of(record.record_hash),
        opt_text_of(record.title),
        opt_text_of(record.author),
        opt_text_of(record.feed_url),
        opt_int_of(record.subscribed_at),
        opt_int_of(record.episode_count),
    ]
}

/// What is bound to the statement that stores a show.
pub fn show_params(record: &ShowRecord) -> (r: Vec<SqlParam>)
    ensures
        r@ == show_param_list(*record),
{
    let mut params: Vec<SqlParam> = Vec::new();
    params.push(text_param(&record.record_hash));
    params.push(opt_text_param(&record.title));
    params.push(opt_text_param(&record.author));
    params.push(opt_text_param(&record.feed_url));
    params.push(opt_int_param(record.subscribed_at));
    params.push(opt_int_param(record.episode_count));
    assert(params@ =~= show_param_list(*record));
    params
}

/// An episode as the media-listening store holds it.
#[derive(Debug)]
pub struct EpisodeRow {
    pub uuid: Option<String>,
    pub title: Option<String>,
    pub show_title: Option<String>,
    pub show_uuid: Option<String>,
    /// Seconds.
    pub duration: Option<Real>,
    /// Seconds.
    pub playhead: Option<Real>,
    pub play_count: Option<i64>,
    /// Seconds since 2001-01-01, as is the date that follows.
    pub last_played: Option<Number>,
    pub pub_date: Option<Number>,
}

/// An episode as the unified store holds it. Its identifier of the source is
/// its identity key.
#[derive(Debug)]
pub struct EpisodeRecord {
    pub record_hash: String,
    pub episode_title: Option<String>,
    pub show_title: Option<String>,
    pub show_uuid: Option<String>,
    pub duration_seconds: Option<Real>,
    pub played_seconds: Option<Real>,
    pub play_count: Option<i64>,
    /// Unix seconds, as is the time that follows.
    pub last_played_at: Option<i64>,
    pub published_at: Option<i64>,
}

/// Whether `record` is the record of the episode `row`.
pub open spec fn is_episode_record(row: EpisodeRow, record: EpisodeRecord) -> bool {
    &&& is_key(row.uuid)
    &&& record.record_hash == row.uuid.unwrap()
    &&& record.episode_title == row.title
    &&& record.show_title == row.show_title
    &&& record.show_uuid == row.show_uuid
    &&& record.duration_seconds == row.duration
    &&& record.played_seconds == row.playhead
    &&& record.play_count == row.play_count
    &&& record.last_played_at == apple_unix_opt(row.last_played)
    &&& record.published_at == apple_unix_opt(row.pub_date)
}

/// The record of an episode; none for an episode without an identifier.
pub fn episode_record(row: EpisodeRow) -> (r: Option<EpisodeRecord>)
    ensures
        match r {
            Some(record) => is_episode_record(row, record),
            None => !is_key(row.uuid),
        },
{
    match present_key(row.uuid) {
        Some(uuid) => Some(
            EpisodeRecord {
                record_hash: uuid,
                episode_title: row.title,
                show_title: row.show_title,
                show_uuid: row.show_uuid,
                duration_seconds: row.duration,
                played_seconds: row.playhead,
                play_count: row.play_count,
                last_played_at: apple_to_unix_opt(row.last_played),
                published_at: apple_to_unix_opt(row.pub_date),
            },
        ),
        None => None,
    }
}

/// What is bound to the statement that stores an episode.
pub open spec fn episode_param_list(record: EpisodeRecord) -> Seq<SqlParam> {
    seq![
        text_of(record.record_hash),
        opt_text_of(record.episode_title),
        opt_text_of(record.show_title),
        opt_text_of(record.show_uuid),
        opt_real_of(record.duration_seconds),
        opt_real_of(record.played_seconds),
        opt_int_of(record.play_count),
        opt_int_of(record.last_played_at),
        opt_int_of(record.published_at),
    ]
}

/// What is bound to the statement that stores an episode.
pub fn episode_params(record: &EpisodeRecord) -> (r: Vec<SqlParam>)
    ensures
        r@ == episode_param_list(*record),
{
    let mut params: Vec<SqlParam> = Vec::new();
    params.push(text_param(&record.record_hash));
    params.push(opt_text_param(&record.episode_title));
    params.push(opt_text_param(&record.show_title));
    params.push(opt_text_param(&record.show_uuid));
    params.push(opt_real_param(&record.duration_seconds));
    params.push(opt_real_param(&record.played_seconds));
    params.push(opt_int_param(record.play_count));
    params.push(opt_int_param(record.last_played_at));
    params.push(opt_int_param(record.published_at));
    assert(params@ =~= episode_param_list(*record));
    params
}

/// Whether `read` is what the columns of a row of the shows query are read as:
/// every column holds what is read from it, and each field is its column,
/// in the order of the query.
pub open spec fn is_show_row(columns: Seq<Cell>, read: ShowRow) -> bool {
    &&& read_int(cell_at(columns, 0)) is Some
    &&& read_opt_text(cell_at(columns, 1)) == Some(opt_view(read.uuid))
    &&& read_opt_text(cell_at(columns, 2)) == Some(opt_view(read.title))
    &&& read_opt_text(cell_at(columns, 3)) == Some(opt_view(read.author))
    &&& read_opt_text(cell_at(columns, 4)) == Some(opt_view(read.feed_url))
    &&& read_number(cell_at(columns, 5)) == Some(read.added_date)
    &&& read_opt_int(cell_at(columns, 6)) == Some(read.episode_count)
}

/// Reads a row of the shows query; fails where a column does not hold what
/// is read from it.
fn read_show_row(row: &rusqlite::Row<'_>) -> (r: Result<ShowRow, SqlFailure>)
    ensures
        match r {
            Ok(read) => is_show_row(cells(*row), read),
            Err(failure) => failure.extended_code is None && forall|read: ShowRow|
                !#[trigger] is_show_row(cells(*row), read),
        },
{
    let _pk = column_int(row, 0)?;
    let uuid = column_opt_text(row, 1)?;
    let title = column_opt_text(row, 2)?;
    let author = column_opt_text(row, 3)?;
    let feed_url = column_opt_text(row, 4)?;
    let added_date = column_number(row, 5)?;
    let episode_count = column_opt_int(row, 6)?;
    Ok(ShowRow { uuid, title, author, feed_url, added_date, episode_count })
}

/// Whether `read` is what the columns of a row of the episodes query are read as:
/// every column holds what is read from it, and each field is its column,
/// in the order of the query.
pub open spec fn is_episode_row(columns: Seq<Cell>, read: EpisodeRow) -> bool {
    &&& read_int(cell_at(columns, 0)) is Some
    &&& read_opt_text(cell_at(columns, 1)) == Some(opt_view(read.uuid))
    &&& read_opt_text(cell_at(columns, 2)) == Some(opt_view(read.title))
    &&& read_opt_text(cell_at(columns, 3)) == Some(opt_view(read.show_title))
    &&& read_opt_text(cell_at(columns, 4)) == Some(opt_view(read.show_uuid))
    &&& read_real(cell_at(columns, 5)) == Some(opt_cell(read.duration))
    &&& read_real(cell_at(columns, 6)) == Some(opt_cell(read.playhead))
    &&& read_opt_int(cell_at(columns, 7)) == Some(read.play_count)
    &&& read_number(cell_at(columns, 8)) == Some(read.last_played)
    &&& read_number(cell_at(columns, 9)) == Some(read.pub_date)
}

/// Reads a row of the episodes query; fails where a column does not hold
/// what is read from it.
fn read_episode_row(row: &rusqlite::Row<'_>) -> (r: Result<EpisodeRow, SqlFailure>)
    ensures
        match r {
            Ok(read) => is_episode_row(cells(*row), read),
            Err(failure) => failure.extended_code is None && forall|read: EpisodeRow|
                !#[trigger] is_episode_row(cells(*row), read),
        },
{
    let _pk = column_int(row, 0)?;
    let uuid = column_opt_text(row, 1)?;
    let title = column_opt_text(row, 2)?;
    let show_title = column_opt_text(row, 3)?;
    let show_uuid = column_opt_text(row, 4)?;
    let duration = column_real(row, 5)?;
    let playhead = column_real(row, 6)?;
    let play_count = column_opt_int(row, 7)?;
    let last_played = column_number(row, 8)?;
    let pub_date = column_number(row, 9)?;
    Ok(
        EpisodeRow {
            uuid,
            title,
            show_title,
            show_uuid,
            duration,
            playhead,
            play_count,
            last_played,
            pub_date,
        },
    )
}

/// The collector of the media-listening store.
pub struct PodcastsCollector<'a> {
    pub base: BaseCollector<'a>,
}

impl<'a> PodcastsCollector<'a> {
    /// A collector that has stored nothing yet.
    pub fn new(config: &'a ExtractionConfig, unified_db: &'a rusqlite::Connection) -> (r: Result<
        Self,
        Error,
    >)
        ensures
            r is Ok,
            r.unwrap().base.name@ == CollectorType::Podcasts.name_text(),
            r.unwrap().base.config == config,
            r.unwrap().base.unified_db == unified_db,
            r.unwrap().base.counts() == (0usize, 0usize),
    {
        Ok(
            PodcastsCollector {
                base: BaseCollector::new(
                    String::from_str(CollectorType::Podcasts.name()),
                    config,
                    unified_db,
                ),
            },
        )
    }

    /// Stores the record of one show and counts what became of it:
    /// a stored record as added, one that the store holds already as
    /// skipped. A row without a record counts nothing and is no failure; a
    /// failure of the store counts nothing.
    pub fn store_show(&mut self, raw: ShowRow) -> (r: Result<(), Error>)
        ensures
            final(self).base.name == old(self).base.name,
            final(self).base.config == old(self).base.config,
            final(self).base.unified_db == old(self).base.unified_db,
            match r {
                Ok(_) => if !is_key(raw.uuid) {
                    final(self).base.counts() == old(self).base.counts()
                } else {
                    one_more(old(self).base.counts(), final(self).base.counts())
                },
                Err(e) => {
                    &&& !(!is_key(raw.uuid))
                    &&& e is Database
                    &&& final(self).base.counts() == old(self).base.counts()
                },
            },
    {
        match show_record(raw) {
            Some(record) => {
                let params = show_params(&record);
                self.base.store(SHOW_INSERT, &params)
            },
            None => Ok(()),
        }
    }

    /// Reads the shows of `source` and stores the record of each; a show
    /// without a record is passed over.
    pub fn extract_shows(&mut self, source: &rusqlite::Connection) -> (r: Result<(), Error>)
        ensures
            not_below(old(self).base.counts(), final(self).base.counts()),
            final(self).base.name == old(self).base.name,
            final(self).base.config == old(self).base.config,
            final(self).base.unified_db == old(self).base.unified_db,
            r matches Err(e) ==> e is Database || is_row_limit_failure(e),
    {
        let mut stmt = match prepare(source, SHOWS_QUERY) {
            Ok(stmt) => stmt,
            Err(failure) => {
                return Err(database_error(failure));
            },
        };
        let mut rows = match query(&mut stmt) {
            Ok(rows) => rows,
            Err(failure) => {
                return Err(database_error(failure));
            },
        };
        let mut budget: u64 = ROW_LIMIT;
        while budget > 0
            invariant
                not_below(old(self).base.counts(), self.base.counts()),
                self.base.name == old(self).base.name,
                self.base.config == old(self).base.config,
                self.base.unified_db == old(self).base.unified_db,
            decreases budget,
        {
            budget = budget - 1;
            let raw = match next_row(&mut rows) {
                Ok(Some(row)) => match read_show_row(row) {
                    Ok(raw) => raw,
                    Err(failure) => {
                        return Err(database_error(failure));
                    },
                },
                Ok(None) => {
                    return Ok(());
                },
                Err(failure) => {
                    return Err(database_error(failure));
                },
            };
            match self.store_show(raw) {
                Ok(_) => {},
                Err(e) => {
                    return Err(e);
                },
            }
        }
        Err(too_many_rows())
    }

    /// Stores the record of one episode and counts what became of it:
    /// a stored record as added, one that the store holds already as
    /// skipped. A row without a record counts nothing and is no failure; a
    /// failure of the store counts nothing.
    pub fn store_episode(&mut self, raw: EpisodeRow) -> (r: Result<(), Error>)
        ensures
            final(self).base.name == old(self).base.name,
            final(self).base.config == old(self).base.config,
            final(self).base.unified_db == old(self).base.unified_db,
            match r {
                Ok(_) => if !is_key(raw.uuid) {
                    final(self).base.counts() == old(self).base.counts()
                } else {
                    one_more(old(self).base.counts(), final(self).base.counts())
                },
                Err(e) => {
                    &&& !(!is_key(raw.uuid))
                    &&& e is Database
                    &&& final(self).base.counts() == old(self).base.counts()
                },
            },
    {
        match episode_record(raw) {
            Some(record) => {
                let params = episode_params(&record);
                self.base.store(EPISODE_INSERT, &params)
            },
            None => Ok(()),
        }
    }

    /// Reads the episodes of `source`, the one played last first, and stores
    /// the record of each; an episode without a record is passed over.
    pub fn extract_episodes(&mut self, source: &rusqlite::Connection) -> (r: Result<(), Error>)
        ensures
            not_below(old(self).base.counts(), final(self).base.counts()),
            final(self).base.name == old(self).base.name,
            final(self).base.config == old(self).base.config,
            final(self).base.unified_db == old(self).base.unified_db,
            r matches Err(e) ==> e is Database || is_row_limit_failure(e),
    {
        let mut stmt = match prepare(source, EPISODES_QUERY) {
            Ok(stmt) => stmt,
            Err(failure) => {
                return Err(database_error(failure));
            },
        };
        let mut rows = match query(&mut stmt) {
            Ok(rows) => rows,
            Err(failure) => {
                return Err(database_error(failure));
            },
        };
        let mut budget: u64 = ROW_LIMIT;
        while budget > 0
            invariant
                not_below(old(self).base.counts(), self.base.counts()),
                self.base.name == old(self).base.name,
                self.base.config == old(self).base.config,
                self.base.unified_db == old(self).base.unified_db,
            decreases budget,
        {
            budget = budget - 1;
            let raw = match next_row(&mut rows) {
                Ok(Some(row)) => match read_episode_row(row) {
                    Ok(raw) => raw,
                    Err(failure) => {
                        return Err(database_error(failure));
                    },
                },
                Ok(None) => {
                    return Ok(());
                },
                Err(failure) => {
                    return Err(database_error(failure));
                },
            };
            match self.store_episode(raw) {
                Ok(_) => {},
                Err(e) => {
                    return Err(e);
                },
            }
        }
        Err(too_many_rows())
    }
}

impl<'a> Collector for PodcastsCollector<'a> {
    open spec fn name_text(&self) -> Seq<char> {
        self.base.name@
    }

    open spec fn counts(&self) -> (usize, usize) {
        self.base.counts()
    }

    open spec fn settings(&self) -> ExtractionConfig {
        *self.base.config
    }

    open spec fn default_paths(&self) -> Seq<Seq<char>> {
        CollectorType::Podcasts.default_paths()
    }

    open spec fn unified_store(&self) -> rusqlite::Connection {
        *self.base.unified_db
    }

    fn name(&self) -> (r: &str) {
        self.base.name.as_str()
    }

    fn source_paths(&self) -> (r: Vec<String>) {
        CollectorType::Podcasts.default_source_paths()
    }

    /// Shows, then episodes; the first failure ends it.
    fn extract(&mut self, source_conn: &rusqlite::Connection) -> (r: Result<(), Error>)
        ensures
            r matches Err(e) ==> e is Database || is_row_limit_failure(e),
    {
        self.extract_shows(source_conn)?;
        self.extract_episodes(source_conn)?;
        Ok(())
    }

    fn config(&self) -> (r: &ExtractionConfig) {
        self.base.config
    }

    fn unified_db(&self) -> (r: &rusqlite::Connection) {
        assert(self.unified_store() == *self.base.unified_db);
        self.base.unified_db
    }

    fn get_counts(&self) -> (r: (usize, usize)) {
        (self.base.records_added, self.base.records_skipped)
    }

    fn increment_added(&mut self) {
        self.base.records_added = bump(self.base.records_added);
    }

    fn increment_skipped(&mut self) {
        self.base.records_skipped = bump(self.base.records_skipped);
    }
}

} // verus!
