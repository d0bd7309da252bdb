//! The operations that a client application calls, in values that cross a
//! language boundary: scanning for sources, extracting, and the statistics
//! of the unified store.

use vstd::prelude::*;
use crate::clock::{elapsed_since, format_rfc3339, instant_now, rfc3339_utc};
use crate::collectors::base::{copy_failed_reason, not_found_reason, Collector, Snapshot};
use crate::collectors::create_collector;
use crate::error::Error;
use crate::locate::{
    chrome_root, chrome_target, expand_tilde, is_expansion_of, is_first_podcasts_match, is_newest_match,
    newest_profile, podcasts_match, podcasts_root, podcasts_target, ScannedDir,
};
use crate::sqlite::{first_int, first_opt_int, open, opt_view};
use crate::text::{join_path, joined_path};
use crate::types::{
    CollectorType, ExtractionConfig as CoreExtractionConfig, ExtractionResult, ExtractionStatus,
};

verus! {

/// The kinds of data source.
#[derive(Debug, Clone, Copy, PartialEq, Eq, Structural)]
pub enum DataSourceType {
    Messages,
    Chrome,
    KnowledgeC,
    Podcasts,
}

impl DataSourceType {
    /// The kind of collector that reads the source.
    pub open spec fn collector_type(self) -> CollectorType {
        match self {
            DataSourceType::Messages => CollectorType::Messages,
            DataSourceType::Chrome => CollectorType::Chrome,
            DataSourceType::KnowledgeC => CollectorType::KnowledgeC,
            DataSourceType::Podcasts => CollectorType::Podcasts,
        }
    }

    /// The name that the source is shown under.
    pub open spec fn display_name(self) -> Seq<char> {
        match self {
            DataSourceType::Messages => "Messages"@,
            DataSourceType::Chrome => "Chrome Browser"@,
            DataSourceType::KnowledgeC => "System Activity"@,
            DataSourceType::Podcasts => "Podcasts"@,
        }
    }

    /// The paths at which a scan looks for the source, in order.
    pub open spec fn scan_paths(self) -> Seq<Seq<char>> {
        match self {
            DataSourceType::Messages => seq!["~/Library/Messages/chat.db"@],
            DataSourceType::Chrome => seq![
                "~/Library/Application Support/Google/Chrome/Default/History"@,
                "~/Library/Application Support/Google/Chrome/Profile 1/History"@,
            ],
            DataSourceType::KnowledgeC => seq![
                "~/Library/Application Support/Knowledge/knowledgeC.db"@,
                "/private/var/db/CoreDuet/Knowledge/knowledgeC.db"@,
            ],
            DataSourceType::Podcasts => seq![
                "~/Library/Group Containers/243LU875E5.groups.com.apple.podcasts/Documents/MTLibrary.sqlite"@,
                "~/Library/Application Support/Podcasts/MTLibrary.sqlite"@,
                "~/Library/Containers/com.apple.podcasts/Data/Library/Application Support/Podcasts/MTLibrary.sqlite"@,
            ],
        }
    }

    /// The kinds of source that a scan looks for, in the order of the scan.
    pub open spec fn all_scanned() -> Seq<DataSourceType> {
        seq![
            DataSourceType::Messages,
            DataSourceType::Chrome,
            DataSourceType::KnowledgeC,
            DataSourceType::Podcasts,
        ]
    }

    /// The directory that is scanned for the source where none of its paths
    /// exists; none for a source that is not searched for.
    pub open spec fn scanned_root(self) -> Option<Seq<char>> {
        match self {
            DataSourceType::Podcasts => Some(podcasts_root()),
            DataSourceType::Chrome => Some(chrome_root()),
            _ => None,
        }
    }

    /// The path, below an entry of the scanned directory, of the database
    /// that is searched for.
    pub open spec fn scanned_target(self) -> Option<Seq<char>> {
        match self {
            DataSourceType::Podcasts => Some("Documents/MTLibrary.sqlite"@),
            DataSourceType::Chrome => Some("History"@),
            _ => None,
        }
    }

    /// The kinds of source that a scan looks for, in the order of the scan.
    pub fn all() -> (r: Vec<DataSourceType>)
        ensures
            r@ == Self::all_scanned(),
    {
        let mut kinds: Vec<DataSourceType> = Vec::new();
        kinds.push(DataSourceType::Messages);
        kinds.push(DataSourceType::Chrome);
        kinds.push(DataSourceType::KnowledgeC);
        kinds.push(DataSourceType::Podcasts);
        assert(kinds@ =~= Self::all_scanned());
        kinds
    }

    /// The directory that is scanned for the source, with its tilde
    /// expanded.
    pub fn scan_root(&self) -> (r: Option<String>)
        ensures
            match r {
                Some(root) => self.scanned_root() is Some && is_expansion_of(
                    self.scanned_root().unwrap(),
                    root@,
                ),
                None => self.scanned_root() is None,
            },
    {
        match self {
            DataSourceType::Podcasts => Some(expand_tilde("~/Library/Group Containers")),
            DataSourceType::Chrome => Some(
                expand_tilde("~/Library/Application Support/Google/Chrome"),
            ),
            _ => None,
        }
    }

    /// The path, below an entry of the scanned directory, of the database
    /// that is searched for.
    pub fn scan_target(&self) -> (r: Option<&'static str>)
        ensures
            match r {
                Some(target) => self.scanned_target() == Some(target@),
                None => self.scanned_target() is None,
            },
    {
        match self {
            DataSourceType::Podcasts => Some("Documents/MTLibrary.sqlite"),
            DataSourceType::Chrome => Some("History"),
            _ => None,
        }
    }

    /// The kind of collector that reads the source.
    pub fn to_collector_type(self) -> (r: CollectorType)
        ensures
            r == self.collector_type(),
    {
        match self {
            DataSourceType::Messages => CollectorType::Messages,
            DataSourceType::Chrome => CollectorType::Chrome,
            DataSourceType::KnowledgeC => CollectorType::KnowledgeC,
            DataSourceType::Podcasts => CollectorType::Podcasts,
        }
    }

    /// The name that the source is shown under.
    pub fn name(&self) -> (r: String)
        ensures
            r@ == self.display_name(),
    {
        match self {
            DataSourceType::Messages => String::from_str("Messages"),
            DataSourceType::Chrome => String::from_str("Chrome Browser"),
            DataSourceType::KnowledgeC => String::from_str("System Activity"),
            DataSourceType::Podcasts => String::from_str("Podcasts"),
        }
    }

    /// The paths at which a scan looks for the source, in order.
    pub fn possible_paths(&self) -> (r: Vec<String>)
        ensures
            r@.map_values(|p: String| p@) == self.scan_paths(),
    {
        let mut paths: Vec<String> = Vec::new();
        match self {
            DataSourceType::Messages => {
                paths.push(String::from_str("~/Library/Messages/chat.db"));
            },
            DataSourceType::Chrome => {
                paths.push(
                    String::from_str("~/Library/Application Support/Google/Chrome/Default/History"),
                );
                paths.push(
                    String::from_str(
                        "~/Library/Application Support/Google/Chrome/Profile 1/History",
                    ),
                );
            },
            DataSourceType::KnowledgeC => {
                paths.push(
                    String::from_str("~/Library/Application Support/Knowledge/knowledgeC.db"),
                );
                paths.push(String::from_str("/private/var/db/CoreDuet/Knowledge/knowledgeC.db"));
            },
            DataSourceType::Podcasts => {
                paths.push(
                    String::from_str(
                        "~/Library/Group Containers/243LU875E5.groups.com.apple.podcasts/Documents/MTLibrary.sqlite",
                    ),
                );
                paths.push(
                    String::from_str("~/Library/Application Support/Podcasts/MTLibrary.sqlite"),
                );
                paths.push(
                    String::from_str(
                        "~/Library/Containers/com.apple.podcasts/Data/Library/Application Support/Podcasts/MTLibrary.sqlite",
                    ),
                );
            },
        }
        assert(paths@.map_values(|p: String| p@) =~= self.scan_paths());
        paths
    }
}

/// What a scan found of one source.
#[derive(Debug, Clone, PartialEq, Eq)]
pub struct DataSourceInfo {
    pub source_type: DataSourceType,
    pub name: String,
    /// The path of the source; absent where none was found.
    pub path: Option<String>,
    /// Whether the source was found.
    pub accessible: bool,
    pub size_bytes: Option<u64>,
    /// The time of the last change, in the notation of RFC 3339.
    pub last_modified: Option<String>,
}

/// How the sources are to be extracted.
#[derive(Debug, Clone, PartialEq, Eq)]
pub struct ExtractionConfig {
    pub output_dir: String,
    pub enabled_sources: Vec<DataSourceType>,
    pub verbose: bool,
}

impl ExtractionConfig {
    /// The configuration of the collectors: the output directory with its
    /// tilde expanded, the snapshots below it, and the default source paths.
    pub fn to_core_config(&self) -> (r: CoreExtractionConfig)
        ensures
            r.source_db_dir@ == joined_path(r.output_dir@, crate::types::snapshot_dir_name()),
            r.verbose == self.verbose,
            r.custom_source_paths is None,
            is_expansion_of(self.output_dir@, r.output_dir@),
    {
        let output_dir = expand_tilde(self.output_dir.as_str());
        let source_db_dir = join_path(output_dir.as_str(), "source_dbs");
        CoreExtractionConfig {
            output_dir,
            source_db_dir,
            verbose: self.verbose,
            custom_source_paths: None,
        }
    }
}

/// What the extraction of one source came to.
#[derive(Debug, Clone, PartialEq, Eq)]
pub struct SourceResult {
    pub source_type: DataSourceType,
    pub source_name: String,
    pub records_added: u64,
    pub records_skipped: u64,
    pub success: bool,
    pub error_message: Option<String>,
}

/// What an extraction came to.
#[derive(Debug, Clone)]
pub struct ExtractionReport {
    pub results: Vec<SourceResult>,
    pub total_records_added: u64,
    pub total_records_skipped: u64,
    /// The time that the extraction took.
    pub duration: std::time::Duration,
    pub success: bool,
    pub error_message: Option<String>,
}

/// The counts and the range of dates of the unified store.
#[derive(Debug, Clone, PartialEq, Eq)]
pub struct DatabaseStats {
    pub messages_count: u64,
    pub web_visits_count: u64,
    pub app_usage_count: u64,
    pub podcast_episodes_count: u64,
    /// The sum of the four counts.
    pub total_records: u64,
    /// The least time that the four tables hold, in the notation of RFC
    /// 3339; absent where they hold no time.
    pub earliest_date: Option<String>,
    /// The greatest time that the four tables hold, in the same notation.
    pub latest_date: Option<String>,
}

/// A failure, in the kinds that a client application tells apart.
#[derive(Debug, Clone, PartialEq, Eq)]
pub enum ExtractionError {
    DatabaseError { msg: String },
    SourceNotFound { msg: String },
    PermissionDenied { msg: String },
    InvalidPath { msg: String },
    ExtractionFailed { msg: String },
    Other { msg: String },
}

/// The kind and the message that a failure of the library is handed on as.
pub open spec fn handed_on(err: Error, kind: ExtractionError) -> bool {
    match err {
        Error::Database(cause) => kind == (ExtractionError::DatabaseError { msg: cause }),
        Error::DatabaseWithContext { .. } => kind matches ExtractionError::DatabaseError { msg }
            && msg@ == err.text(),
        Error::SqlError { .. } => kind matches ExtractionError::DatabaseError { msg } && msg@
            == err.text(),
        Error::Io(cause) => kind == (ExtractionError::Other { msg: cause }),
        Error::IoWithContext { .. } => kind matches ExtractionError::Other { msg } && msg@
            == err.text(),
        Error::SourceNotFound { .. } => kind matches ExtractionError::SourceNotFound { msg }
            && msg@ == "Source database not found"@,
        Error::CopyFailed(cause) => kind == (ExtractionError::ExtractionFailed { msg: cause }),
        Error::PermissionDenied { path } => kind == (ExtractionError::PermissionDenied {
            msg: path,
        }),
        Error::DatabaseNotFound(path) => kind matches ExtractionError::DatabaseError { msg }
            && msg@ == "Database not found: "@ + path@,
        Error::InvalidTimestamp(reason) => kind == (ExtractionError::Other { msg: reason }),
        Error::ExtractionFailed(reason) => kind == (ExtractionError::ExtractionFailed {
            msg: reason,
        }),
        Error::UnsupportedCollector(name) => kind == (ExtractionError::Other { msg: name }),
    }
}

impl ExtractionError {
    /// The text this failure is shown as.
    pub open spec fn text(self) -> Seq<char> {
        match self {
            ExtractionError::DatabaseError { msg } => "Database error: "@ + msg@,
            ExtractionError::SourceNotFound { msg } => "Source not found: "@ + msg@,
            ExtractionError::PermissionDenied { msg } => "Permission denied: "@ + msg@,
            ExtractionError::InvalidPath { msg } => "Invalid path: "@ + msg@,
            ExtractionError::ExtractionFailed { msg } => "Extraction failed: "@ + msg@,
            ExtractionError::Other { msg } => "Error: "@ + msg@,
        }
    }

    /// The text this failure is shown as.
    pub fn to_string(&self) -> (r: String)
        ensures
            r@ == self.text(),
    {
        let (words, msg) = match self {
            ExtractionError::DatabaseError { msg } => ("Database error: ", msg),
            ExtractionError::SourceNotFound { msg } => ("Source not found: ", msg),
            ExtractionError::PermissionDenied { msg } => ("Permission denied: ", msg),
            ExtractionError::InvalidPath { msg } => ("Invalid path: ", msg),
            ExtractionError::ExtractionFailed { msg } => ("Extraction failed: ", msg),
            ExtractionError::Other { msg } => ("Error: ", msg),
        };
        let mut out = String::from_str(words);
        out.append(msg.as_str());
        out
    }

    /// The failure that a failure of the library is handed on as.
    pub fn from_error(err: Error) -> (r: ExtractionError)
        ensures
            handed_on(err, r),
    {
        match err {
            Error::Database(cause) => ExtractionError::DatabaseError { msg: cause },
            Error::DatabaseWithContext { operation, source_path, error, suggestion } => {
                let whole = Error::DatabaseWithContext { operation, source_path, error, suggestion };
                ExtractionError::DatabaseError { msg: whole.to_string() }
            },
            Error::SqlError { operation, query, error, suggestion } => {
                let whole = Error::SqlError { operation, query, error, suggestion };
                ExtractionError::DatabaseError { msg: whole.to_string() }
            },
            Error::Io(cause) => ExtractionError::Other { msg: cause },
            Error::IoWithContext { operation, path, error } => {
                let whole = Error::IoWithContext { operation, path, error };
                ExtractionError::Other { msg: whole.to_string() }
            },
            Error::SourceNotFound { paths } => ExtractionError::SourceNotFound {
                msg: String::from_str("Source database not found"),
            },
            Error::CopyFailed(cause) => ExtractionError::ExtractionFailed { msg: cause },
            Error::PermissionDenied { path } => ExtractionError::PermissionDenied { msg: path },
            Error::DatabaseNotFound(path) => {
                let mut msg = String::from_str("Database not found: ");
                msg.append(path.as_str());
                ExtractionError::DatabaseError { msg }
            },
            Error::InvalidTimestamp(reason) => ExtractionError::Other { msg: reason },
            Error::ExtractionFailed(reason) => ExtractionError::ExtractionFailed { msg: reason },
            Error::UnsupportedCollector(name) => ExtractionError::Other { msg: name },
        }
    }
}

/// What was seen of a file.
#[derive(Debug, Clone, PartialEq, Eq)]
pub struct SeenFile {
    /// Whether the file exists.
    pub exists: bool,
    /// Its size in bytes; absent where it could not be read.
    pub size_bytes: Option<u64>,
    /// When it was last modified, in nanoseconds since 1970; absent where it
    /// could not be read.
    pub modified: Option<i128>,
}

/// What was seen on disk of one source.
#[derive(Debug, Clone, PartialEq, Eq)]
pub struct SourceObservation {
    pub source_type: DataSourceType,
    /// The paths that were looked at.
    pub candidates: Vec<String>,
    /// What was seen at each of them, in the same order.
    pub seen: Vec<SeenFile>,
    /// The directory that was scanned.
    pub root: String,
    /// The entries of that directory.
    pub scanned: Vec<ScannedDir>,
}

/// The whole seconds since 1970 of a time of change that lies at or after
/// 1970 and fits; none otherwise.
pub open spec fn modified_secs(modified: Option<i128>) -> Option<i64> {
    match modified {
        Some(nanos) => if 0 <= nanos && nanos / 1_000_000_000 <= i64::MAX {
            Some((nanos / 1_000_000_000) as i64)
        } else {
            None
        },
        None => None,
    }
}

/// The notation of a time of change.
pub open spec fn modified_text(modified: Option<i128>) -> Option<Seq<char>> {
    match modified_secs(modified) {
        Some(secs) => rfc3339_utc(secs as int),
        None => None,
    }
}

/// Whether `info` tells of a source of the kind `source_type` found at
/// `path` with the facts given.
pub open spec fn is_info_of(
    info: DataSourceInfo,
    source_type: DataSourceType,
    path: Option<String>,
    size_bytes: Option<u64>,
    modified: Option<i128>,
) -> bool {
    &&& info.source_type == source_type
    &&& info.name@ == source_type.display_name()
    &&& info.path == path
    &&& info.accessible == path is Some
    &&& match path {
        Some(_) => {
            &&& info.size_bytes == size_bytes
            &&& match info.last_modified {
                Some(text) => modified_text(modified) == Some(text@),
                None => modified_text(modified) is None,
            }
        },
        None => info.size_bytes is None && info.last_modified is None,
    }
}

/// What a scan tells of a source found at `path`, or of one not found.
pub fn describe_source(
    source_type: DataSourceType,
    path: Option<String>,
    size_bytes: Option<u64>,
    modified: Option<i128>,
) -> (r: DataSourceInfo)
    ensures
        is_info_of(r, source_type, path, size_bytes, modified),
{
    let name = source_type.name();
    match path {
        Some(found) => {
            let last_modified = match modified {
                Some(nanos) => if nanos >= 0 && nanos / 1_000_000_000 <= 0x7fff_ffff_ffff_ffffi128 {
                    let secs: i64 = (nanos / 1_000_000_000) as i64;
                    format_rfc3339(secs)
                } else {
                    None
                },
                None => None,
            };
            DataSourceInfo {
                source_type,
                name,
                path: Some(found),
                accessible: true,
                size_bytes,
                last_modified,
            }
        },
        None => DataSourceInfo {
            source_type,
            name,
            path: None,
            accessible: false,
            size_bytes: None,
            last_modified: None,
        },
    }
}

/// Whether the file at `i` of an observation was seen to exist.
pub open spec fn seen_at(observation: SourceObservation, i: int) -> bool {
    0 <= i < observation.candidates@.len() && i < observation.seen@.len()
        && observation.seen@[i].exists
}

/// Whether `info` is what the scan tells of `observation`: the first path
/// that was seen to exist; else, for the two kinds of source that are
/// searched for, what the scan of the directory picks; else nothing.
pub open spec fn is_scan_of(observation: SourceObservation, info: DataSourceInfo) -> bool {
    if exists|i: int| seen_at(observation, i) {
        exists|i: int|
            #![trigger observation.seen@[i]]
            seen_at(observation, i) && (forall|k: int| 0 <= k < i ==> !seen_at(observation, k))
                && is_info_of(
                info,
                observation.source_type,
                Some(observation.candidates@[i]),
                observation.seen@[i].size_bytes,
                observation.seen@[i].modified,
            )
    } else {
        match observation.source_type {
            DataSourceType::Podcasts => {
                if exists|at: int| is_first_podcasts_match(observation.scanned@, at) {
                    exists|at: int, path: String|
                        #![trigger observation.scanned@[at], path@]
                        is_first_podcasts_match(observation.scanned@, at) && path@
                            == podcasts_target(observation.root@, observation.scanned@[at].name@)
                            && is_info_of(
                            info,
                            observation.source_type,
                            Some(path),
                            observation.scanned@[at].target_size,
                            observation.scanned@[at].target_modified,
                        )
                } else {
                    is_info_of(info, observation.source_type, None, None, None)
                }
            },
            DataSourceType::Chrome => {
                if exists|best: int|
                    is_newest_match(
                        observation.scanned@,
                        observation.scanned@.len() as int,
                        best,
                    ) {
                    exists|best: int, path: String|
                        #![trigger observation.scanned@[best], path@]
                        is_newest_match(
                            observation.scanned@,
                            observation.scanned@.len() as int,
                            best,
                        ) && path@ == chrome_target(
                            observation.root@,
                            observation.scanned@[best].name@,
                        ) && is_info_of(
                            info,
                            observation.source_type,
                            Some(path),
                            observation.scanned@[best].target_size,
                            observation.scanned@[best].target_modified,
                        )
                } else {
                    is_info_of(info, observation.source_type, None, None, None)
                }
            },
            _ => is_info_of(info, observation.source_type, None, None, None),
        }
    }
}

/// What the scan tells of one source.
pub fn scan_data_source(observation: &SourceObservation) -> (r: DataSourceInfo)
    ensures
        is_scan_of(*observation, r),
{
    let mut i: usize = 0;
    while i < observation.candidates.len()
        invariant
            i <= observation.candidates.len(),
            forall|k: int| 0 <= k < i ==> !seen_at(*observation, k),
        decreases observation.candidates.len() - i,
    {
        if i < observation.seen.len() && observation.seen[i].exists {
            let info = describe_source(
                observation.source_type,
                Some(observation.candidates[i].clone()),
                observation.seen[i].size_bytes,
                observation.seen[i].modified,
            );
            assert(seen_at(*observation, i as int));
            return info;
        }
        i = i + 1;
    }
    assert(!exists|k: int| seen_at(*observation, k));
    match observation.source_type {
        DataSourceType::Podcasts => match podcasts_match(observation.scanned.as_slice()) {
            Some(at) => {
                let container = join_path(
                    observation.root.as_str(),
                    observation.scanned[at].name.as_str(),
                );
                let documents = join_path(container.as_str(), "Documents");
                let path = join_path(documents.as_str(), "MTLibrary.sqlite");
                let info = describe_source(
                    observation.source_type,
                    Some(path),
                    observation.scanned[at].target_size,
                    observation.scanned[at].target_modified,
                );
                assert(is_first_podcasts_match(observation.scanned@, at as int));
                info
            },
            None => {
                assert(!exists|at: int| is_first_podcasts_match(observation.scanned@, at));
                describe_source(observation.source_type, None, None, None)
            },
        },
        DataSourceType::Chrome => match newest_profile(observation.scanned.as_slice()) {
            Some(best) => {
                let profile = join_path(
                    observation.root.as_str(),
                    observation.scanned[best].name.as_str(),
                );
                let path = join_path(profile.as_str(), "History");
                let info = describe_source(
                    observation.source_type,
                    Some(path),
                    observation.scanned[best].target_size,
                    observation.scanned[best].target_modified,
                );
                assert(is_newest_match(
                    observation.scanned@,
                    observation.scanned@.len() as int,
                    best as int,
                ));
                info
            },
            None => {
                assert(!exists|best: int|
                    is_newest_match(
                        observation.scanned@,
                        observation.scanned@.len() as int,
                        best,
                    ));
                describe_source(observation.source_type, None, None, None)
            },
        },
        _ => describe_source(observation.source_type, None, None, None),
    }
}

/// What the scan tells of each source, in the order of the observations.
pub fn scan_data_sources(observations: &[SourceObservation]) -> (r: Vec<DataSourceInfo>)
    ensures
        r@.len() == observations@.len(),
        forall|i: int| 0 <= i < r@.len() ==> is_scan_of(observations@[i], #[trigger] r@[i]),
{
    let mut infos: Vec<DataSourceInfo> = Vec::new();
    let mut i: usize = 0;
    while i < observations.len()
        invariant
            i <= observations.len(),
            infos@.len() == i,
            forall|k: int| 0 <= k < i ==> is_scan_of(observations@[k], #[trigger] infos@[k]),
        decreases observations.len() - i,
    {
        infos.push(scan_data_source(&observations[i]));
        i = i + 1;
    }
    infos
}

/// A count as a result reports it.
pub open spec fn reported_count(n: usize) -> u64 {
    if n > u64::MAX {
        u64::MAX
    } else {
        n as u64
    }
}

/// Whether `result` is what an extraction of the source `source_type` that
/// came to `outcome` is reported as: a success with its counts where it was
/// completed; else a failure without counts, with the reason.
pub open spec fn is_source_result(
    source_type: DataSourceType,
    outcome: Result<ExtractionResult, Error>,
    result: SourceResult,
) -> bool {
    &&& result.source_type == source_type
    &&& result.source_name@ == source_type.display_name()
    &&& match outcome {
        Ok(extraction) => if extraction.status == ExtractionStatus::Completed {
            &&& result.success
            &&& result.records_added == reported_count(extraction.records_added)
            &&& result.records_skipped == reported_count(extraction.records_skipped)
            &&& result.error_message is None
        } else {
            &&& !result.success
            &&& result.records_added == 0
            &&& result.records_skipped == 0
            &&& result.error_message == extraction.error_message
        },
        Err(e) => {
            &&& !result.success
            &&& result.records_added == 0
            &&& result.records_skipped == 0
            &&& result.error_message matches Some(text)
            &&& text@ == e.text()
        },
    }
}

fn to_reported_count(n: usize) -> (r: u64)
    ensures
        r == reported_count(n),
{
    n as u64
}

/// What an extraction of the source `source_type` that came to
/// `extraction_result` is reported as.
pub fn create_source_result(
    source_type: DataSourceType,
    extraction_result: Result<ExtractionResult, Error>,
) -> (r: SourceResult)
    ensures
        is_source_result(source_type, extraction_result, r),
{
    match extraction_result {
        Ok(result) => match result.status {
            ExtractionStatus::Completed => SourceResult {
                source_type,
                source_name: source_type.name(),
                records_added: to_reported_count(result.records_added),
                records_skipped: to_reported_count(result.records_skipped),
                success: true,
                error_message: None,
            },
            _ => SourceResult {
                source_type,
                source_name: source_type.name(),
                records_added: 0,
                records_skipped: 0,
                success: false,
                error_message: result.error_message,
            },
        },
        Err(e) => SourceResult {
            source_type,
            source_name: source_type.name(),
            records_added: 0,
            records_skipped: 0,
            success: false,
            error_message: Some(e.to_string()),
        },
    }
}

/// The sum of two counts, or the largest count where the sum is larger.
pub open spec fn capped_sum(a: u64, b: u64) -> u64 {
    if a + b > u64::MAX {
        u64::MAX
    } else {
        (a + b) as u64
    }
}

fn add_capped(a: u64, b: u64) -> (r: u64)
    ensures
        r == capped_sum(a, b),
{
    if a > u64::MAX - b {
        u64::MAX
    } else {
        a + b
    }
}

/// The records added by the successful ones of `results`.
pub open spec fn total_added(results: Seq<SourceResult>) -> u64
    decreases results.len(),
{
    if results.len() == 0 {
        0
    } else if results.last().success {
        capped_sum(total_added(results.drop_last()), results.last().records_added)
    } else {
        total_added(results.drop_last())
    }
}

/// The records skipped by the successful ones of `results`.
pub open spec fn total_skipped(results: Seq<SourceResult>) -> u64
    decreases results.len(),
{
    if results.len() == 0 {
        0
    } else if results.last().success {
        capped_sum(total_skipped(results.drop_last()), results.last().records_skipped)
    } else {
        total_skipped(results.drop_last())
    }
}

/// Whether every one of `results` is a success.
pub open spec fn all_succeeded(results: Seq<SourceResult>) -> bool {
    forall|i: int| 0 <= i < results.len() ==> (#[trigger] results[i]).success
}

/// Whether `report` sums `results` up: the totals are those of the
/// successful sources, and the whole is a success only if every source is.
pub open spec fn is_report_of(
    results: Seq<SourceResult>,
    failure_words: Seq<char>,
    report: ExtractionReport,
) -> bool {
    &&& report.results@ == results
    &&& report.total_records_added == total_added(results)
    &&& report.total_records_skipped == total_skipped(results)
    &&& report.success == all_succeeded(results)
    &&& match report.error_message {
        Some(text) => !all_succeeded(results) && text@ == failure_words,
        None => all_succeeded(results),
    }
}

/// The report of an extraction whose sources came to `results` and which
/// took `duration`; `failure_words` is said where a source failed.
pub fn build_report(
    results: Vec<SourceResult>,
    duration: std::time::Duration,
    failure_words: &str,
) -> (r: ExtractionReport)
    ensures
        is_report_of(results@, failure_words@, r),
        r.duration == duration,
{
    let mut total_added_so_far: u64 = 0;
    let mut total_skipped_so_far: u64 = 0;
    let mut success = true;
    let mut i: usize = 0;
    while i < results.len()
        invariant
            i <= results.len(),
            total_added_so_far == total_added(results@.take(i as int)),
            total_skipped_so_far == total_skipped(results@.take(i as int)),
            success == all_succeeded(results@.take(i as int)),
        decreases results.len() - i,
    {
        proof {
            assert(results@.take(i + 1).drop_last() =~= results@.take(i as int));
            assert(results@.take(i + 1).last() == results@[i as int]);
            if all_succeeded(results@.take(i + 1)) {
                assert forall|k: int| 0 <= k < i implies (#[trigger] results@.take(
                    i as int,
                )[k]).success by {
                    assert(results@.take(i + 1)[k].success);
                }
            }
            if all_succeeded(results@.take(i as int)) && results@[i as int].success {
                assert forall|k: int| 0 <= k < i + 1 implies (#[trigger] results@.take(
                    i + 1,
                )[k]).success by {
                    if k < i {
                        assert(results@.take(i as int)[k].success);
                    }
                }
            }
            if !results@[i as int].success {
                assert(!results@.take(i + 1)[i as int].success);
            }
        }
        if results[i].success {
            total_added_so_far = add_capped(total_added_so_far, results[i].records_added);
            total_skipped_so_far = add_capped(total_skipped_so_far, results[i].records_skipped);
        } else {
            success = false;
        }
        i = i + 1;
    }
    assert(results@.take(results@.len() as int) =~= results@);
    ExtractionReport {
        results,
        total_records_added: total_added_so_far,
        total_records_skipped: total_skipped_so_far,
        duration,
        success,
        error_message: if success {
            None
        } else {
            Some(String::from_str(failure_words))
        },
    }
}

/// Whether `result` is what the extraction of the source `source_type` can
/// be reported as where locating and copying it came to `snapshot`: a
/// success only where the copy was taken, and then without a reason; a
/// failure without counts and with a reason, which is that of the missing
/// source or of the failed copy where the extraction ended there.
pub open spec fn is_reported_run(
    source_type: DataSourceType,
    snapshot: Snapshot,
    result: SourceResult,
) -> bool {
    &&& result.source_type == source_type
    &&& result.source_name@ == source_type.display_name()
    &&& result.success ==> snapshot is Taken && result.error_message is None
    &&& !result.success ==> result.records_added == 0 && result.records_skipped == 0
        && result.error_message is Some
    &&& snapshot is NotFound ==> !result.success && result.error_message.unwrap()@
        == not_found_reason(source_type.collector_type().name_text())
    &&& snapshot matches Snapshot::Failed(e) ==> !result.success
        && result.error_message.unwrap()@ == copy_failed_reason(e)
}

/// Extracts one source into the unified store behind `unified_db` and
/// reports what it came to.
fn extract_reported(
    core_config: &CoreExtractionConfig,
    unified_db: &rusqlite::Connection,
    source_type: DataSourceType,
    snapshot: Snapshot,
) -> (r: SourceResult)
    ensures
        is_reported_run(source_type, snapshot, r),
{
    let outcome = match create_collector(source_type.to_collector_type(), core_config, unified_db) {
        Ok(collector) => {
            let mut collector = collector;
            collector.run(snapshot)
        },
        Err(e) => Err(e),
    };
    create_source_result(source_type, outcome)
}

/// The words of a report of several sources of which one failed.
pub open spec fn batch_failure_words() -> Seq<char> {
    "Some sources failed to extract"@
}

/// The words of a report of one source that failed.
pub open spec fn single_failure_words() -> Seq<char> {
    "Extraction failed"@
}

/// An extraction in progress: the sources that are to be extracted, in
/// order, and the results of those extracted so far. The caller locates and
/// copies the source that is next, and hands in what became of it.
pub struct Extraction {
    /// The configuration of the collectors.
    pub config: CoreExtractionConfig,
    /// The sources that are to be extracted, in order.
    pub sources: Vec<DataSourceType>,
    /// The results of the sources extracted so far.
    pub results: Vec<SourceResult>,
    /// When the extraction began.
    pub started: std::time::Instant,
    /// What the report says where a source failed.
    pub failure_words: String,
}

impl Extraction {
    /// The source that is extracted next; none where every source has its
    /// result.
    pub open spec fn pending(self) -> Option<DataSourceType> {
        if self.results@.len() < self.sources@.len() {
            Some(self.sources@[self.results@.len() as int])
        } else {
            None
        }
    }

    /// The extraction of the sources that the configuration enables, in the
    /// order in which it names them; nothing is extracted yet.
    pub fn of_all(config: &ExtractionConfig) -> (r: Extraction)
        ensures
            r.sources@ == config.enabled_sources@,
            r.results@.len() == 0,
            r.failure_words@ == batch_failure_words(),
            r.config.verbose == config.verbose,
            r.config.custom_source_paths is None,
            is_expansion_of(config.output_dir@, r.config.output_dir@),
            r.config.source_db_dir@ == joined_path(
                r.config.output_dir@,
                crate::types::snapshot_dir_name(),
            ),
    {
        let mut sources: Vec<DataSourceType> = Vec::new();
        let mut i: usize = 0;
        while i < config.enabled_sources.len()
            invariant
                i <= config.enabled_sources.len(),
                sources@ == config.enabled_sources@.take(i as int),
            decreases config.enabled_sources.len() - i,
        {
            sources.push(config.enabled_sources[i]);
            assert(sources@ =~= config.enabled_sources@.take(i + 1));
            i = i + 1;
        }
        assert(config.enabled_sources@.take(i as int) =~= config.enabled_sources@);
        Extraction {
            config: config.to_core_config(),
            sources,
            results: Vec::new(),
            started: instant_now(),
            failure_words: String::from_str("Some sources failed to extract"),
        }
    }

    /// The extraction of the one source `source_type`; nothing is extracted
    /// yet.
    pub fn of_one(config: &ExtractionConfig, source_type: DataSourceType) -> (r: Extraction)
        ensures
            r.sources@ == seq![source_type],
            r.results@.len() == 0,
            r.failure_words@ == single_failure_words(),
            r.config.verbose == config.verbose,
            r.config.custom_source_paths is None,
            is_expansion_of(config.output_dir@, r.config.output_dir@),
            r.config.source_db_dir@ == joined_path(
                r.config.output_dir@,
                crate::types::snapshot_dir_name(),
            ),
    {
        let mut sources: Vec<DataSourceType> = Vec::new();
        sources.push(source_type);
        assert(sources@ =~= seq![source_type]);
        Extraction {
            config: config.to_core_config(),
            sources,
            results: Vec::new(),
            started: instant_now(),
            failure_words: String::from_str("Extraction failed"),
        }
    }

    /// The source that is extracted next.
    pub fn next(&self) -> (r: Option<DataSourceType>)
        ensures
            r == self.pending(),
    {
        if self.results.len() < self.sources.len() {
            Some(self.sources[self.results.len()])
        } else {
            None
        }
    }

    /// Extracts the source that is next into the unified store behind
    /// `unified_db`, and adds what it is reported as: `snapshot` tells what
    /// became of locating and copying that source. Whatever the result is,
    /// the extraction goes on to the next source. Where no source is left,
    /// nothing happens.
    pub fn extract(&mut self, unified_db: &rusqlite::Connection, snapshot: Snapshot)
        ensures
            final(self).config == old(self).config,
            final(self).sources == old(self).sources,
            final(self).started == old(self).started,
            final(self).failure_words == old(self).failure_words,
            match old(self).pending() {
                Some(source_type) => {
                    &&& final(self).results@.len() == old(self).results@.len() + 1
                    &&& final(self).results@.drop_last() == old(self).results@
                    &&& is_reported_run(source_type, snapshot, final(self).results@.last())
                },
                None => final(self).results@ == old(self).results@,
            },
    {
        match self.next() {
            Some(source_type) => {
                let result = extract_reported(&self.config, unified_db, source_type, snapshot);
                self.results.push(result);
                assert(self.results@.drop_last() =~= old(self).results@);
            },
            None => {},
        }
    }

    /// The report of the sources extracted so far, with the time since the
    /// extraction began.
    pub fn finish(self) -> (r: ExtractionReport)
        ensures
            is_report_of(self.results@, self.failure_words@, r),
    {
        let duration = elapsed_since(&self.started);
        build_report(self.results, duration, self.failure_words.as_str())
    }
}

/// Runs an extraction to its end with the snapshots given: `snapshots[i]`
/// tells what became of locating and copying the source at `i`, and a
/// source without an entry counts as not found.
fn extract_with(extraction: Extraction, snapshots: Vec<Snapshot>) -> (r: Result<
    ExtractionReport,
    ExtractionError,
>)
    requires
        extraction.results@.len() == 0,
    ensures
        match r {
            Ok(report) => {
                &&& report.results@.len() == extraction.sources@.len()
                &&& forall|i: int|
                    0 <= i < report.results@.len() ==> is_reported_run(
                        extraction.sources@[i],
                        crate::snapshot_at(snapshots@, i),
                        #[trigger] report.results@[i],
                    )
                &&& is_report_of(report.results@, extraction.failure_words@, report)
            },
            Err(e) => e is DatabaseError,
        },
{
    let mut extraction = extraction;
    let unified_db = match crate::open_unified_db(extraction.config.output_dir.as_str()) {
        Ok(conn) => conn,
        Err(e) => {
            return Err(ExtractionError::from_error(e));
        },
    };
    let ghost sources = extraction.sources@;
    let ghost words = extraction.failure_words@;
    let ghost given = snapshots@;
    let mut snapshots = snapshots;
    let mut i: usize = 0;
    while i < extraction.sources.len()
        invariant
            extraction.sources@ == sources,
            extraction.failure_words@ == words,
            extraction.results@.len() == i,
            i <= sources.len(),
            snapshots@.len() == given.len(),
            forall|k: int| i <= k < given.len() ==> snapshots@[k] == given[k],
            forall|k: int|
                0 <= k < i ==> is_reported_run(
                    sources[k],
                    crate::snapshot_at(given, k),
                    #[trigger] extraction.results@[k],
                ),
        decreases sources.len() - i,
    {
        let snapshot = if i < snapshots.len() {
            let mut taken = Snapshot::NotFound;
            std::mem::swap(&mut snapshots[i], &mut taken);
            taken
        } else {
            Snapshot::NotFound
        };
        assert(snapshot == crate::snapshot_at(given, i as int));
        let ghost before = extraction.results@;
        extraction.extract(&unified_db, snapshot);
        proof {
            assert forall|k: int| 0 <= k < i + 1 implies is_reported_run(
                sources[k],
                crate::snapshot_at(given, k),
                #[trigger] extraction.results@[k],
            ) by {
                if k < i {
                    assert(extraction.results@[k] == extraction.results@.drop_last()[k]);
                    assert(extraction.results@[k] == before[k]);
                }
            }
        }
        i = i + 1;
    }
    let ghost results = extraction.results@;
    let report = extraction.finish();
    assert(report.results@ == results);
    Ok(report)
}

/// Extracts the enabled sources, one after another, in the order in which
/// the configuration names them: `snapshots[i]` tells what became of locating
/// and copying the source at `i`, and a source without an entry counts as
/// not found. A source that fails does not keep the others from being
/// extracted. Fails only where the unified store cannot be opened.
pub fn extract_all_data(config: ExtractionConfig, snapshots: Vec<Snapshot>) -> (r: Result<
    ExtractionReport,
    ExtractionError,
>)
    ensures
        match r {
            Ok(report) => {
                &&& report.results@.len() == config.enabled_sources@.len()
                &&& forall|i: int|
                    0 <= i < report.results@.len() ==> is_reported_run(
                        config.enabled_sources@[i],
                        crate::snapshot_at(snapshots@, i),
                        #[trigger] report.results@[i],
                    )
                &&& is_report_of(report.results@, batch_failure_words(), report)
            },
            Err(e) => e is DatabaseError,
        },
{
    extract_with(Extraction::of_all(&config), snapshots)
}

/// Extracts one source: `snapshot` tells what became of locating and
/// copying it. Fails only where the unified store cannot be opened.
pub fn extract_single_source(
    config: ExtractionConfig,
    source_type: DataSourceType,
    snapshot: Snapshot,
) -> (r: Result<ExtractionReport, ExtractionError>)
    ensures
        match r {
            Ok(report) => {
                &&& report.results@.len() == 1
                &&& is_reported_run(source_type, snapshot, report.results@[0])
                &&& is_report_of(report.results@, single_failure_words(), report)
            },
            Err(e) => e is DatabaseError,
        },
{
    let mut snapshots: Vec<Snapshot> = Vec::new();
    snapshots.push(snapshot);
    extract_with(Extraction::of_one(&config, source_type), snapshots)
}

/// The path of the unified store below `output_dir`, with the tilde of the
/// directory expanded.
pub fn stats_db_path(output_dir: &str) -> (r: String)
    ensures
        exists|expanded: Seq<char>|
            is_expansion_of(output_dir@, expanded) && r@ == crate::unified_db_path(expanded),
{
    let expanded = expand_tilde(output_dir);
    let path = join_path(expanded.as_str(), "unified.db");
    assert(is_expansion_of(output_dir@, expanded@) && path@ == crate::unified_db_path(expanded@));
    path
}

/// A count of rows: none for a count that could not be read, and none for
/// one below zero.
pub open spec fn row_count(answer: Result<i64, crate::sqlite::SqlFailure>) -> u64 {
    match answer {
        Ok(n) => if n > 0 {
            n as u64
        } else {
            0
        },
        Err(_) => 0,
    }
}

/// Reads a count of rows.
pub fn count_of(answer: Result<i64, crate::sqlite::SqlFailure>) -> (r: u64)
    ensures
        r == row_count(answer),
{
    match answer {
        Ok(n) => if n > 0 {
            n as u64
        } else {
            0
        },
        Err(_) => 0,
    }
}

/// The least of the times that are there; none where no time is there.
pub open spec fn least_time(times: Seq<Option<i64>>) -> Option<i64>
    decreases times.len(),
{
    if times.len() == 0 {
        None
    } else {
        match (least_time(times.drop_last()), times.last()) {
            (Some(least), Some(time)) => Some(
                if time < least {
                    time
                } else {
                    least
                },
            ),
            (Some(least), None) => Some(least),
            (None, last) => last,
        }
    }
}

/// The greatest of the times that are there; none where no time is there.
pub open spec fn greatest_time(times: Seq<Option<i64>>) -> Option<i64>
    decreases times.len(),
{
    if times.len() == 0 {
        None
    } else {
        match (greatest_time(times.drop_last()), times.last()) {
            (Some(greatest), Some(time)) => Some(
                if time > greatest {
                    time
                } else {
                    greatest
                },
            ),
            (Some(greatest), None) => Some(greatest),
            (None, last) => last,
        }
    }
}

/// The least time is one of the times and lies behind none of them, and
/// so for the greatest; there is none only where no time is there.
pub proof fn law_range_bounds_every_time(times: Seq<Option<i64>>)
    ensures
        match least_time(times) {
            Some(least) => times.contains(Some(least)) && forall|i: int|
                0 <= i < times.len() && (#[trigger] times[i]) is Some ==> least
                    <= times[i].unwrap(),
            None => forall|i: int| 0 <= i < times.len() ==> (#[trigger] times[i]) is None,
        },
        match greatest_time(times) {
            Some(greatest) => times.contains(Some(greatest)) && forall|i: int|
                0 <= i < times.len() && (#[trigger] times[i]) is Some ==> greatest
                    >= times[i].unwrap(),
            None => forall|i: int| 0 <= i < times.len() ==> (#[trigger] times[i]) is None,
        },
    decreases times.len(),
{
    if times.len() > 0 {
        let front = times.drop_last();
        law_range_bounds_every_time(front);
        assert forall|i: int| 0 <= i < front.len() implies front[i] == times[i] by {}
        assert(times[times.len() - 1] == times.last());
        match least_time(front) {
            Some(least) => {
                let at = choose|i: int| 0 <= i < front.len() && front[i] == Some(least);
                assert(times[at] == Some(least));
            },
            None => {},
        }
        match greatest_time(front) {
            Some(greatest) => {
                let at = choose|i: int| 0 <= i < front.len() && front[i] == Some(greatest);
                assert(times[at] == Some(greatest));
            },
            None => {},
        }
    }
}

/// The earliest of the times that are there.
pub fn earliest_of(times: &Vec<Option<i64>>) -> (r: Option<i64>)
    ensures
        r == least_time(times@),
{
    let mut best: Option<i64> = None;
    let mut i: usize = 0;
    while i < times.len()
        invariant
            i <= times.len(),
            best == least_time(times@.take(i as int)),
        decreases times.len() - i,
    {
        proof {
            assert(times@.take(i + 1).drop_last() =~= times@.take(i as int));
            assert(times@.take(i + 1).last() == times@[i as int]);
        }
        best = match (best, times[i]) {
            (Some(least), Some(time)) => Some(
                if time < least {
                    time
                } else {
                    least
                },
            ),
            (Some(least), None) => Some(least),
            (None, last) => last,
        };
        i = i + 1;
    }
    assert(times@.take(times@.len() as int) =~= times@);
    best
}

/// The latest of the times that are there.
pub fn latest_of(times: &Vec<Option<i64>>) -> (r: Option<i64>)
    ensures
        r == greatest_time(times@),
{
    let mut best: Option<i64> = None;
    let mut i: usize = 0;
    while i < times.len()
        invariant
            i <= times.len(),
            best == greatest_time(times@.take(i as int)),
        decreases times.len() - i,
    {
        proof {
            assert(times@.take(i + 1).drop_last() =~= times@.take(i as int));
            assert(times@.take(i + 1).last() == times@[i as int]);
        }
        best = match (best, times[i]) {
            (Some(greatest), Some(time)) => Some(
                if time > greatest {
                    time
                } else {
                    greatest
                },
            ),
            (Some(greatest), None) => Some(greatest),
            (None, last) => last,
        };
        i = i + 1;
    }
    assert(times@.take(times@.len() as int) =~= times@);
    best
}

/// The notation of a time that may be absent: that of RFC 3339 for Unix
/// seconds; none for an absent time and for one that the calendar does not
/// reach.
pub open spec fn date_of(time: Option<i64>) -> Option<Seq<char>> {
    match time {
        Some(seconds) => rfc3339_utc(seconds as int),
        None => None,
    }
}

/// The notation of a time that may be absent.
pub fn date_text(time: Option<i64>) -> (r: Option<String>)
    ensures
        opt_view(r) == date_of(time),
{
    match time {
        Some(seconds) => format_rfc3339(seconds),
        None => None,
    }
}

/// Whether `stats` are the statistics of a store with the four counts
/// given, whose four tables hold the least and the greatest times given:
/// the total is the sum of the counts, and the range of dates reaches from
/// the least of the least times to the greatest of the greatest.
pub open spec fn is_stats_of(
    counts: Seq<u64>,
    least: Seq<Option<i64>>,
    greatest: Seq<Option<i64>>,
    stats: DatabaseStats,
) -> bool {
    &&& counts.len() == 4
    &&& stats.messages_count == counts[0]
    &&& stats.web_visits_count == counts[1]
    &&& stats.app_usage_count == counts[2]
    &&& stats.podcast_episodes_count == counts[3]
    &&& stats.total_records == capped_sum(
        capped_sum(capped_sum(counts[0], counts[1]), counts[2]),
        counts[3],
    )
    &&& opt_view(stats.earliest_date) == date_of(least_time(least))
    &&& opt_view(stats.latest_date) == date_of(greatest_time(greatest))
}

/// The four counts of statistics, in the order of the tables.
pub open spec fn counts_of(stats: DatabaseStats) -> Seq<u64> {
    seq![
        stats.messages_count,
        stats.web_visits_count,
        stats.app_usage_count,
        stats.podcast_episodes_count,
    ]
}

/// The statistics of a store: the counts of messages, visits, sessions of
/// application use and episodes, in this order, and the least and the
/// greatest time of each of the four tables, in Unix seconds.
pub fn summarize_stats(
    messages_count: u64,
    web_visits_count: u64,
    app_usage_count: u64,
    podcast_episodes_count: u64,
    least: &Vec<Option<i64>>,
    greatest: &Vec<Option<i64>>,
) -> (r: DatabaseStats)
    ensures
        is_stats_of(
            seq![messages_count, web_visits_count, app_usage_count, podcast_episodes_count],
            least@,
            greatest@,
            r,
        ),
{
    let total = add_capped(
        add_capped(add_capped(messages_count, web_visits_count), app_usage_count),
        podcast_episodes_count,
    );
    DatabaseStats {
        messages_count,
        web_visits_count,
        app_usage_count,
        podcast_episodes_count,
        total_records: total,
        earliest_date: date_text(earliest_of(least)),
        latest_date: date_text(latest_of(greatest)),
    }
}

/// The reason given where the unified store is not there.
pub open spec fn not_found_text(db_path: Seq<char>) -> Seq<char> {
    "Database not found at "@ + db_path
}

/// A time that was read: none for one that could not be read.
pub open spec fn time_read(answer: Result<Option<i64>, crate::sqlite::SqlFailure>) -> Option<i64> {
    match answer {
        Ok(time) => time,
        Err(_) => None,
    }
}

/// Reads a time.
pub fn time_of(answer: Result<Option<i64>, crate::sqlite::SqlFailure>) -> (r: Option<i64>)
    ensures
        r == time_read(answer),
{
    match answer {
        Ok(time) => time,
        Err(_) => None,
    }
}

/// The queries that count the records of the four tables of the
/// statistics: messages, visits, sessions of application use, episodes.
pub const COUNT_MESSAGES: &'static str = "SELECT COUNT(*) FROM messages";

pub const COUNT_WEB_VISITS: &'static str = "SELECT COUNT(*) FROM web_visits";

pub const COUNT_APP_USAGE: &'static str = "SELECT COUNT(*) FROM app_usage";

pub const COUNT_PODCAST_EPISODES: &'static str = "SELECT COUNT(*) FROM podcast_episodes";

/// The queries that read the least time of each of the four tables, by
/// the table's primary time field.
pub const LEAST_MESSAGE_TIME: &'static str = "SELECT MIN(timestamp) FROM messages";

pub const LEAST_VISIT_TIME: &'static str = "SELECT MIN(visit_time) FROM web_visits";

pub const LEAST_APP_USAGE_TIME: &'static str = "SELECT MIN(start_time) FROM app_usage";

pub const LEAST_EPISODE_TIME: &'static str = "SELECT MIN(last_played_at) FROM podcast_episodes";

/// The queries that read the greatest time of each of the four tables.
pub const GREATEST_MESSAGE_TIME: &'static str = "SELECT MAX(timestamp) FROM messages";

pub const GREATEST_VISIT_TIME: &'static str = "SELECT MAX(visit_time) FROM web_visits";

pub const GREATEST_APP_USAGE_TIME: &'static str = "SELECT MAX(start_time) FROM app_usage";

pub const GREATEST_EPISODE_TIME: &'static str = "SELECT MAX(last_played_at) FROM podcast_episodes";

/// The statistics of the unified store at `db_path`; `exists` tells whether
/// the file is there. A store that is not there, and one that cannot be
/// opened, is a failure. Of a store that is open, the statistics are those
/// of what the queries give ([`summarize_stats`]): a count that cannot be
/// read counts as zero ([`count_of`]), and a time that cannot be read as
/// none ([`time_of`]).
pub fn get_database_stats(db_path: &str, exists: bool) -> (r: Result<
    DatabaseStats,
    ExtractionError,
>)
    ensures
        !exists ==> (r matches Err(ExtractionError::DatabaseError { msg }) && msg@
            == not_found_text(db_path@)),
        r matches Err(e) ==> e is DatabaseError,
        r matches Ok(stats) ==> exists|least: Seq<Option<i64>>, greatest: Seq<Option<i64>>|
            least.len() == 4 && greatest.len() == 4 && #[trigger] is_stats_of(
                counts_of(stats),
                least,
                greatest,
                stats,
            ),
{
    if !exists {
        let mut msg = String::from_str("Database not found at ");
        msg.append(db_path);
        return Err(ExtractionError::DatabaseError { msg });
    }
    let conn = match open(db_path) {
        Ok(conn) => conn,
        Err(failure) => {
            return Err(ExtractionError::DatabaseError { msg: failure.text });
        },
    };
    let messages_count = count_of(first_int(&conn, COUNT_MESSAGES));
    let web_visits_count = count_of(first_int(&conn, COUNT_WEB_VISITS));
    let app_usage_count = count_of(first_int(&conn, COUNT_APP_USAGE));
    let podcast_episodes_count = count_of(first_int(&conn, COUNT_PODCAST_EPISODES));
    let mut least: Vec<Option<i64>> = Vec::new();
    let mut greatest: Vec<Option<i64>> = Vec::new();
    least.push(time_of(first_opt_int(&conn, LEAST_MESSAGE_TIME)));
    greatest.push(time_of(first_opt_int(&conn, GREATEST_MESSAGE_TIME)));
    least.push(time_of(first_opt_int(&conn, LEAST_VISIT_TIME)));
    greatest.push(time_of(first_opt_int(&conn, GREATEST_VISIT_TIME)));
    least.push(time_of(first_opt_int(&conn, LEAST_APP_USAGE_TIME)));
    greatest.push(time_of(first_opt_int(&conn, GREATEST_APP_USAGE_TIME)));
    least.push(time_of(first_opt_int(&conn, LEAST_EPISODE_TIME)));
    greatest.push(time_of(first_opt_int(&conn, GREATEST_EPISODE_TIME)));
    let stats = summarize_stats(
        messages_count,
        web_visits_count,
        app_usage_count,
        podcast_episodes_count,
        &least,
        &greatest,
    );
    assert(counts_of(stats) =~= seq![
        messages_count,
        web_visits_count,
        app_usage_count,
        podcast_episodes_count,
    ]);
    assert(is_stats_of(counts_of(stats), least@, greatest@, stats));
    Ok(stats)
}

} // verus!
