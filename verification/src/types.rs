//! The values an extraction is configured with and reports.

use vstd::prelude::*;
use crate::clock::{system_time_now, time_between, time_from};
use crate::text::{join_path, joined_path, lowercase, same_text, to_lowercase};

verus! {

/// The name of the directory, below the output directory, that holds the
/// snapshots.
pub open spec fn snapshot_dir_name() -> Seq<char> {
    "source_dbs"@
}

/// How an extraction is to be made.
#[derive(Debug, Clone)]
pub struct ExtractionConfig {
    /// Directory of the unified store and of the snapshot directory.
    pub output_dir: String,
    /// Directory of the private copies of the sources.
    pub source_db_dir: String,
    /// Whether progress is to be reported.
    pub verbose: bool,
    /// Paths to search in place of a source's default paths.
    pub custom_source_paths: Option<Vec<String>>,
}

impl Default for ExtractionConfig {
    fn default() -> (r: Self)
        ensures
            r.output_dir@ == "data"@,
            r.source_db_dir@ == joined_path("data"@, snapshot_dir_name()),
            r.verbose,
            r.custom_source_paths is None,
    {
        ExtractionConfig::with_output_dir(String::from_str("data"))
    }
}

impl ExtractionConfig {
    /// The configuration for `output_dir`: snapshots go below it, progress is
    /// reported, and the default source paths are searched.
    pub fn with_output_dir(output_dir: String) -> (r: Self)
        ensures
            r.output_dir == output_dir,
            r.source_db_dir@ == joined_path(output_dir@, snapshot_dir_name()),
            r.verbose,
            r.custom_source_paths is None,
    {
        let source_db_dir = join_path(output_dir.as_str(), "source_dbs");
        ExtractionConfig { output_dir, source_db_dir, verbose: true, custom_source_paths: None }
    }

    /// The same configuration with progress reports switched on or off.
    pub fn verbose(self, verbose: bool) -> (r: Self)
        ensures
            r.verbose == verbose,
            r.output_dir == self.output_dir,
            r.source_db_dir == self.source_db_dir,
            r.custom_source_paths == self.custom_source_paths,
    {
        let mut next = self;
        next.verbose = verbose;
        next
    }

    /// The same configuration with `paths` searched in place of the defaults.
    pub fn with_custom_paths(self, paths: Vec<String>) -> (r: Self)
        ensures
            r.custom_source_paths == Some(paths),
            r.output_dir == self.output_dir,
            r.source_db_dir == self.source_db_dir,
            r.verbose == self.verbose,
    {
        let mut next = self;
        next.custom_source_paths = Some(paths);
        next
    }
}

/// Where an extraction stands.
#[derive(Debug, Clone, Copy, PartialEq, Eq, Structural)]
pub enum ExtractionStatus {
    /// Started and not yet finished.
    Running,
    /// Finished; every record was stored or found already present.
    Completed,
    /// Given up.
    Failed,
}

impl ExtractionStatus {
    /// The word the run ledger stores for the status.
    pub open spec fn word(self) -> Seq<char> {
        match self {
            ExtractionStatus::Running => "running"@,
            ExtractionStatus::Completed => "completed"@,
            ExtractionStatus::Failed => "failed"@,
        }
    }

    /// The word the run ledger stores for the status.
    pub fn as_str(&self) -> (r: &'static str)
        ensures
            r@ == self.word(),
    {
        match self {
            ExtractionStatus::Running => "running",
            ExtractionStatus::Completed => "completed",
            ExtractionStatus::Failed => "failed",
        }
    }
}

/// What one extraction of one source came to.
#[derive(Debug, Clone)]
pub struct ExtractionResult {
    /// Name of the source.
    pub source: String,
    /// Records stored by this extraction.
    pub records_added: usize,
    /// Records that the store held already.
    pub records_skipped: usize,
    /// When the extraction started.
    pub started_at: std::time::SystemTime,
    /// When it finished; absent while it runs.
    pub completed_at: Option<std::time::SystemTime>,
    /// Where it stands.
    pub status: ExtractionStatus,
    /// Why it failed, where it did.
    pub error_message: Option<String>,
}

impl ExtractionResult {
    /// Whether the result is that of an extraction of `source` that has just
    /// started.
    pub open spec fn is_fresh(self, source: String) -> bool {
        &&& self.source == source
        &&& self.records_added == 0
        &&& self.records_skipped == 0
        &&& self.completed_at is None
        &&& self.status == ExtractionStatus::Running
        &&& self.error_message is None
    }

    /// Whether the result is `before` brought to completion with the counts.
    pub open spec fn is_completion_of(self, before: Self, added: usize, skipped: usize) -> bool {
        &&& self.source == before.source
        &&& self.records_added == added
        &&& self.records_skipped == skipped
        &&& self.started_at == before.started_at
        &&& self.completed_at is Some
        &&& self.status == ExtractionStatus::Completed
        &&& self.error_message == before.error_message
    }

    /// Whether the result is `before` given up for the reason `error`.
    pub open spec fn is_failure_of(self, before: Self, error: String) -> bool {
        &&& self.source == before.source
        &&& self.records_added == before.records_added
        &&& self.records_skipped == before.records_skipped
        &&& self.started_at == before.started_at
        &&& self.completed_at is Some
        &&& self.status == ExtractionStatus::Failed
        &&& self.error_message == Some(error)
    }

    /// Whether the result is `before` given up for a reason whose text is
    /// `reason`.
    pub open spec fn is_failure_with(self, before: Self, reason: Seq<char>) -> bool {
        &&& self.error_message is Some
        &&& self.error_message.unwrap()@ == reason
        &&& self.is_failure_of(before, self.error_message.unwrap())
    }

    /// The result of an extraction of `source` that starts now.
    pub fn new(source: String) -> (r: Self)
        ensures
            r.is_fresh(source),
    {
        ExtractionResult {
            source,
            records_added: 0,
            records_skipped: 0,
            started_at: system_time_now(),
            completed_at: None,
            status: ExtractionStatus::Running,
            error_message: None,
        }
    }

    /// The result brought to completion now, with the final counts.
    pub fn complete(self, records_added: usize, records_skipped: usize) -> (r: Self)
        ensures
            r.is_completion_of(self, records_added, records_skipped),
    {
        let mut next = self;
        next.records_added = records_added;
        next.records_skipped = records_skipped;
        next.completed_at = Some(system_time_now());
        next.status = ExtractionStatus::Completed;
        next
    }

    /// The result given up now, for the reason `error`.
    pub fn fail(self, error: String) -> (r: Self)
        ensures
            r.is_failure_of(self, error),
    {
        let mut next = self;
        next.completed_at = Some(system_time_now());
        next.status = ExtractionStatus::Failed;
        next.error_message = Some(error);
        next
    }

    /// The time from the start of the extraction to its end; absent while it
    /// runs.
    pub open spec fn time_taken(self) -> Option<std::time::Duration> {
        match self.completed_at {
            Some(end) => time_from(self.started_at, end),
            None => None,
        }
    }

    /// The time the extraction took; absent while it runs, and where the
    /// clock went backwards between its start and its end.
    pub fn duration(&self) -> (r: Option<std::time::Duration>)
        ensures
            r == self.time_taken(),
    {
        match &self.completed_at {
            Some(end) => time_between(&self.started_at, end),
            None => None,
        }
    }
}

/// The kinds of source that can be extracted.
#[derive(Debug, Clone, Copy, PartialEq, Eq, Hash, Structural)]
pub enum CollectorType {
    /// The messaging store.
    Messages,
    /// The browser history store.
    Chrome,
    /// The device-usage telemetry store.
    KnowledgeC,
    /// The media-listening store.
    Podcasts,
}

impl CollectorType {
    /// The name of the source type.
    pub open spec fn name_text(self) -> Seq<char> {
        match self {
            CollectorType::Messages => "messages"@,
            CollectorType::Chrome => "chrome"@,
            CollectorType::KnowledgeC => "knowledgeC"@,
            CollectorType::Podcasts => "podcasts"@,
        }
    }

    /// The source types in the order in which a batch extracts them.
    pub open spec fn all_types() -> Seq<CollectorType> {
        seq![
            CollectorType::KnowledgeC,
            CollectorType::Messages,
            CollectorType::Chrome,
            CollectorType::Podcasts,
        ]
    }

    /// The source type that a lowercase name denotes, if any.
    pub open spec fn named(lower: Seq<char>) -> Option<CollectorType> {
        if lower == "messages"@ {
            Some(CollectorType::Messages)
        } else if lower == "chrome"@ {
            Some(CollectorType::Chrome)
        } else if lower == "knowledgec"@ || lower == "knowledge"@ {
            Some(CollectorType::KnowledgeC)
        } else if lower == "podcasts"@ {
            Some(CollectorType::Podcasts)
        } else {
            None
        }
    }

    /// The paths at which a source of this type is searched by default, in
    /// the order of the search.
    pub open spec fn default_paths(self) -> Seq<Seq<char>> {
        match self {
            CollectorType::Messages => seq!["~/Library/Messages/chat.db"@],
            CollectorType::Chrome => seq![
                "~/Library/Application Support/Google/Chrome/Default/History"@,
            ],
            CollectorType::KnowledgeC => seq![
                "~/Desktop/knowledgeC.db"@,
                "~/Library/Application Support/Knowledge/knowledgeC.db"@,
            ],
            CollectorType::Podcasts => seq![
                "~/Library/Group Containers/243LU875E5.groups.com.apple.podcasts/Documents/MTLibrary.sqlite"@,
            ],
        }
    }

    /// The name of the source type.
    pub fn name(&self) -> (r: &'static str)
        ensures
            r@ == self.name_text(),
    {
        match self {
            CollectorType::Messages => "messages",
            CollectorType::Chrome => "chrome",
            CollectorType::KnowledgeC => "knowledgeC",
            CollectorType::Podcasts => "podcasts",
        }
    }

    /// All source types, in the order in which a batch extracts them.
    pub fn all() -> (r: Vec<CollectorType>)
        ensures
            r@ == Self::all_types(),
    {
        let mut types: Vec<CollectorType> = Vec::new();
        types.push(CollectorType::KnowledgeC);
        types.push(CollectorType::Messages);
        types.push(CollectorType::Chrome);
        types.push(CollectorType::Podcasts);
        assert(types@ =~= Self::all_types());
        types
    }

    /// The source type that the name `lower`, which is taken as it stands,
    /// denotes.
    pub fn from_lowercase(lower: &str) -> (r: Option<CollectorType>)
        ensures
            r == Self::named(lower@),
    {
        if same_text(lower, "messages") {
            Some(CollectorType::Messages)
        } else if same_text(lower, "chrome") {
            Some(CollectorType::Chrome)
        } else if same_text(lower, "knowledgec") || same_text(lower, "knowledge") {
            Some(CollectorType::KnowledgeC)
        } else if same_text(lower, "podcasts") {
            Some(CollectorType::Podcasts)
        } else {
            None
        }
    }

    /// The source type that the name `s` denotes, whatever its case.
    pub fn from_str(s: &str) -> (r: Option<CollectorType>)
        ensures
            r == Self::named(lowercase(s@)),
    {
        let lower = to_lowercase(s);
        Self::from_lowercase(lower.as_str())
    }

    /// The paths at which a source of this type is searched by default.
    pub fn default_source_paths(&self) -> (r: Vec<String>)
        ensures
            r@.map_values(|p: String| p@) == self.default_paths(),
    {
        let mut paths: Vec<String> = Vec::new();
        match self {
            CollectorType::Messages => {
                paths.push(String::from_str("~/Library/Messages/chat.db"));
            },
            CollectorType::Chrome => {
                paths.push(
                    String::from_str("~/Library/Application Support/Google/Chrome/Default/History"),
                );
            },
            CollectorType::KnowledgeC => {
                paths.push(String::from_str("~/Desktop/knowledgeC.db"));
                paths.push(
                    String::from_str("~/Library/Application Support/Knowledge/knowledgeC.db"),
                );
            },
            CollectorType::Podcasts => {
                paths.push(
                    String::from_str(
                        "~/Library/Group Containers/243LU875E5.groups.com.apple.podcasts/Documents/MTLibrary.sqlite",
                    ),
                );
            },
        }
        assert(paths@.map_values(|p: String| p@) =~= self.default_paths());
        paths
    }
}

} // verus!
