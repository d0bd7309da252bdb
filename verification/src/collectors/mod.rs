//! The collectors: one for each kind of source.

use vstd::prelude::*;
use crate::collectors::base::{is_row_limit_failure, Collector};
use crate::error::Error;
use crate::types::{CollectorType, ExtractionConfig};

pub mod base;
pub mod chrome;
pub mod knowledgec;
pub mod messages;
pub mod podcasts;
pub mod utils;

verus! {

/// A collector of any of the kinds.
pub enum AnyCollector<'a> {
    Messages(messages::MessagesCollector<'a>),
    Chrome(chrome::ChromeCollector<'a>),
    KnowledgeC(knowledgec::KnowledgeCCollector<'a>),
    Podcasts(podcasts::PodcastsCollector<'a>),
}

impl<'a> AnyCollector<'a> {
    /// The kind of the collector.
    pub open spec fn kind(&self) -> CollectorType {
        match self {
            AnyCollector::Messages(_) => CollectorType::Messages,
            AnyCollector::Chrome(_) => CollectorType::Chrome,
            AnyCollector::KnowledgeC(_) => CollectorType::KnowledgeC,
            AnyCollector::Podcasts(_) => CollectorType::Podcasts,
        }
    }
}

impl<'a> Collector for AnyCollector<'a> {
    open spec fn name_text(&self) -> Seq<char> {
        match self {
            AnyCollector::Messages(c) => c.name_text(),
            AnyCollector::Chrome(c) => c.name_text(),
            AnyCollector::KnowledgeC(c) => c.name_text(),
            AnyCollector::Podcasts(c) => c.name_text(),
        }
    }

    open spec fn counts(&self) -> (usize, usize) {
        match self {
            AnyCollector::Messages(c) => c.counts(),
            AnyCollector::Chrome(c) => c.counts(),
            AnyCollector::KnowledgeC(c) => c.counts(),
            AnyCollector::Podcasts(c) => c.counts(),
        }
    }

    open spec fn settings(&self) -> ExtractionConfig {
        match self {
            AnyCollector::Messages(c) => c.settings(),
            AnyCollector::Chrome(c) => c.settings(),
            AnyCollector::KnowledgeC(c) => c.settings(),
            AnyCollector::Podcasts(c) => c.settings(),
        }
    }

    open spec fn default_paths(&self) -> Seq<Seq<char>> {
        match self {
            AnyCollector::Messages(c) => c.default_paths(),
            AnyCollector::Chrome(c) => c.default_paths(),
            AnyCollector::KnowledgeC(c) => c.default_paths(),
            AnyCollector::Podcasts(c) => c.default_paths(),
        }
    }

    open spec fn unified_store(&self) -> rusqlite::Connection {
        match self {
            AnyCollector::Messages(c) => c.unified_store(),
            AnyCollector::Chrome(c) => c.unified_store(),
            AnyCollector::KnowledgeC(c) => c.unified_store(),
            AnyCollector::Podcasts(c) => c.unified_store(),
        }
    }

    fn name(&self) -> (r: &str) {
        match self {
            AnyCollector::Messages(c) => c.name(),
            AnyCollector::Chrome(c) => c.name(),
            AnyCollector::KnowledgeC(c) => c.name(),
            AnyCollector::Podcasts(c) => c.name(),
        }
    }

    fn source_paths(&self) -> (r: Vec<String>) {
        match self {
            AnyCollector::Messages(c) => c.source_paths(),
            AnyCollector::Chrome(c) => c.source_paths(),
            AnyCollector::KnowledgeC(c) => c.source_paths(),
            AnyCollector::Podcasts(c) => c.source_paths(),
        }
    }

    /// The extraction of the collector's kind, with the failures of that
    /// kind.
    fn extract(&mut self, source_conn: &rusqlite::Connection) -> (r: Result<(), Error>)
        ensures
            final(self).kind() == old(self).kind(),
            r matches Err(e) ==> match old(self).kind() {
                CollectorType::Messages => e is PermissionDenied || e is ExtractionFailed,
                _ => e is Database || is_row_limit_failure(e),
            },
    {
        match self {
            AnyCollector::Messages(c) => c.extract(source_conn),
            AnyCollector::Chrome(c) => c.extract(source_conn),
            AnyCollector::KnowledgeC(c) => c.extract(source_conn),
            AnyCollector::Podcasts(c) => c.extract(source_conn),
        }
    }

    fn config(&self) -> (r: &ExtractionConfig) {
        match self {
            AnyCollector::Messages(c) => c.config(),
            AnyCollector::Chrome(c) => c.config(),
            AnyCollector::KnowledgeC(c) => c.config(),
            AnyCollector::Podcasts(c) => c.config(),
        }
    }

    fn unified_db(&self) -> (r: &rusqlite::Connection) {
        let conn = match self {
            AnyCollector::Messages(c) => c.unified_db(),
            AnyCollector::Chrome(c) => c.unified_db(),
            AnyCollector::KnowledgeC(c) => c.unified_db(),
            AnyCollector::Podcasts(c) => c.unified_db(),
        };
        assert(*conn == self.unified_store());
        conn
    }

    fn get_counts(&self) -> (r: (usize, usize)) {
        match self {
            AnyCollector::Messages(c) => c.get_counts(),
            AnyCollector::Chrome(c) => c.get_counts(),
            AnyCollector::KnowledgeC(c) => c.get_counts(),
            AnyCollector::Podcasts(c) => c.get_counts(),
        }
    }

    fn increment_added(&mut self) {
        match self {
            AnyCollector::Messages(c) => c.increment_added(),
            AnyCollector::Chrome(c) => c.increment_added(),
            AnyCollector::KnowledgeC(c) => c.increment_added(),
            AnyCollector::Podcasts(c) => c.increment_added(),
        }
    }

    fn increment_skipped(&mut self) {
        match self {
            AnyCollector::Messages(c) => c.increment_skipped(),
            AnyCollector::Chrome(c) => c.increment_skipped(),
            AnyCollector::KnowledgeC(c) => c.increment_skipped(),
            AnyCollector::Podcasts(c) => c.increment_skipped(),
        }
    }
}

/// The collector of the kind `collector_type`, which has stored nothing
/// yet.
pub fn create_collector<'a>(
    collector_type: CollectorType,
    config: &'a ExtractionConfig,
    unified_db: &'a rusqlite::Connection,
) -> (r: Result<AnyCollector<'a>, Error>)
    ensures
        r is Ok,
        r.unwrap().kind() == collector_type,
        r.unwrap().name_text() == collector_type.name_text(),
        r.unwrap().counts() == (0usize, 0usize),
        r.unwrap().settings() == *config,
        r.unwrap().unified_store() == *unified_db,
        r.unwrap().default_paths() == collector_type.default_paths(),
{
    match collector_type {
        CollectorType::Messages => Ok(
            AnyCollector::Messages(messages::MessagesCollector::new(config, unified_db)?),
        ),
        CollectorType::Chrome => Ok(
            AnyCollector::Chrome(chrome::ChromeCollector::new(config, unified_db)?),
        ),
        CollectorType::KnowledgeC => Ok(
            AnyCollector::KnowledgeC(knowledgec::KnowledgeCCollector::new(config, unified_db)?),
        ),
        CollectorType::Podcasts => Ok(
            AnyCollector::Podcasts(podcasts::PodcastsCollector::new(config, unified_db)?),
        ),
    }
}

} // verus!
