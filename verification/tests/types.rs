use quantified_core::error::Error;
use quantified_core::text::{
    ends_with, i64_to_string, join_path, same_text, starts_with, to_chars,
};
use quantified_core::types::{
    CollectorType, ExtractionConfig, ExtractionResult, ExtractionStatus,
};

#[test]
fn configurations_are_built() {
    let config = ExtractionConfig::default();
    assert_eq!(config.output_dir, "data");
    assert_eq!(config.source_db_dir, "data/source_dbs");
    assert!(config.verbose);
    assert_eq!(config.custom_source_paths, None);
    let config = ExtractionConfig::with_output_dir("/tmp/out".to_string());
    assert_eq!(config.output_dir, "/tmp/out");
    assert_eq!(config.source_db_dir, "/tmp/out/source_dbs");
    let quiet = config.clone().verbose(false);
    assert!(!quiet.verbose);
    assert_eq!(quiet.output_dir, "/tmp/out");
    let custom = quiet.with_custom_paths(vec!["/x".to_string()]);
    assert_eq!(custom.custom_source_paths, Some(vec!["/x".to_string()]));
    assert!(!custom.verbose);
    assert_eq!(custom.source_db_dir, "/tmp/out/source_dbs");
}

#[test]
fn paths_are_joined_as_the_standard_library_joins_them() {
    let cases = [
        ("data", "source_dbs"),
        ("data/", "source_dbs"),
        ("", "x"),
        ("/", "x"),
        ("a/b", "c/d"),
        ("a", "/abs"),
        ("a", ""),
        ("", ""),
        ("a//", "b"),
        ("~/Library", "Group Containers"),
    ];
    for (base, leaf) in cases {
        let expected = std::path::Path::new(base).join(leaf);
        assert_eq!(join_path(base, leaf), expected.to_str().unwrap(), "{:?} {:?}", base, leaf);
    }
}

#[test]
fn results_are_built() {
    let result = ExtractionResult::new("chrome".to_string());
    assert_eq!(result.source, "chrome");
    assert_eq!((result.records_added, result.records_skipped), (0, 0));
    assert_eq!(result.status, ExtractionStatus::Running);
    assert!(result.completed_at.is_none());
    assert!(result.error_message.is_none());
    assert!(result.duration().is_none());
    let started = result.started_at;
    let done = result.clone().complete(5, 7);
    assert_eq!((done.records_added, done.records_skipped), (5, 7));
    assert_eq!(done.status, ExtractionStatus::Completed);
    assert_eq!(done.started_at, started);
    assert!(done.completed_at.unwrap() >= started);
    assert!(done.error_message.is_none());
    assert!(done.duration().is_some());
    let failed = result.fail("it broke".to_string());
    assert_eq!(failed.status, ExtractionStatus::Failed);
    assert_eq!(failed.error_message.as_deref(), Some("it broke"));
    assert_eq!((failed.records_added, failed.records_skipped), (0, 0));
    assert!(failed.completed_at.is_some());
    assert_eq!(failed.source, "chrome");
}

#[test]
fn statuses_and_kinds_have_words() {
    assert_eq!(ExtractionStatus::Running.as_str(), "running");
    assert_eq!(ExtractionStatus::Completed.as_str(), "completed");
    assert_eq!(ExtractionStatus::Failed.as_str(), "failed");
    assert_eq!(CollectorType::Messages.name(), "messages");
    assert_eq!(CollectorType::Chrome.name(), "chrome");
    assert_eq!(CollectorType::KnowledgeC.name(), "knowledgeC");
    assert_eq!(CollectorType::Podcasts.name(), "podcasts");
    assert_eq!(
        CollectorType::all(),
        vec![
            CollectorType::KnowledgeC,
            CollectorType::Messages,
            CollectorType::Chrome,
            CollectorType::Podcasts
        ]
    );
}

#[test]
fn kinds_are_parsed_whatever_the_case() {
    assert_eq!(CollectorType::from_str("messages"), Some(CollectorType::Messages));
    assert_eq!(CollectorType::from_str("Messages"), Some(CollectorType::Messages));
    assert_eq!(CollectorType::from_str("CHROME"), Some(CollectorType::Chrome));
    assert_eq!(CollectorType::from_str("knowledgeC"), Some(CollectorType::KnowledgeC));
    assert_eq!(CollectorType::from_str("Knowledge"), Some(CollectorType::KnowledgeC));
    assert_eq!(CollectorType::from_str("podcasts"), Some(CollectorType::Podcasts));
    assert_eq!(CollectorType::from_str("\u{212A}nowledgec"), Some(CollectorType::KnowledgeC));
    assert_eq!(CollectorType::from_str("podcast"), None);
    assert_eq!(CollectorType::from_str(""), None);
    assert_eq!(CollectorType::from_str(" chrome"), None);
    assert_eq!(CollectorType::from_lowercase("chrome"), Some(CollectorType::Chrome));
    assert_eq!(CollectorType::from_lowercase("Chrome"), None);
    for kind in CollectorType::all() {
        assert_eq!(CollectorType::from_str(kind.name()), Some(kind));
    }
}

#[test]
fn default_paths() {
    assert_eq!(
        CollectorType::Messages.default_source_paths(),
        vec!["~/Library/Messages/chat.db".to_string()]
    );
    assert_eq!(
        CollectorType::Chrome.default_source_paths(),
        vec!["~/Library/Application Support/Google/Chrome/Default/History".to_string()]
    );
    assert_eq!(
        CollectorType::KnowledgeC.default_source_paths(),
        vec![
            "~/Desktop/knowledgeC.db".to_string(),
            "~/Library/Application Support/Knowledge/knowledgeC.db".to_string()
        ]
    );
    assert_eq!(
        CollectorType::Podcasts.default_source_paths(),
        vec![
            "~/Library/Group Containers/243LU875E5.groups.com.apple.podcasts/Documents/MTLibrary.sqlite"
                .to_string()
        ]
    );
}

#[test]
fn failures_are_shown() {
    assert_eq!(
        Error::database_context("op", "/src", "boom", "try again").to_string(),
        "Database error in op\n  Source: /src\n  Error: boom\n  try again"
    );
    assert_eq!(Error::Database("locked".to_string()).to_string(), "Database error: locked");
    assert_eq!(
        Error::sql_error("op", "SELECT 1", "boom", "check").to_string(),
        "SQL query failed in op\n  Query: SELECT 1\n  Error: boom\n  Suggestion: check"
    );
    assert_eq!(
        Error::source_not_found(&["/a".to_string(), "/b".to_string()]),
        Error::SourceNotFound { paths: "    - /a\n    - /b".to_string() }
    );
    assert_eq!(
        Error::source_not_found(&["/a".to_string(), "/b".to_string()]).to_string(),
        "Source database not found\n  Searched paths:\n    - /a\n    - /b\n  Suggestion: Ensure the application has run and created data"
    );
    assert_eq!(Error::source_not_found(&[]), Error::SourceNotFound { paths: String::new() });
    assert_eq!(
        Error::source_not_found(&["/only".to_string()]),
        Error::SourceNotFound { paths: "    - /only".to_string() }
    );
    assert_eq!(
        Error::CopyFailed("x".to_string()).to_string(),
        "Failed to copy source database: x"
    );
    assert_eq!(
        Error::PermissionDenied { path: "/p".to_string() }.to_string(),
        "Permission denied: /p\n  Suggestion: Grant Full Disk Access to your application in System Settings > Privacy & Security > Full Disk Access"
    );
    assert_eq!(
        Error::DatabaseNotFound("/d".to_string()).to_string(),
        "Unified database not found at: /d"
    );
    assert_eq!(
        Error::io_context("copy", "/p", "denied").to_string(),
        "IO error during copy\n  Path: /p\n  Error: denied"
    );
    assert_eq!(Error::Io("x".to_string()).to_string(), "IO error: x");
    assert_eq!(Error::InvalidTimestamp("x".to_string()).to_string(), "Invalid timestamp: x");
    assert_eq!(Error::ExtractionFailed("x".to_string()).to_string(), "Extraction failed: x");
    assert_eq!(
        Error::UnsupportedCollector("x".to_string()).to_string(),
        "Unsupported collector type: x"
    );
}

#[test]
fn numbers_are_written_in_decimal() {
    for n in [0i64, 1, 9, 10, 11, 99, 100, 12345, -1, -10, -12345, i64::MAX, i64::MIN] {
        assert_eq!(i64_to_string(n), n.to_string());
    }
}

#[test]
fn texts_are_compared_by_their_characters() {
    assert_eq!(to_chars("h\u{e9}llo"), vec!['h', '\u{e9}', 'l', 'l', 'o']);
    assert!(starts_with("Profile 1", "Profile "));
    assert!(starts_with("abc", ""));
    assert!(starts_with("abc", "abc"));
    assert!(!starts_with("ab", "abc"));
    assert!(!starts_with("xbc", "a"));
    assert!(ends_with("a.groups.com.apple.podcasts", ".groups.com.apple.podcasts"));
    assert!(ends_with("abc", ""));
    assert!(!ends_with("bc", "abc"));
    assert!(!ends_with("abd", "bc"));
    assert!(same_text("", ""));
    assert!(same_text("\u{e9}", "\u{e9}"));
    assert!(!same_text("a", "ab"));
    assert!(!same_text("ab", "ac"));
}

#[test]
fn the_time_taken_lies_between_start_and_end() {
    let start = std::time::UNIX_EPOCH + std::time::Duration::from_secs(10);
    let end = std::time::UNIX_EPOCH + std::time::Duration::from_millis(25_500);
    let mut result = ExtractionResult::new("chrome".to_string());
    result.started_at = start;
    assert_eq!(result.duration(), None);
    result.completed_at = Some(end);
    assert_eq!(result.duration(), Some(std::time::Duration::from_millis(15_500)));
    result.completed_at = Some(start);
    assert_eq!(result.duration(), Some(std::time::Duration::from_secs(0)));
    result.started_at = end;
    assert_eq!(result.duration(), None);
}
