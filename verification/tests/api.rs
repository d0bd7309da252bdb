use quantified_core::collectors::base::Snapshot;
use quantified_core::error::Error;
use quantified_core::locate::ScannedDir;
use quantified_core::types::{CollectorType, ExtractionResult};
use quantified_core::uniffi_api::{
    build_report, count_of, create_source_result, date_text, describe_source, earliest_of,
    extract_all_data, extract_single_source, get_database_stats, latest_of, scan_data_source,
    scan_data_sources, stats_db_path, summarize_stats, time_of, DataSourceType, DatabaseStats,
    Extraction, ExtractionConfig, ExtractionError, SeenFile, SourceObservation, SourceResult,
};
use quantified_core::sqlite::SqlFailure;
use quantified_core::open_unified_db;
use rusqlite::Connection;
use std::time::Duration;
use tempfile::TempDir;

fn copied_to(copy: String) -> Snapshot {
    Snapshot::Taken { source: format!("/found{}", copy), copy }
}

fn seen(exists: bool, size: Option<u64>, modified: Option<i128>) -> SeenFile {
    SeenFile { exists, size_bytes: size, modified }
}

fn observation(
    source_type: DataSourceType,
    seen_files: Vec<SeenFile>,
    scanned: Vec<ScannedDir>,
) -> SourceObservation {
    SourceObservation {
        source_type,
        candidates: source_type.possible_paths(),
        seen: seen_files,
        root: "/root".to_string(),
        scanned,
    }
}

fn profile(name: &str, modified: i128) -> ScannedDir {
    ScannedDir {
        name: name.to_string(),
        is_dir: true,
        target_exists: true,
        target_size: Some(4096),
        target_modified: Some(modified),
    }
}

#[test]
fn sources_have_names_and_paths() {
    assert_eq!(DataSourceType::Messages.name(), "Messages");
    assert_eq!(DataSourceType::Chrome.name(), "Chrome Browser");
    assert_eq!(DataSourceType::KnowledgeC.name(), "System Activity");
    assert_eq!(DataSourceType::Podcasts.name(), "Podcasts");
    assert_eq!(DataSourceType::Messages.to_collector_type(), CollectorType::Messages);
    assert_eq!(DataSourceType::Chrome.to_collector_type(), CollectorType::Chrome);
    assert_eq!(DataSourceType::KnowledgeC.to_collector_type(), CollectorType::KnowledgeC);
    assert_eq!(DataSourceType::Podcasts.to_collector_type(), CollectorType::Podcasts);
    assert_eq!(DataSourceType::Messages.possible_paths(), vec!["~/Library/Messages/chat.db"]);
    assert_eq!(
        DataSourceType::Chrome.possible_paths(),
        vec![
            "~/Library/Application Support/Google/Chrome/Default/History",
            "~/Library/Application Support/Google/Chrome/Profile 1/History"
        ]
    );
    assert_eq!(
        DataSourceType::KnowledgeC.possible_paths(),
        vec![
            "~/Library/Application Support/Knowledge/knowledgeC.db",
            "/private/var/db/CoreDuet/Knowledge/knowledgeC.db"
        ]
    );
    assert_eq!(
        DataSourceType::Podcasts.possible_paths(),
        vec![
            "~/Library/Group Containers/243LU875E5.groups.com.apple.podcasts/Documents/MTLibrary.sqlite",
            "~/Library/Application Support/Podcasts/MTLibrary.sqlite",
            "~/Library/Containers/com.apple.podcasts/Data/Library/Application Support/Podcasts/MTLibrary.sqlite"
        ]
    );
}

#[test]
fn a_found_source_is_described() {
    let info = describe_source(
        DataSourceType::Chrome,
        Some("/p/History".to_string()),
        Some(123),
        Some(1672531200_999_999_999),
    );
    assert_eq!(info.source_type, DataSourceType::Chrome);
    assert_eq!(info.name, "Chrome Browser");
    assert_eq!(info.path.as_deref(), Some("/p/History"));
    assert!(info.accessible);
    assert_eq!(info.size_bytes, Some(123));
    assert_eq!(info.last_modified.as_deref(), Some("2023-01-01T00:00:00+00:00"));
    let info = describe_source(DataSourceType::Chrome, Some("/p".to_string()), None, Some(0));
    assert_eq!(info.last_modified.as_deref(), Some("1970-01-01T00:00:00+00:00"));
    let before = describe_source(DataSourceType::Chrome, Some("/p".to_string()), None, Some(-1));
    assert_eq!(before.last_modified, None);
    let far = describe_source(DataSourceType::Chrome, Some("/p".to_string()), None, Some(i128::MAX));
    assert_eq!(far.last_modified, None);
    let unreachable_year = describe_source(
        DataSourceType::Chrome,
        Some("/p".to_string()),
        None,
        Some(i64::MAX as i128 * 1_000_000_000),
    );
    assert_eq!(unreachable_year.last_modified, None);
    let missing = describe_source(DataSourceType::Podcasts, None, Some(5), Some(5));
    assert_eq!(missing.path, None);
    assert!(!missing.accessible);
    assert_eq!(missing.size_bytes, None);
    assert_eq!(missing.last_modified, None);
    assert_eq!(missing.name, "Podcasts");
}

#[test]
fn the_scan_takes_the_first_path_that_exists() {
    let obs = observation(
        DataSourceType::Chrome,
        vec![seen(false, None, None), seen(true, Some(9), Some(1672531200_000_000_000))],
        vec![profile("Default", 5)],
    );
    let info = scan_data_source(&obs);
    assert_eq!(
        info.path.as_deref(),
        Some("~/Library/Application Support/Google/Chrome/Profile 1/History")
    );
    assert_eq!(info.size_bytes, Some(9));
    assert_eq!(info.last_modified.as_deref(), Some("2023-01-01T00:00:00+00:00"));
    assert!(info.accessible);
}

#[test]
fn the_scan_falls_back_to_discovery() {
    let obs = observation(
        DataSourceType::Chrome,
        vec![seen(false, None, None), seen(false, None, None)],
        vec![profile("Default", 5), profile("Profile 7", 86_400_000_000_000), profile("Profile 8", 6)],
    );
    let info = scan_data_source(&obs);
    assert_eq!(info.path.as_deref(), Some("/root/Profile 7/History"));
    assert_eq!(info.size_bytes, Some(4096));
    assert_eq!(info.last_modified.as_deref(), Some("1970-01-02T00:00:00+00:00"));

    let obs = observation(
        DataSourceType::Podcasts,
        vec![],
        vec![profile("Default", 5), profile("Z.groups.com.apple.podcasts", 1)],
    );
    let info = scan_data_source(&obs);
    assert_eq!(
        info.path.as_deref(),
        Some("/root/Z.groups.com.apple.podcasts/Documents/MTLibrary.sqlite")
    );

    let obs = observation(DataSourceType::Messages, vec![seen(false, None, None)], vec![profile("Default", 5)]);
    let info = scan_data_source(&obs);
    assert_eq!(info.path, None);
    assert!(!info.accessible);
    let obs = observation(DataSourceType::KnowledgeC, vec![], vec![profile("Default", 5)]);
    assert_eq!(scan_data_source(&obs).path, None);
    let obs = observation(DataSourceType::Chrome, vec![], vec![]);
    assert_eq!(scan_data_source(&obs).path, None);
}

#[test]
fn every_source_is_scanned() {
    let observations = vec![
        observation(DataSourceType::Messages, vec![seen(true, Some(1), None)], vec![]),
        observation(DataSourceType::Chrome, vec![], vec![]),
        observation(DataSourceType::KnowledgeC, vec![seen(false, None, None), seen(true, None, None)], vec![]),
        observation(DataSourceType::Podcasts, vec![], vec![]),
    ];
    let infos = scan_data_sources(&observations);
    assert_eq!(infos.len(), 4);
    let kinds: Vec<DataSourceType> = infos.iter().map(|i| i.source_type).collect();
    assert_eq!(
        kinds,
        vec![
            DataSourceType::Messages,
            DataSourceType::Chrome,
            DataSourceType::KnowledgeC,
            DataSourceType::Podcasts
        ]
    );
    assert_eq!(infos[0].path.as_deref(), Some("~/Library/Messages/chat.db"));
    assert_eq!(infos[0].last_modified, None);
    assert!(!infos[1].accessible);
    assert_eq!(
        infos[2].path.as_deref(),
        Some("/private/var/db/CoreDuet/Knowledge/knowledgeC.db")
    );
    assert!(!infos[3].accessible);
    assert_eq!(scan_data_sources(&[]), vec![]);
}

#[test]
fn results_of_sources_are_reported() {
    let completed = ExtractionResult::new("chrome".to_string()).complete(3, 4);
    assert_eq!(
        create_source_result(DataSourceType::Chrome, Ok(completed)),
        SourceResult {
            source_type: DataSourceType::Chrome,
            source_name: "Chrome Browser".to_string(),
            records_added: 3,
            records_skipped: 4,
            success: true,
            error_message: None,
        }
    );
    let failed = ExtractionResult::new("chrome".to_string()).fail("no".to_string());
    assert_eq!(
        create_source_result(DataSourceType::Chrome, Ok(failed)),
        SourceResult {
            source_type: DataSourceType::Chrome,
            source_name: "Chrome Browser".to_string(),
            records_added: 0,
            records_skipped: 0,
            success: false,
            error_message: Some("no".to_string()),
        }
    );
    assert_eq!(
        create_source_result(DataSourceType::Messages, Err(Error::Database("locked".to_string()))),
        SourceResult {
            source_type: DataSourceType::Messages,
            source_name: "Messages".to_string(),
            records_added: 0,
            records_skipped: 0,
            success: false,
            error_message: Some("Database error: locked".to_string()),
        }
    );
}

fn source_result(added: u64, skipped: u64, success: bool) -> SourceResult {
    SourceResult {
        source_type: DataSourceType::Chrome,
        source_name: "Chrome Browser".to_string(),
        records_added: added,
        records_skipped: skipped,
        success,
        error_message: None,
    }
}

#[test]
fn a_report_sums_the_successful_sources() {
    let results = vec![source_result(1, 2, true), source_result(50, 60, false), source_result(3, 4, true)];
    let report = build_report(results.clone(), Duration::from_millis(1500), "Some failed");
    assert_eq!(report.results, results);
    assert_eq!(report.total_records_added, 4);
    assert_eq!(report.total_records_skipped, 6);
    assert_eq!(report.duration, Duration::from_millis(1500));
    assert!(!report.success);
    assert_eq!(report.error_message.as_deref(), Some("Some failed"));
    let all = build_report(vec![source_result(1, 2, true)], Duration::ZERO, "x");
    assert!(all.success);
    assert_eq!(all.error_message, None);
    assert_eq!((all.total_records_added, all.total_records_skipped), (1, 2));
    let none = build_report(vec![], Duration::ZERO, "x");
    assert!(none.success);
    assert_eq!((none.total_records_added, none.total_records_skipped), (0, 0));
    let full = build_report(
        vec![source_result(u64::MAX, 1, true), source_result(5, u64::MAX - 1, true)],
        Duration::ZERO,
        "x",
    );
    assert_eq!((full.total_records_added, full.total_records_skipped), (u64::MAX, u64::MAX));
}

#[test]
fn failures_are_handed_on_in_kinds() {
    let cases = vec![
        (Error::Database("x".to_string()), ExtractionError::DatabaseError { msg: "x".to_string() }),
        (Error::Io("x".to_string()), ExtractionError::Other { msg: "x".to_string() }),
        (
            Error::SourceNotFound { paths: "    - /a".to_string() },
            ExtractionError::SourceNotFound { msg: "Source database not found".to_string() },
        ),
        (Error::CopyFailed("x".to_string()), ExtractionError::ExtractionFailed { msg: "x".to_string() }),
        (
            Error::PermissionDenied { path: "/p".to_string() },
            ExtractionError::PermissionDenied { msg: "/p".to_string() },
        ),
        (
            Error::DatabaseNotFound("/d".to_string()),
            ExtractionError::DatabaseError { msg: "Database not found: /d".to_string() },
        ),
        (Error::InvalidTimestamp("x".to_string()), ExtractionError::Other { msg: "x".to_string() }),
        (
            Error::ExtractionFailed("x".to_string()),
            ExtractionError::ExtractionFailed { msg: "x".to_string() },
        ),
        (Error::UnsupportedCollector("x".to_string()), ExtractionError::Other { msg: "x".to_string() }),
        (
            Error::sql_error("op", "q", "e", "s"),
            ExtractionError::DatabaseError {
                msg: "SQL query failed in op\n  Query: q\n  Error: e\n  Suggestion: s".to_string(),
            },
        ),
        (
            Error::database_context("op", "p", "e", "s"),
            ExtractionError::DatabaseError {
                msg: "Database error in op\n  Source: p\n  Error: e\n  s".to_string(),
            },
        ),
        (
            Error::io_context("op", "p", "e"),
            ExtractionError::Other { msg: "IO error during op\n  Path: p\n  Error: e".to_string() },
        ),
    ];
    for (from, to) in cases {
        assert_eq!(ExtractionError::from_error(from), to);
    }
    assert_eq!(
        ExtractionError::DatabaseError { msg: "m".to_string() }.to_string(),
        "Database error: m"
    );
    assert_eq!(
        ExtractionError::SourceNotFound { msg: "m".to_string() }.to_string(),
        "Source not found: m"
    );
    assert_eq!(
        ExtractionError::PermissionDenied { msg: "m".to_string() }.to_string(),
        "Permission denied: m"
    );
    assert_eq!(ExtractionError::InvalidPath { msg: "m".to_string() }.to_string(), "Invalid path: m");
    assert_eq!(
        ExtractionError::ExtractionFailed { msg: "m".to_string() }.to_string(),
        "Extraction failed: m"
    );
    assert_eq!(ExtractionError::Other { msg: "m".to_string() }.to_string(), "Error: m");
}

fn api_config(dir: &TempDir, sources: Vec<DataSourceType>) -> ExtractionConfig {
    ExtractionConfig {
        output_dir: dir.path().to_str().unwrap().to_string(),
        enabled_sources: sources,
        verbose: false,
    }
}

fn small_chrome_source(dir: &TempDir) -> String {
    let path = dir.path().join("History");
    let conn = Connection::open(&path).unwrap();
    conn.execute_batch(
        "CREATE TABLE urls (id INTEGER PRIMARY KEY, url TEXT, title TEXT);
         CREATE TABLE visits (id INTEGER PRIMARY KEY, url INTEGER, visit_time INTEGER,
                              visit_duration INTEGER, transition INTEGER);
         INSERT INTO urls VALUES (1, 'https://a.example/', 'A');
         INSERT INTO visits VALUES (1, 1, 13317004800000000, 10, 0);
         INSERT INTO visits VALUES (2, 1, 13317004900000000, 10, 0);",
    )
    .unwrap();
    path.to_str().unwrap().to_string()
}

#[test]
fn a_batch_succeeds_only_if_every_source_does() {
    let dir = TempDir::new().unwrap();
    let source = small_chrome_source(&dir);
    let config = api_config(&dir, vec![DataSourceType::Chrome, DataSourceType::Messages]);
    let report =
        extract_all_data(config.clone(), vec![copied_to(source.clone()), Snapshot::NotFound])
            .unwrap();
    assert_eq!(report.results.len(), 2);
    assert!(report.results[0].success);
    assert_eq!(report.results[0].source_type, DataSourceType::Chrome);
    assert_eq!(report.results[0].records_added, 2);
    assert!(!report.results[1].success);
    assert_eq!(
        report.results[1].error_message.as_deref(),
        Some("Source database not found for messages")
    );
    assert!(!report.success);
    assert_eq!(report.error_message.as_deref(), Some("Some sources failed to extract"));
    assert_eq!((report.total_records_added, report.total_records_skipped), (2, 0));

    let only = api_config(&dir, vec![DataSourceType::Chrome]);
    let report = extract_all_data(only, vec![copied_to(source)]).unwrap();
    assert!(report.success);
    assert_eq!(report.error_message, None);
    assert_eq!((report.total_records_added, report.total_records_skipped), (0, 2));

    let nothing = extract_all_data(api_config(&dir, vec![]), vec![]).unwrap();
    assert!(nothing.success);
    assert!(nothing.results.is_empty());
}

#[test]
fn one_source_is_extracted() {
    let dir = TempDir::new().unwrap();
    let source = small_chrome_source(&dir);
    let config = api_config(&dir, vec![]);
    let report =
        extract_single_source(config.clone(), DataSourceType::Chrome, copied_to(source))
            .unwrap();
    assert!(report.success);
    assert_eq!(report.results.len(), 1);
    assert_eq!(report.total_records_added, 2);
    let report = extract_single_source(config, DataSourceType::Podcasts, Snapshot::NotFound).unwrap();
    assert!(!report.success);
    assert_eq!(report.error_message.as_deref(), Some("Extraction failed"));
    assert_eq!(report.total_records_added, 0);
}

#[test]
fn a_store_that_cannot_be_opened_fails_the_batch() {
    let dir = TempDir::new().unwrap();
    let mut config = api_config(&dir, vec![DataSourceType::Chrome]);
    config.output_dir = dir.path().join("missing").join("deeper").to_str().unwrap().to_string();
    let failed = extract_all_data(config, vec![Snapshot::NotFound]);
    assert!(matches!(failed, Err(ExtractionError::DatabaseError { .. })));
}

#[test]
fn the_earliest_and_the_latest_date() {
    let times = vec![Some(1683000000), None, Some(1609459200), Some(1735603200), Some(1609459200)];
    assert_eq!(earliest_of(&times), Some(1609459200));
    assert_eq!(latest_of(&times), Some(1735603200));
    assert_eq!(earliest_of(&vec![None, None]), None);
    assert_eq!(latest_of(&vec![]), None);
    assert_eq!(earliest_of(&vec![Some(-5), Some(3)]), Some(-5));
    assert_eq!(latest_of(&vec![Some(9), Some(10)]), Some(10));
    assert_eq!(latest_of(&vec![None, Some(i64::MIN)]), Some(i64::MIN));
    assert_eq!(date_text(Some(1672531200)).as_deref(), Some("2023-01-01T00:00:00+00:00"));
    assert_eq!(date_text(None), None);
    assert_eq!(date_text(Some(i64::MAX)), None);
    assert_eq!(time_of(Ok(Some(4))), Some(4));
    assert_eq!(time_of(Ok(None)), None);
    assert_eq!(time_of(Err(SqlFailure { extended_code: None, text: "x".to_string() })), None);
}

#[test]
fn statistics_are_summed() {
    let stats = summarize_stats(1, 2, 3, 4, &vec![Some(86400), Some(0)], &vec![Some(1672531200), None]);
    assert_eq!(
        stats,
        DatabaseStats {
            messages_count: 1,
            web_visits_count: 2,
            app_usage_count: 3,
            podcast_episodes_count: 4,
            total_records: 10,
            earliest_date: Some("1970-01-01T00:00:00+00:00".to_string()),
            latest_date: Some("2023-01-01T00:00:00+00:00".to_string()),
        }
    );
    assert_eq!(summarize_stats(u64::MAX, 1, 0, 0, &vec![], &vec![]).total_records, u64::MAX);
    assert_eq!(count_of(Ok(7)), 7);
    assert_eq!(count_of(Ok(0)), 0);
    assert_eq!(count_of(Ok(-3)), 0);
    assert_eq!(count_of(Err(SqlFailure { extended_code: None, text: "x".to_string() })), 0);
}

#[test]
fn the_statistics_of_a_store() {
    let dir = TempDir::new().unwrap();
    let out = dir.path().to_str().unwrap().to_string();
    let db_path = stats_db_path(&out);
    assert_eq!(db_path, format!("{}/unified.db", out));
    assert_eq!(
        get_database_stats(&db_path, false),
        Err(ExtractionError::DatabaseError { msg: format!("Database not found at {}", db_path) })
    );
    let conn = open_unified_db(&out).unwrap();
    conn.execute_batch(
        "INSERT INTO messages (record_hash, timestamp) VALUES ('m1', 1672531200);
         INSERT INTO messages (record_hash, timestamp) VALUES ('m2', 1672531300);
         INSERT INTO web_visits (record_hash, url, visit_time) VALUES ('v1', 'u', 1672531100);
         INSERT INTO app_usage (record_hash, bundle_id, start_time) VALUES ('a1', 'b', 1672531400);
         INSERT INTO app_usage (record_hash, bundle_id, start_time) VALUES ('a2', 'b', 1672531401);
         INSERT INTO app_usage (record_hash, bundle_id, start_time) VALUES ('a3', 'b', 1672531402);
         INSERT INTO contacts (record_hash, handle_id) VALUES ('c1', 'h');",
    )
    .unwrap();
    let stats = get_database_stats(&db_path, true).unwrap();
    assert_eq!(
        (stats.messages_count, stats.web_visits_count, stats.app_usage_count, stats.podcast_episodes_count),
        (2, 1, 3, 0)
    );
    assert_eq!(stats.total_records, 6);
    assert_eq!(stats.earliest_date.as_deref(), Some("2022-12-31T23:58:20+00:00"));
    assert_eq!(stats.latest_date.as_deref(), Some("2023-01-01T00:03:22+00:00"));

    conn.execute_batch(
        "INSERT INTO podcast_episodes (record_hash, last_played_at) VALUES ('e1', 1675209600);
         INSERT INTO podcast_episodes (record_hash, last_played_at) VALUES ('e2', 1643673600);
         INSERT INTO podcast_episodes (record_hash, last_played_at) VALUES ('e3', NULL);",
    )
    .unwrap();
    let stats = get_database_stats(&db_path, true).unwrap();
    assert_eq!(stats.podcast_episodes_count, 3);
    assert_eq!(stats.total_records, 9);
    assert_eq!(stats.earliest_date.as_deref(), Some("2022-02-01T00:00:00+00:00"));
    assert_eq!(stats.latest_date.as_deref(), Some("2023-02-01T00:00:00+00:00"));

    let other = TempDir::new().unwrap();
    let bare = other.path().join("unified.db");
    Connection::open(&bare).unwrap().execute_batch("CREATE TABLE unrelated (x)").unwrap();
    let stats = get_database_stats(bare.to_str().unwrap(), true).unwrap();
    assert_eq!(stats.total_records, 0);
    assert_eq!(stats.earliest_date, None);
}

#[test]
fn the_configuration_of_the_collectors() {
    let config = ExtractionConfig {
        output_dir: "/tmp/q".to_string(),
        enabled_sources: vec![DataSourceType::Chrome],
        verbose: true,
    };
    let core = config.to_core_config();
    assert_eq!(core.output_dir, "/tmp/q");
    assert_eq!(core.source_db_dir, "/tmp/q/source_dbs");
    assert!(core.verbose);
    assert_eq!(core.custom_source_paths, None);
    let home = ExtractionConfig { output_dir: "~/q".to_string(), enabled_sources: vec![], verbose: false };
    let core = home.to_core_config();
    assert!(core.output_dir.ends_with("/q"));
    assert_eq!(core.source_db_dir, format!("{}/source_dbs", core.output_dir));
    assert!(!core.verbose);
}

#[test]
fn the_scan_knows_its_sources() {
    assert_eq!(
        DataSourceType::all(),
        vec![
            DataSourceType::Messages,
            DataSourceType::Chrome,
            DataSourceType::KnowledgeC,
            DataSourceType::Podcasts
        ]
    );
    assert_eq!(DataSourceType::Messages.scan_root(), None);
    assert_eq!(DataSourceType::KnowledgeC.scan_target(), None);
    assert!(DataSourceType::Podcasts.scan_root().unwrap().ends_with("/Library/Group Containers"));
    assert!(DataSourceType::Chrome
        .scan_root()
        .unwrap()
        .ends_with("/Library/Application Support/Google/Chrome"));
    assert_eq!(DataSourceType::Podcasts.scan_target(), Some("Documents/MTLibrary.sqlite"));
    assert_eq!(DataSourceType::Chrome.scan_target(), Some("History"));
}

#[test]
fn an_extraction_goes_from_source_to_source() {
    let dir = TempDir::new().unwrap();
    let source_dir = TempDir::new().unwrap();
    let source = small_chrome_source(&source_dir);
    let config = api_config(&dir, vec![DataSourceType::Podcasts, DataSourceType::Chrome]);
    let mut extraction = Extraction::of_all(&config);
    assert_eq!(extraction.sources, config.enabled_sources);
    let unified = open_unified_db(&extraction.config.output_dir).unwrap();
    assert_eq!(extraction.next(), Some(DataSourceType::Podcasts));
    extraction.extract(&unified, Snapshot::NotFound);
    assert_eq!(extraction.next(), Some(DataSourceType::Chrome));
    extraction.extract(&unified, copied_to(source));
    assert_eq!(extraction.next(), None);
    extraction.extract(&unified, Snapshot::NotFound);
    let report = extraction.finish();
    assert_eq!(report.results.len(), 2);
    assert!(!report.results[0].success);
    assert!(report.results[1].success);
    assert!(!report.success);
    assert_eq!(report.error_message.as_deref(), Some("Some sources failed to extract"));
    assert_eq!(report.total_records_added, report.results[1].records_added);

    let single = Extraction::of_one(&config, DataSourceType::Messages);
    assert_eq!(single.sources, vec![DataSourceType::Messages]);
    assert_eq!(single.failure_words, "Extraction failed");
}
