use quantified_core::open_unified_db;
use quantified_core::schema::init_database;
use quantified_core::types::ExtractionConfig;
use rusqlite::Connection;
use tempfile::TempDir;

#[test]
fn test_open_unified_db() {
    let temp_dir = TempDir::new().unwrap();
    let config = ExtractionConfig {
        output_dir: temp_dir.path().to_str().unwrap().to_string(),
        ..Default::default()
    };

    let conn = open_unified_db(&config.output_dir).unwrap();

    let table_count: i64 = conn
        .query_row("SELECT COUNT(*) FROM sqlite_master WHERE type='table'", [], |row| row.get(0))
        .unwrap();

    assert!(table_count > 0, "Database should have tables");
    assert!(temp_dir.path().join("unified.db").exists());
}

#[test]
fn test_schema_creation() {
    let conn = Connection::open_in_memory().unwrap();
    init_database(&conn).unwrap();

    let tables: Vec<String> = conn
        .prepare("SELECT name FROM sqlite_master WHERE type='table' ORDER BY name")
        .unwrap()
        .query_map([], |row| row.get(0))
        .unwrap()
        .collect::<std::result::Result<Vec<_>, _>>()
        .unwrap();

    assert!(tables.contains(&"app_usage".to_string()));
    assert!(tables.contains(&"web_visits".to_string()));
    assert!(tables.contains(&"messages".to_string()));
    assert!(tables.contains(&"chats".to_string()));
    assert!(tables.contains(&"podcast_episodes".to_string()));
    assert!(tables.contains(&"extraction_runs".to_string()));
}

#[test]
fn test_indexes_created() {
    let conn = Connection::open_in_memory().unwrap();
    init_database(&conn).unwrap();

    let indexes: Vec<String> = conn
        .prepare("SELECT name FROM sqlite_master WHERE type='index'")
        .unwrap()
        .query_map([], |row| row.get(0))
        .unwrap()
        .collect::<std::result::Result<Vec<_>, _>>()
        .unwrap();

    assert!(indexes.iter().any(|i| i.starts_with("idx_")));
}

#[test]
fn making_the_schema_twice_is_harmless() {
    let conn = Connection::open_in_memory().unwrap();
    init_database(&conn).unwrap();
    conn.execute("INSERT INTO contacts (record_hash, handle_id) VALUES ('k', 'h')", []).unwrap();
    init_database(&conn).unwrap();
    let kept: i64 = conn.query_row("SELECT COUNT(*) FROM contacts", [], |row| row.get(0)).unwrap();
    assert_eq!(kept, 1);
    let tables: i64 = conn
        .query_row(
            "SELECT COUNT(*) FROM sqlite_master WHERE type='table' AND name NOT LIKE 'sqlite_%'",
            [],
            |row| row.get(0),
        )
        .unwrap();
    assert_eq!(tables, 12);
}

#[test]
fn every_table_of_records_refuses_a_key_twice() {
    let conn = Connection::open_in_memory().unwrap();
    init_database(&conn).unwrap();
    let inserts = [
        "INSERT INTO app_usage (record_hash, bundle_id, start_time) VALUES ('k', 'b', 1)",
        "INSERT INTO web_visits (record_hash, url, visit_time) VALUES ('k', 'u', 1)",
        "INSERT INTO bluetooth_connections (record_hash, start_time) VALUES ('k', 1)",
        "INSERT INTO notifications (record_hash, bundle_id, timestamp) VALUES ('k', 'b', 1)",
        "INSERT INTO messages (record_hash, timestamp) VALUES ('k', 1)",
        "INSERT INTO chats (record_hash) VALUES ('k')",
        "INSERT INTO contacts (record_hash, handle_id) VALUES ('k', 'h')",
        "INSERT INTO podcast_episodes (record_hash) VALUES ('k')",
        "INSERT INTO podcast_shows (record_hash, title) VALUES ('k', 't')",
        "INSERT INTO intents (record_hash, timestamp) VALUES ('k', 1)",
        "INSERT INTO display_state (record_hash, start_time) VALUES ('k', 1)",
    ];
    for insert in inserts {
        conn.execute(insert, []).unwrap();
        let again = conn.execute(insert, []);
        assert!(
            matches!(
                again,
                Err(rusqlite::Error::SqliteFailure(e, _)) if e.code == rusqlite::ErrorCode::ConstraintViolation
            ),
            "{}",
            insert
        );
    }
}

#[test]
fn every_table_with_a_time_has_an_index_on_it() {
    let conn = Connection::open_in_memory().unwrap();
    init_database(&conn).unwrap();
    let expected = [
        ("app_usage", "start_time"),
        ("web_visits", "visit_time"),
        ("bluetooth_connections", "start_time"),
        ("notifications", "timestamp"),
        ("messages", "timestamp"),
        ("chats", "last_message_time"),
        ("podcast_episodes", "last_played_at"),
        ("podcast_shows", "subscribed_at"),
        ("intents", "timestamp"),
        ("display_state", "start_time"),
        ("extraction_runs", "started_at"),
    ];
    for (table, column) in expected {
        let indexed: i64 = conn
            .query_row(
                "SELECT COUNT(*) FROM sqlite_master WHERE type = 'index' AND tbl_name = ?1
                 AND sql LIKE '%(' || ?2 || ')'",
                [table, column],
                |row| row.get(0),
            )
            .unwrap();
        assert!(indexed >= 1, "{} {}", table, column);
    }
}
