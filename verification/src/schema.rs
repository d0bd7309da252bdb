//! The schema of the unified store: one table for each kind of record and
//! one for the run ledger. Every table of records holds the identity key in
//! a column of its own that admits no value twice, and every table that
//! holds a time has an index on its primary time field.

use vstd::prelude::*;
use crate::collectors::base::database_error;
use crate::error::Error;
use crate::sqlite::execute_batch;

verus! {

/// The statements that make the tables and indexes where they are not
/// there yet. All times are Unix seconds.
pub const SCHEMA_SQL: &'static str =
    "
-- Metadata about extraction runs
CREATE TABLE IF NOT EXISTS extraction_runs (
    id INTEGER PRIMARY KEY AUTOINCREMENT,
    started_at INTEGER NOT NULL,
    completed_at INTEGER,
    source TEXT NOT NULL,
    records_added INTEGER DEFAULT 0,
    records_skipped INTEGER DEFAULT 0,
    status TEXT DEFAULT 'running'
);

-- App usage sessions from knowledgeC
CREATE TABLE IF NOT EXISTS app_usage (
    id INTEGER PRIMARY KEY AUTOINCREMENT,
    record_hash TEXT UNIQUE NOT NULL,
    bundle_id TEXT NOT NULL,
    start_time INTEGER NOT NULL,
    end_time INTEGER,
    duration_seconds REAL,
    device_id TEXT,
    device_model TEXT,
    source_db TEXT DEFAULT 'knowledgeC'
);

-- Web browsing from Chrome
CREATE TABLE IF NOT EXISTS web_visits (
    id INTEGER PRIMARY KEY AUTOINCREMENT,
    record_hash TEXT UNIQUE NOT NULL,
    url TEXT NOT NULL,
    title TEXT,
    visit_time INTEGER NOT NULL,
    visit_duration_seconds REAL,
    transition_type TEXT,
    browser TEXT DEFAULT 'chrome'
);

-- Bluetooth device connections from knowledgeC
CREATE TABLE IF NOT EXISTS bluetooth_connections (
    id INTEGER PRIMARY KEY AUTOINCREMENT,
    record_hash TEXT UNIQUE NOT NULL,
    device_name TEXT,
    device_address TEXT,
    device_type INTEGER,
    product_id INTEGER,
    start_time INTEGER NOT NULL,
    end_time INTEGER,
    duration_seconds REAL
);

-- Notifications from knowledgeC
CREATE TABLE IF NOT EXISTS notifications (
    id INTEGER PRIMARY KEY AUTOINCREMENT,
    record_hash TEXT UNIQUE NOT NULL,
    bundle_id TEXT NOT NULL,
    event_type TEXT,
    timestamp INTEGER NOT NULL
);

-- Messages (iMessage/SMS)
CREATE TABLE IF NOT EXISTS messages (
    id INTEGER PRIMARY KEY AUTOINCREMENT,
    record_hash TEXT UNIQUE NOT NULL,
    text TEXT,
    is_from_me INTEGER,
    timestamp INTEGER NOT NULL,
    date_read INTEGER,
    date_delivered INTEGER,
    handle_id TEXT,
    chat_id TEXT,
    service TEXT,
    has_attachment INTEGER DEFAULT 0
);

-- Message conversations/chats
CREATE TABLE IF NOT EXISTS chats (
    id INTEGER PRIMARY KEY AUTOINCREMENT,
    record_hash TEXT UNIQUE NOT NULL,
    chat_identifier TEXT,
    display_name TEXT,
    participant_count INTEGER,
    last_message_time INTEGER
);

-- Contact information from Messages database
CREATE TABLE IF NOT EXISTS contacts (
    id INTEGER PRIMARY KEY AUTOINCREMENT,
    record_hash TEXT UNIQUE NOT NULL,
    handle_id TEXT NOT NULL,
    display_name TEXT,
    service TEXT
);

-- Podcast listening history
CREATE TABLE IF NOT EXISTS podcast_episodes (
    id INTEGER PRIMARY KEY AUTOINCREMENT,
    record_hash TEXT UNIQUE NOT NULL,
    episode_title TEXT,
    show_title TEXT,
    show_uuid TEXT,
    duration_seconds REAL,
    played_seconds REAL,
    play_count INTEGER,
    last_played_at INTEGER,
    published_at INTEGER
);

-- Podcast shows/subscriptions
CREATE TABLE IF NOT EXISTS podcast_shows (
    id INTEGER PRIMARY KEY AUTOINCREMENT,
    record_hash TEXT UNIQUE NOT NULL,
    title TEXT NOT NULL,
    author TEXT,
    feed_url TEXT,
    subscribed_at INTEGER,
    episode_count INTEGER
);

-- Intents/Siri actions from knowledgeC
CREATE TABLE IF NOT EXISTS intents (
    id INTEGER PRIMARY KEY AUTOINCREMENT,
    record_hash TEXT UNIQUE NOT NULL,
    intent_class TEXT,
    intent_verb TEXT,
    bundle_id TEXT,
    timestamp INTEGER NOT NULL
);

-- Display state (screen on/off)
CREATE TABLE IF NOT EXISTS display_state (
    id INTEGER PRIMARY KEY AUTOINCREMENT,
    record_hash TEXT UNIQUE NOT NULL,
    is_backlit INTEGER,
    start_time INTEGER NOT NULL,
    end_time INTEGER,
    duration_seconds REAL
);

-- Create indexes for common queries
CREATE INDEX IF NOT EXISTS idx_app_usage_time ON app_usage(start_time);
CREATE INDEX IF NOT EXISTS idx_app_usage_bundle ON app_usage(bundle_id);
CREATE INDEX IF NOT EXISTS idx_web_visits_time ON web_visits(visit_time);
CREATE INDEX IF NOT EXISTS idx_messages_time ON messages(timestamp);
CREATE INDEX IF NOT EXISTS idx_messages_handle ON messages(handle_id);
CREATE INDEX IF NOT EXISTS idx_contacts_handle ON contacts(handle_id);
CREATE INDEX IF NOT EXISTS idx_notifications_time ON notifications(timestamp);
CREATE INDEX IF NOT EXISTS idx_bluetooth_time ON bluetooth_connections(start_time);
CREATE INDEX IF NOT EXISTS idx_podcast_episodes_played ON podcast_episodes(last_played_at);
CREATE INDEX IF NOT EXISTS idx_podcast_shows_subscribed ON podcast_shows(subscribed_at);
CREATE INDEX IF NOT EXISTS idx_chats_time ON chats(last_message_time);
CREATE INDEX IF NOT EXISTS idx_intents_time ON intents(timestamp);
CREATE INDEX IF NOT EXISTS idx_display_state_time ON display_state(start_time);
CREATE INDEX IF NOT EXISTS idx_extraction_runs_started ON extraction_runs(started_at);
";

/// Makes the tables and indexes of the unified store where they are not
/// there yet. A store that has them already is left as it is.
pub fn init_database(conn: &rusqlite::Connection) -> (r: Result<(), Error>)
    ensures
        r matches Err(e) ==> e is Database,
{
    match execute_batch(conn, SCHEMA_SQL) {
        Ok(_) => Ok(()),
        Err(failure) => Err(database_error(failure)),
    }
}

} // verus!
