//! The collector of the device-usage telemetry store.

use vstd::prelude::*;
use crate::collectors::base::{
    bump, database_error, is_key, is_row_limit_failure, not_below, one_more, present_key, too_many_rows,
    BaseCollector, Collector, ROW_LIMIT,
};
use crate::collectors::utils::{make_hash_from_values, record_hash};
use crate::error::Error;
use crate::sqlite::{
    cell_at, cells, column_int, column_number, column_opt_int, column_opt_text, column_text,
    next_row, opt_int_of, opt_int_param, opt_text_of, opt_text_param, opt_view, prepare, query,
    read_int, read_number, read_opt_int, read_opt_text, read_text, text_of, text_param, Cell,
    SqlFailure, SqlParam,
};
use crate::text::{decimal, i64_to_string, same_text};
use crate::timestamp::{apple_to_unix_opt, apple_unix_opt, Number};
use crate::types::{CollectorType, ExtractionConfig};

verus! {

/// The query that reads which model each device is.
pub const DEVICES_QUERY: &'static str =
    "SELECT ZDEVICEID, ZMODEL FROM ZSYNCPEER WHERE ZDEVICEID IS NOT NULL AND ZMODEL IS NOT NULL";

/// The query that reads the sessions of application use.
pub const APP_USAGE_QUERY: &'static str =
    "
            SELECT
                o.Z_PK,
                o.ZVALUESTRING,
                o.ZSTARTDATE,
                o.ZENDDATE,
                s.ZDEVICEID
            FROM ZOBJECT o
            LEFT JOIN ZSOURCE s ON o.ZSOURCE = s.Z_PK
            WHERE o.ZSTREAMNAME = '/app/usage'
              AND o.ZVALUESTRING IS NOT NULL
            ORDER BY o.ZSTARTDATE
            ";

/// The statement that stores a session of application use.
pub const APP_USAGE_INSERT: &'static str =
    "
                INSERT INTO app_usage
                (record_hash, bundle_id, start_time, end_time, duration_seconds, device_id, device_model)
                VALUES (?, ?, ?, ?, ?, ?, ?)
                ";

/// The query that reads the bluetooth connections.
pub const BLUETOOTH_QUERY: &'static str =
    "
            SELECT
                o.Z_PK,
                o.ZSTARTDATE,
                o.ZENDDATE,
                sm.Z_DKBLUETOOTHMETADATAKEY__NAME,
                sm.Z_DKBLUETOOTHMETADATAKEY__ADDRESS,
                sm.Z_DKBLUETOOTHMETADATAKEY__DEVICETYPE,
                sm.Z_DKBLUETOOTHMETADATAKEY__PRODUCTID
            FROM ZOBJECT o
            LEFT JOIN ZSTRUCTUREDMETADATA sm ON o.ZSTRUCTUREDMETADATA = sm.Z_PK
            WHERE o.ZSTREAMNAME = '/bluetooth/isConnected'
            ORDER BY o.ZSTARTDATE
            ";

/// The statement that stores a bluetooth connection.
pub const BLUETOOTH_INSERT: &'static str =
    "
                INSERT INTO bluetooth_connections
                (record_hash, device_name, device_address, device_type, product_id, start_time, end_time, duration_seconds)
                VALUES (?, ?, ?, ?, ?, ?, ?, ?)
                ";

/// The query that reads the notifications.
pub const NOTIFICATIONS_QUERY: &'static str =
    "
            SELECT
                o.Z_PK,
                o.ZVALUESTRING,
                o.ZSTARTDATE,
                s.ZBUNDLEID
            FROM ZOBJECT o
            LEFT JOIN ZSOURCE s ON o.ZSOURCE = s.Z_PK
            WHERE o.ZSTREAMNAME = '/notification/usage'
            ORDER BY o.ZSTARTDATE
            ";

/// The statement that stores a notification.
pub const NOTIFICATION_INSERT: &'static str =
    "
                INSERT INTO notifications (record_hash, bundle_id, event_type, timestamp)
                VALUES (?, ?, ?, ?)
                ";

/// The query that reads the intents.
pub const INTENTS_QUERY: &'static str =
    "
            SELECT
                o.Z_PK,
                o.ZSTARTDATE,
                sm.Z_DKINTENTMETADATAKEY__INTENTCLASS,
                sm.Z_DKINTENTMETADATAKEY__INTENTVERB,
                s.ZBUNDLEID
            FROM ZOBJECT o
            LEFT JOIN ZSTRUCTUREDMETADATA sm ON o.ZSTRUCTUREDMETADATA = sm.Z_PK
            LEFT JOIN ZSOURCE s ON o.ZSOURCE = s.Z_PK
            WHERE o.ZSTREAMNAME = '/app/intents'
            ORDER BY o.ZSTARTDATE
            ";

/// The statement that stores an intent.
pub const INTENT_INSERT: &'static str =
    "
                INSERT INTO intents (record_hash, intent_class, intent_verb, bundle_id, timestamp)
                VALUES (?, ?, ?, ?, ?)
                ";

/// The query that reads the intervals of the display state.
pub const DISPLAY_STATE_QUERY: &'static str =
    "
            SELECT
                o.Z_PK,
                o.ZVALUEINTEGER,
                o.ZSTARTDATE,
                o.ZENDDATE
            FROM ZOBJECT o
            WHERE o.ZSTREAMNAME = '/display/isBacklit'
            ORDER BY o.ZSTARTDATE
            ";

/// The statement that stores an interval of the display state.
pub const DISPLAY_STATE_INSERT: &'static str =
    "
                INSERT INTO display_state (record_hash, is_backlit, start_time, end_time, duration_seconds)
                VALUES (?, ?, ?, ?, ?)
                ";

/// The text, or the empty text for an absent one.
pub open spec fn text_or_empty(text: Option<String>) -> Seq<char> {
    match text {
        Some(t) => t@,
        None => Seq::empty(),
    }
}

fn or_empty(text: &Option<String>) -> (r: &str)
    ensures
        r@ == text_or_empty(*text),
{
    match text {
        Some(t) => t.as_str(),
        None => {
            proof {
                reveal_strlit("");
            }
            assert(""@ =~= Seq::<char>::empty());
            ""
        },
    }
}

/// The seconds from `start` to an end that lies behind it, or the largest
/// number where they do not fit; none for an absent end and for one that
/// does not lie behind the start.
pub open spec fn span(start: i64, end: Option<i64>) -> Option<i64> {
    match end {
        Some(e) => if e > start {
            if e - start > i64::MAX {
                Some(i64::MAX)
            } else {
                Some((e - start) as i64)
            }
        } else {
            None
        },
        None => None,
    }
}

/// The seconds from `start` to `end`.
pub fn span_between(start: i64, end: Option<i64>) -> (r: Option<i64>)
    ensures
        r == span(start, end),
{
    match end {
        Some(e) => if e > start {
            if start < 0 && e > i64::MAX + start {
                Some(i64::MAX)
            } else {
                Some(e - start)
            }
        } else {
            None
        },
        None => None,
    }
}

/// The model of the device `id`: that of the last entry of `devices` for
/// it.
pub open spec fn model_of(devices: Seq<(String, String)>, id: Seq<char>) -> Option<String>
    decreases devices.len(),
{
    if devices.len() == 0 {
        None
    } else if devices.last().0@ == id {
        Some(devices.last().1)
    } else {
        model_of(devices.drop_last(), id)
    }
}

/// The model of a device that may be absent.
pub open spec fn model_of_opt(devices: Seq<(String, String)>, id: Option<String>) -> Option<
    String,
> {
    match id {
        Some(d) => model_of(devices, d@),
        None => None,
    }
}

/// The model of the device `id`.
pub fn device_model(devices: &Vec<(String, String)>, id: &str) -> (r: Option<String>)
    ensures
        r == model_of(devices@, id@),
{
    let mut i: usize = devices.len();
    assert(devices@.take(i as int) =~= devices@);
    while i > 0
        invariant
            i <= devices.len(),
            model_of(devices@, id@) == model_of(devices@.take(i as int), id@),
        decreases i,
    {
        i = i - 1;
        proof {
            assert(devices@.take(i + 1).drop_last() =~= devices@.take(i as int));
            assert(devices@.take(i + 1).last() == devices@[i as int]);
        }
        if same_text(devices[i].0.as_str(), id) {
            return Some(devices[i].1.clone());
        }
    }
    assert(devices@.take(0).len() == 0);
    None
}

/// A session of application use as the telemetry store holds it.
#[derive(Debug, Clone, PartialEq, Eq)]
pub struct AppUsageRow {
    pub bundle_id: Option<String>,
    /// Seconds since 2001-01-01, as is the end.
    pub start_date: Option<Number>,
    pub end_date: Option<Number>,
    pub device_id: Option<String>,
}

/// A session of application use as the unified store holds it.
#[derive(Debug, Clone, PartialEq, Eq)]
pub struct AppUsageRecord {
    pub record_hash: String,
    pub bundle_id: String,
    /// Unix seconds, as is the end.
    pub start_time: i64,
    pub end_time: Option<i64>,
    pub duration_seconds: Option<i64>,
    pub device_id: Option<String>,
    pub device_model: Option<String>,
}

/// Whether a session has a record: it names an application and has a start.
pub open spec fn is_app_usage(row: AppUsageRow) -> bool {
    is_key(row.bundle_id) && apple_unix_opt(row.start_date) is Some
}

/// The natural-key parts of a session: the application, the start and the
/// device.
pub open spec fn app_usage_key(row: AppUsageRow) -> Seq<Seq<char>> {
    seq![
        row.bundle_id.unwrap()@,
        decimal(apple_unix_opt(row.start_date).unwrap() as int),
        text_or_empty(row.device_id),
    ]
}

/// Whether `record` is the record of the session `row`, the devices being
/// `devices`.
pub open spec fn is_app_usage_record(
    row: AppUsageRow,
    devices: Seq<(String, String)>,
    record: AppUsageRecord,
) -> bool {
    &&& is_app_usage(row)
    &&& record.record_hash@ == record_hash(app_usage_key(row))
    &&& record.bundle_id == row.bundle_id.unwrap()
    &&& Some(record.start_time) == apple_unix_opt(row.start_date)
    &&& record.end_time == apple_unix_opt(row.end_date)
    &&& record.duration_seconds == span(record.start_time, record.end_time)
    &&& record.device_id == row.device_id
    &&& record.device_model == model_of_opt(devices, row.device_id)
}

/// The record of a session; none for a session without an application or
/// without a start.
pub fn app_usage_record(row: AppUsageRow, devices: &Vec<(String, String)>) -> (r: Option<
    AppUsageRecord,
>)
    ensures
        match r {
            Some(record) => is_app_usage_record(row, devices@, record),
            None => !is_app_usage(row),
        },
{
    let bundle_id = match present_key(row.bundle_id) {
        Some(b) => b,
        None => {
            return None;
        },
    };
    let start_time = match apple_to_unix_opt(row.start_date) {
        Some(ts) => ts,
        None => {
            return None;
        },
    };
    let end_time = apple_to_unix_opt(row.end_date);
    let duration_seconds = span_between(start_time, end_time);
    let device_model = match &row.device_id {
        Some(id) => device_model(devices, id.as_str()),
        None => None,
    };
    let start_text = i64_to_string(start_time);
    let mut parts: Vec<&str> = Vec::new();
    parts.push(bundle_id.as_str());
    parts.push(start_text.as_str());
    parts.push(or_empty(&row.device_id));
    let record_hash = make_hash_from_values(parts.as_slice());
    assert(parts@.map_values(|p: &str| p@) =~= app_usage_key(row));
    Some(
        AppUsageRecord {
            record_hash,
            bundle_id,
            start_time,
            end_time,
            duration_seconds,
            device_id: row.device_id,
            device_model,
        },
    )
}

/// What is bound to the statement that stores a session.
pub open spec fn app_usage_param_list(record: AppUsageRecord) -> Seq<SqlParam> {
    seq![
        text_of(record.record_hash),
        text_of(record.bundle_id),
        SqlParam::Integer(record.start_time),
        opt_int_of(record.end_time),
        opt_int_of(record.duration_seconds),
        opt_text_of(record.device_id),
        opt_text_of(record.device_model),
    ]
}

/// What is bound to the statement that stores a session.
pub fn app_usage_params(record: &AppUsageRecord) -> (r: Vec<SqlParam>)
    ensures
        r@ == app_usage_param_list(*record),
{
    let mut params: Vec<SqlParam> = Vec::new();
    params.push(text_param(&record.record_hash));
    params.push(text_param(&record.bundle_id));
    params.push(SqlParam::Integer(record.start_time));
    params.push(opt_int_param(record.end_time));
    params.push(opt_int_param(record.duration_seconds));
    params.push(opt_text_param(&record.device_id));
    params.push(opt_text_param(&record.device_model));
    assert(params@ =~= app_usage_param_list(*record));
    params
}

/// A bluetooth connection as the telemetry store holds it.
#[derive(Debug, Clone, PartialEq, Eq)]
pub struct BluetoothRow {
    /// Seconds since 2001-01-01, as is the end.
    pub start_date: Option<Number>,
    pub end_date: Option<Number>,
    pub name: Option<String>,
    pub address: Option<String>,
    pub device_type: Option<i64>,
    pub product_id: Option<i64>,
}

/// A bluetooth connection as the unified store holds it.
#[derive(Debug, Clone, PartialEq, Eq)]
pub struct BluetoothRecord {
    pub record_hash: String,
    pub device_name: Option<String>,
    pub device_address: Option<String>,
    pub device_type: Option<i64>,
    pub product_id: Option<i64>,
    /// Unix seconds, as is the end.
    pub start_time: i64,
    pub end_time: Option<i64>,
    pub duration_seconds: Option<i64>,
}

/// The natural-key parts of a connection: the address and the start.
pub open spec fn bluetooth_key(row: BluetoothRow) -> Seq<Seq<char>> {
    seq![text_or_empty(row.address), decimal(apple_unix_opt(row.start_date).unwrap() as int)]
}

/// Whether `record` is the record of the connection `row`.
pub open spec fn is_bluetooth_record(row: BluetoothRow, record: BluetoothRecord) -> bool {
    &&& Some(record.start_time) == apple_unix_opt(row.start_date)
    &&& record.record_hash@ == record_hash(bluetooth_key(row))
    &&& record.device_name == row.name
    &&& record.device_address == row.address
    &&& record.device_type == row.device_type
    &&& record.product_id == row.product_id
    &&& record.end_time == apple_unix_opt(row.end_date)
    &&& record.duration_seconds == span(record.start_time, record.end_time)
}

/// The record of a connection; none for a connection without a start.
pub fn bluetooth_record(row: BluetoothRow) -> (r: Option<BluetoothRecord>)
    ensures
        match r {
            Some(record) => is_bluetooth_record(row, record),
            None => apple_unix_opt(row.start_date) is None,
        },
{
    let start_time = match apple_to_unix_opt(row.start_date) {
        Some(ts) => ts,
        None => {
            return None;
        },
    };
    let end_time = apple_to_unix_opt(row.end_date);
    let duration_seconds = span_between(start_time, end_time);
    let start_text = i64_to_string(start_time);
    let mut parts: Vec<&str> = Vec::new();
    parts.push(or_empty(&row.address));
    parts.push(start_text.as_str());
    let record_hash = make_hash_from_values(parts.as_slice());
    assert(parts@.map_values(|p: &str| p@) =~= bluetooth_key(row));
    Some(
        BluetoothRecord {
            record_hash,
            device_name: row.name,
            device_address: row.address,
            device_type: row.device_type,
            product_id: row.product_id,
            start_time,
            end_time,
            duration_seconds,
        },
    )
}

/// What is bound to the statement that stores a connection.
pub open spec fn bluetooth_param_list(record: BluetoothRecord) -> Seq<SqlParam> {
    seq![
        text_of(record.record_hash),
        opt_text_of(record.device_name),
        opt_text_of(record.device_address),
        opt_int_of(record.device_type),
        opt_int_of(record.product_id),
        SqlParam::Integer(record.start_time),
        opt_int_of(record.end_time),
        opt_int_of(record.duration_seconds),
    ]
}

/// What is bound to the statement that stores a connection.
pub fn bluetooth_params(record: &BluetoothRecord) -> (r: Vec<SqlParam>)
    ensures
        r@ == bluetooth_param_list(*record),
{
    let mut params: Vec<SqlParam> = Vec::new();
    params.push(text_param(&record.record_hash));
    params.push(opt_text_param(&record.device_name));
    params.push(opt_text_param(&record.device_address));
    params.push(opt_int_param(record.device_type));
    params.push(opt_int_param(record.product_id));
    params.push(SqlParam::Integer(record.start_time));
    params.push(opt_int_param(record.end_time));
    params.push(opt_int_param(record.duration_seconds));
    assert(params@ =~= bluetooth_param_list(*record));
    params
}

/// A notification as the telemetry store holds it.
#[derive(Debug, Clone, PartialEq, Eq)]
pub struct NotificationRow {
    pub event_type: Option<String>,
    /// Seconds since 2001-01-01.
    pub start_date: Option<Number>,
    pub bundle_id: Option<String>,
}

/// A notification as the unified store holds it.
#[derive(Debug, Clone, PartialEq, Eq)]
pub struct NotificationRecord {
    pub record_hash: String,
    pub bundle_id: String,
    pub event_type: Option<String>,
    /// Unix seconds.
    pub timestamp: i64,
}

/// The application that a notification is of: the one the source names,
/// else what stands as the kind of the event.
pub open spec fn notifying_app(row: NotificationRow) -> Option<String> {
    match row.bundle_id {
        Some(b) => Some(b),
        None => row.event_type,
    }
}

/// Whether a text names an application: it is not empty and is none of the
/// two words that name a kind of event.
pub open spec fn names_app(text: Seq<char>) -> bool {
    text.len() > 0 && text != "Receive"@ && text != "Dismiss"@
}

/// Whether a notification has a record: it has a time and names an
/// application.
pub open spec fn is_notification(row: NotificationRow) -> bool {
    &&& apple_unix_opt(row.start_date) is Some
    &&& notifying_app(row) is Some
    &&& names_app(notifying_app(row).unwrap()@)
}

/// The natural-key parts of a notification: the application, the time and
/// the kind of the event.
pub open spec fn notification_key(row: NotificationRow) -> Seq<Seq<char>> {
    seq![
        notifying_app(row).unwrap()@,
        decimal(apple_unix_opt(row.start_date).unwrap() as int),
        text_or_empty(row.event_type),
    ]
}

/// Whether `record` is the record of the notification `row`.
pub open spec fn is_notification_record(row: NotificationRow, record: NotificationRecord) -> bool {
    &&& is_notification(row)
    &&& record.record_hash@ == record_hash(notification_key(row))
    &&& record.bundle_id@ == notifying_app(row).unwrap()@
    &&& record.event_type == row.event_type
    &&& Some(record.timestamp) == apple_unix_opt(row.start_date)
}

/// The record of a notification; none for a notification without a time or
/// without an application.
pub fn notification_record(row: NotificationRow) -> (r: Option<NotificationRecord>)
    ensures
        match r {
            Some(record) => is_notification_record(row, record),
            None => !is_notification(row),
        },
{
    let timestamp = match apple_to_unix_opt(row.start_date) {
        Some(ts) => ts,
        None => {
            return None;
        },
    };
    let bundle_id = match &row.bundle_id {
        Some(b) => b.clone(),
        None => match &row.event_type {
            Some(e) => e.clone(),
            None => {
                return None;
            },
        },
    };
    if bundle_id.as_str().is_empty() || same_text(bundle_id.as_str(), "Receive") || same_text(
        bundle_id.as_str(),
        "Dismiss",
    ) {
        return None;
    }
    let time_text = i64_to_string(timestamp);
    let mut parts: Vec<&str> = Vec::new();
    parts.push(bundle_id.as_str());
    parts.push(time_text.as_str());
    parts.push(or_empty(&row.event_type));
    let record_hash = make_hash_from_values(parts.as_slice());
    assert(parts@.map_values(|p: &str| p@) =~= notification_key(row));
    Some(NotificationRecord { record_hash, bundle_id, event_type: row.event_type, timestamp })
}

/// What is bound to the statement that stores a notification.
pub open spec fn notification_param_list(record: NotificationRecord) -> Seq<SqlParam> {
    seq![
        text_of(record.record_hash),
        text_of(record.bundle_id),
        opt_text_of(record.event_type),
        SqlParam::Integer(record.timestamp),
    ]
}

/// What is bound to the statement that stores a notification.
pub fn notification_params(record: &NotificationRecord) -> (r: Vec<SqlParam>)
    ensures
        r@ == notification_param_list(*record),
{
    let mut params: Vec<SqlParam> = Vec::new();
    params.push(text_param(&record.record_hash));
    params.push(text_param(&record.bundle_id));
    params.push(opt_text_param(&record.event_type));
    params.push(SqlParam::Integer(record.timestamp));
    assert(params@ =~= notification_param_list(*record));
    params
}

/// An intent as the telemetry store holds it.
#[derive(Debug, Clone, PartialEq, Eq)]
pub struct IntentRow {
    /// Seconds since 2001-01-01.
    pub start_date: Option<Number>,
    pub intent_class: Option<String>,
    pub intent_verb: Option<String>,
    pub bundle_id: Option<String>,
}

/// An intent as the unified store holds it.
#[derive(Debug, Clone, PartialEq, Eq)]
pub struct IntentRecord {
    pub record_hash: String,
    pub intent_class: Option<String>,
    pub intent_verb: Option<String>,
    pub bundle_id: Option<String>,
    /// Unix seconds.
    pub timestamp: i64,
}

/// The natural-key parts of an intent: its class, the application and the
/// time.
pub open spec fn intent_key(row: IntentRow) -> Seq<Seq<char>> {
    seq![
        text_or_empty(row.intent_class),
        text_or_empty(row.bundle_id),
        decimal(apple_unix_opt(row.start_date).unwrap() as int),
    ]
}

/// Whether `record` is the record of the intent `row`.
pub open spec fn is_intent_record(row: IntentRow, record: IntentRecord) -> bool {
    &&& Some(record.timestamp) == apple_unix_opt(row.start_date)
    &&& record.record_hash@ == record_hash(intent_key(row))
    &&& record.intent_class == row.intent_class
    &&& record.intent_verb == row.intent_verb
    &&& record.bundle_id == row.bundle_id
}

/// The record of an intent; none for an intent without a time.
pub fn intent_record(row: IntentRow) -> (r: Option<IntentRecord>)
    ensures
        match r {
            Some(record) => is_intent_record(row, record),
            None => apple_unix_opt(row.start_date) is None,
        },
{
    let timestamp = match apple_to_unix_opt(row.start_date) {
        Some(ts) => ts,
        None => {
            return None;
        },
    };
    let time_text = i64_to_string(timestamp);
    let mut parts: Vec<&str> = Vec::new();
    parts.push(or_empty(&row.intent_class));
    parts.push(or_empty(&row.bundle_id));
    parts.push(time_text.as_str());
    let record_hash = make_hash_from_values(parts.as_slice());
    assert(parts@.map_values(|p: &str| p@) =~= intent_key(row));
    Some(
        IntentRecord {
            record_hash,
            intent_class: row.intent_class,
            intent_verb: row.intent_verb,
            bundle_id: row.bundle_id,
            timestamp,
        },
    )
}

/// What is bound to the statement that stores an intent.
pub open spec fn intent_param_list(record: IntentRecord) -> Seq<SqlParam> {
    seq![
        text_of(record.record_hash),
        opt_text_of(record.intent_class),
        opt_text_of(record.intent_verb),
        opt_text_of(record.bundle_id),
        SqlParam::Integer(record.timestamp),
    ]
}

/// What is bound to the statement that stores an intent.
pub fn intent_params(record: &IntentRecord) -> (r: Vec<SqlParam>)
    ensures
        r@ == intent_param_list(*record),
{
    let mut params: Vec<SqlParam> = Vec::new();
    params.push(text_param(&record.record_hash));
    params.push(opt_text_param(&record.intent_class));
    params.push(opt_text_param(&record.intent_verb));
    params.push(opt_text_param(&record.bundle_id));
    params.push(SqlParam::Integer(record.timestamp));
    assert(params@ =~= intent_param_list(*record));
    params
}

/// An interval of the display state as the telemetry store holds it.
#[derive(Debug, Clone, PartialEq, Eq)]
pub struct DisplayStateRow {
    pub is_backlit: Option<i64>,
    /// Seconds since 2001-01-01, as is the end.
    pub start_date: Option<Number>,
    pub end_date: Option<Number>,
}

/// An interval of the display state as the unified store holds it.
#[derive(Debug, Clone, PartialEq, Eq)]
pub struct DisplayStateRecord {
    pub record_hash: String,
    pub is_backlit: Option<i64>,
    /// Unix seconds, as is the end.
    pub start_time: i64,
    pub end_time: Option<i64>,
    pub duration_seconds: Option<i64>,
}

/// The state, or zero for an absent one.
pub open spec fn state_or_zero(state: Option<i64>) -> i64 {
    match state {
        Some(s) => s,
        None => 0,
    }
}

/// The natural-key parts of an interval: the start and the state.
pub open spec fn display_state_key(row: DisplayStateRow) -> Seq<Seq<char>> {
    seq![
        decimal(apple_unix_opt(row.start_date).unwrap() as int),
        decimal(state_or_zero(row.is_backlit) as int),
    ]
}

/// Whether `record` is the record of the interval `row`.
pub open spec fn is_display_state_record(row: DisplayStateRow, record: DisplayStateRecord) -> bool {
    &&& Some(record.start_time) == apple_unix_opt(row.start_date)
    &&& record.record_hash@ == record_hash(display_state_key(row))
    &&& record.is_backlit == row.is_backlit
    &&& record.end_time == apple_unix_opt(row.end_date)
    &&& record.duration_seconds == span(record.start_time, record.end_time)
}

/// The record of an interval; none for an interval without a start.
pub fn display_state_record(row: DisplayStateRow) -> (r: Option<DisplayStateRecord>)
    ensures
        match r {
            Some(record) => is_display_state_record(row, record),
            None => apple_unix_opt(row.start_date) is None,
        },
{
    let start_time = match apple_to_unix_opt(row.start_date) {
        Some(ts) => ts,
        None => {
            return None;
        },
    };
    let end_time = apple_to_unix_opt(row.end_date);
    let duration_seconds = span_between(start_time, end_time);
    let state: i64 = match row.is_backlit {
        Some(s) => s,
        None => 0,
    };
    let start_text = i64_to_string(start_time);
    let state_text = i64_to_string(state);
    let mut parts: Vec<&str> = Vec::new();
    parts.push(start_text.as_str());
    parts.push(state_text.as_str());
    let record_hash = make_hash_from_values(parts.as_slice());
    assert(parts@.map_values(|p: &str| p@) =~= display_state_key(row));
    Some(
        DisplayStateRecord {
            record_hash,
            is_backlit: row.is_backlit,
            start_time,
            end_time,
            duration_seconds,
        },
    )
}

/// What is bound to the statement that stores an interval.
pub open spec fn display_state_param_list(record: DisplayStateRecord) -> Seq<SqlParam> {
    seq![
        text_of(record.record_hash),
        opt_int_of(record.is_backlit),
        SqlParam::Integer(record.start_time),
        opt_int_of(record.end_time),
        opt_int_of(record.duration_seconds),
    ]
}

/// What is bound to the statement that stores an interval.
pub fn display_state_params(record: &DisplayStateRecord) -> (r: Vec<SqlParam>)
    ensures
        r@ == display_state_param_list(*record),
{
    let mut params: Vec<SqlParam> = Vec::new();
    params.push(text_param(&record.record_hash));
    params.push(opt_int_param(record.is_backlit));
    params.push(SqlParam::Integer(record.start_time));
    params.push(opt_int_param(record.end_time));
    params.push(opt_int_param(record.duration_seconds));
    assert(params@ =~= display_state_param_list(*record));
    params
}

/// Whether `read` is what the columns of a row of the devices query are read as:
/// every column holds what is read from it, and each field is its column,
/// in the order of the query.
pub open spec fn is_device_row(columns: Seq<Cell>, read: (String, String)) -> bool {
    &&& read_text(cell_at(columns, 0)) == Some(read.0@)
    &&& read_text(cell_at(columns, 1)) == Some(read.1@)
}

/// Reads a row of the devices query: the device and its model; fails where
/// a column does not hold what is read from it.
fn read_device_row(row: &rusqlite::Row<'_>) -> (r: Result<(String, String), SqlFailure>)
    ensures
        match r {
            Ok(read) => is_device_row(cells(*row), read),
            Err(failure) => failure.extended_code is None && forall|read: (String, String)|
                !#[trigger] is_device_row(cells(*row), read),
        },
{
    let device_id = column_text(row, 0)?;
    let model = column_text(row, 1)?;
    Ok((device_id, model))
}

/// Whether `read` is what the columns of a row of the query of application use are read as:
/// every column holds what is read from it, and each field is its column,
/// in the order of the query.
pub open spec fn is_app_usage_row(columns: Seq<Cell>, read: AppUsageRow) -> bool {
    &&& read_int(cell_at(columns, 0)) is Some
    &&& read_opt_text(cell_at(columns, 1)) == Some(opt_view(read.bundle_id))
    &&& read_number(cell_at(columns, 2)) == Some(read.start_date)
    &&& read_number(cell_at(columns, 3)) == Some(read.end_date)
    &&& read_opt_text(cell_at(columns, 4)) == Some(opt_view(read.device_id))
}

/// Reads a row of the query of application use; fails where a column does
/// not hold what is read from it.
fn read_app_usage_row(row: &rusqlite::Row<'_>) -> (r: Result<AppUsageRow, SqlFailure>)
    ensures
        match r {
            Ok(read) => is_app_usage_row(cells(*row), read),
            Err(failure) => failure.extended_code is None && forall|read: AppUsageRow|
                !#[trigger] is_app_usage_row(cells(*row), read),
        },
{
    let _pk = column_int(row, 0)?;
    let bundle_id = column_opt_text(row, 1)?;
    let start_date = column_number(row, 2)?;
    let end_date = column_number(row, 3)?;
    let device_id = column_opt_text(row, 4)?;
    Ok(AppUsageRow { bundle_id, start_date, end_date, device_id })
}

/// Whether `read` is what the columns of a row of the bluetooth query are read as:
/// every column holds what is read from it, and each field is its column,
/// in the order of the query.
pub open spec fn is_bluetooth_row(columns: Seq<Cell>, read: BluetoothRow) -> bool {
    &&& read_int(cell_at(columns, 0)) is Some
    &&& read_number(cell_at(columns, 1)) == Some(read.start_date)
    &&& read_number(cell_at(columns, 2)) == Some(read.end_date)
    &&& read_opt_text(cell_at(columns, 3)) == Some(opt_view(read.name))
    &&& read_opt_text(cell_at(columns, 4)) == Some(opt_view(read.address))
    &&& read_opt_int(cell_at(columns, 5)) == Some(read.device_type)
    &&& read_opt_int(cell_at(columns, 6)) == Some(read.product_id)
}

/// Reads a row of the bluetooth query; fails where a column does not hold
/// what is read from it.
fn read_bluetooth_row(row: &rusqlite::Row<'_>) -> (r: Result<BluetoothRow, SqlFailure>)
    ensures
        match r {
            Ok(read) => is_bluetooth_row(cells(*row), read),
            Err(failure) => failure.extended_code is None && forall|read: BluetoothRow|
                !#[trigger] is_bluetooth_row(cells(*row), read),
        },
{
    let _pk = column_int(row, 0)?;
    let start_date = column_number(row, 1)?;
    let end_date = column_number(row, 2)?;
    let name = column_opt_text(row, 3)?;
    let address = column_opt_text(row, 4)?;
    let device_type = column_opt_int(row, 5)?;
    let product_id = column_opt_int(row, 6)?;
    Ok(BluetoothRow { start_date, end_date, name, address, device_type, product_id })
}

/// Whether `read` is what the columns of a row of the notifications query are read as:
/// every column holds what is read from it, and each field is its column,
/// in the order of the query.
pub open spec fn is_notification_row(columns: Seq<Cell>, read: NotificationRow) -> bool {
    &&& read_int(cell_at(columns, 0)) is Some
    &&& read_opt_text(cell_at(columns, 1)) == Some(opt_view(read.event_type))
    &&& read_number(cell_at(columns, 2)) == Some(read.start_date)
    &&& read_opt_text(cell_at(columns, 3)) == Some(opt_view(read.bundle_id))
}

/// Reads a row of the notifications query; fails where a column does not
/// hold what is read from it.
fn read_notification_row(row: &rusqlite::Row<'_>) -> (r: Result<NotificationRow, SqlFailure>)
    ensures
        match r {
            Ok(read) => is_notification_row(cells(*row), read),
            Err(failure) => failure.extended_code is None && forall|read: NotificationRow|
                !#[trigger] is_notification_row(cells(*row), read),
        },
{
    let _pk = column_int(row, 0)?;
    let event_type = column_opt_text(row, 1)?;
    let start_date = column_number(row, 2)?;
    let bundle_id = column_opt_text(row, 3)?;
    Ok(NotificationRow { event_type, start_date, bundle_id })
}

/// Whether `read` is what the columns of a row of the intents query are read as:
/// every column holds what is read from it, and each field is its column,
/// in the order of the query.
pub open spec fn is_intent_row(columns: Seq<Cell>, read: IntentRow) -> bool {
    &&& read_int(cell_at(columns, 0)) is Some
    &&& read_number(cell_at(columns, 1)) == Some(read.start_date)
    &&& read_opt_text(cell_at(columns, 2)) == Some(opt_view(read.intent_class))
    &&& read_opt_text(cell_at(columns, 3)) == Some(opt_view(read.intent_verb))
    &&& read_opt_text(cell_at(columns, 4)) == Some(opt_view(read.bundle_id))
}

/// Reads a row of the intents query; fails where a column does not hold
/// what is read from it.
fn read_intent_row(row: &rusqlite::Row<'_>) -> (r: Result<IntentRow, SqlFailure>)
    ensures
        match r {
            Ok(read) => is_intent_row(cells(*row), read),
            Err(failure) => failure.extended_code is None && forall|read: IntentRow|
                !#[trigger] is_intent_row(cells(*row), read),
        },
{
    let _pk = column_int(row, 0)?;
    let start_date = column_number(row, 1)?;
    let intent_class = column_opt_text(row, 2)?;
    let intent_verb = column_opt_text(row, 3)?;
    let bundle_id = column_opt_text(row, 4)?;
    Ok(IntentRow { start_date, intent_class, intent_verb, bundle_id })
}

/// Whether `read` is what the columns of a row of the query of display states are read as:
/// every column holds what is read from it, and each field is its column,
/// in the order of the query.
pub open spec fn is_display_state_row(columns: Seq<Cell>, read: DisplayStateRow) -> bool {
    &&& read_int(cell_at(columns, 0)) is Some
    &&& read_opt_int(cell_at(columns, 1)) == Some(read.is_backlit)
    &&& read_number(cell_at(columns, 2)) == Some(read.start_date)
    &&& read_number(cell_at(columns, 3)) == Some(read.end_date)
}

/// Reads a row of the query of display states; fails where a column does
/// not hold what is read from it.
fn read_display_state_row(row: &rusqlite::Row<'_>) -> (r: Result<DisplayStateRow, SqlFailure>)
    ensures
        match r {
            Ok(read) => is_display_state_row(cells(*row), read),
            Err(failure) => failure.extended_code is None && forall|read: DisplayStateRow|
                !#[trigger] is_display_state_row(cells(*row), read),
        },
{
    let _pk = column_int(row, 0)?;
    let is_backlit = column_opt_int(row, 1)?;
    let start_date = column_number(row, 2)?;
    let end_date = column_number(row, 3)?;
    Ok(DisplayStateRow { is_backlit, start_date, end_date })
}

/// The collector of the device-usage telemetry store.
pub struct KnowledgeCCollector<'a> {
    pub base: BaseCollector<'a>,
}

impl<'a> KnowledgeCCollector<'a> {
    /// A collector that has stored nothing yet.
    pub fn new(config: &'a ExtractionConfig, unified_db: &'a rusqlite::Connection) -> (r: Result<
        Self,
        Error,
    >)
        ensures
            r is Ok,
            r.unwrap().base.name@ == CollectorType::KnowledgeC.name_text(),
            r.unwrap().base.config == config,
            r.unwrap().base.unified_db == unified_db,
            r.unwrap().base.counts() == (0usize, 0usize),
    {
        Ok(
            KnowledgeCCollector {
                base: BaseCollector::new(
                    String::from_str(CollectorType::KnowledgeC.name()),
                    config,
                    unified_db,
                ),
            },
        )
    }

    /// The devices of `source` with the model of each, in the order in which
    /// the source yields them.
    pub fn get_device_mapping(&self, source: &rusqlite::Connection) -> (r: Result<
        Vec<(String, String)>,
        Error,
    >)
        ensures
            r matches Err(e) ==> e is Database || is_row_limit_failure(e),
    {
        let mut devices: Vec<(String, String)> = Vec::new();
        let mut stmt = match prepare(source, DEVICES_QUERY) {
            Ok(stmt) => stmt,
            Err(failure) => {
                return Err(database_error(failure));
            },
        };
        let mut rows = match query(&mut stmt) {
            Ok(rows) => rows,
            Err(failure) => {
                return Err(database_error(failure));
            },
        };
        let mut budget: u64 = ROW_LIMIT;
        while budget > 0
            decreases budget,
        {
            budget = budget - 1;
            match next_row(&mut rows) {
                Ok(Some(row)) => match read_device_row(row) {
                    Ok(device) => {
                        devices.push(device);
                    },
                    Err(failure) => {
                        return Err(database_error(failure));
                    },
                },
                Ok(None) => {
                    return Ok(devices);
                },
                Err(failure) => {
                    return Err(database_error(failure));
                },
            }
        }
        Err(too_many_rows())
    }

    /// Stores the record of one session of application use and counts what became of it:
    /// a stored record as added, one that the store holds already as
    /// skipped. A row without a record counts nothing and is no failure; a
    /// failure of the store counts nothing.
    pub fn store_app_usage(&mut self, raw: AppUsageRow, devices: &Vec<(String, String)>) -> (r: Result<(), Error>)
        ensures
            final(self).base.name == old(self).base.name,
            final(self).base.config == old(self).base.config,
            final(self).base.unified_db == old(self).base.unified_db,
            match r {
                Ok(_) => if !is_app_usage(raw) {
                    final(self).base.counts() == old(self).base.counts()
                } else {
                    one_more(old(self).base.counts(), final(self).base.counts())
                },
                Err(e) => {
                    &&& !(!is_app_usage(raw))
                    &&& e is Database
                    &&& final(self).base.counts() == old(self).base.counts()
                },
            },
    {
        match app_usage_record(raw, devices) {
            Some(record) => {
                let params = app_usage_params(&record);
                self.base.store(APP_USAGE_INSERT, &params)
            },
            None => Ok(()),
        }
    }

    /// Reads the sessions of application use of `source` in the order of
    /// their start and stores the record of each; a session without a record
    /// is passed over.
    pub fn extract_app_usage(&mut self, source: &rusqlite::Connection) -> (r: Result<(), Error>)
        ensures
            not_below(old(self).base.counts(), final(self).base.counts()),
            final(self).base.name == old(self).base.name,
            final(self).base.config == old(self).base.config,
            final(self).base.unified_db == old(self).base.unified_db,
            r matches Err(e) ==> e is Database || is_row_limit_failure(e),
    {
        let devices = match self.get_device_mapping(source) {
            Ok(devices) => devices,
            Err(e) => {
                return Err(e);
            },
        };
        let mut stmt = match prepare(source, APP_USAGE_QUERY) {
            Ok(stmt) => stmt,
            Err(failure) => {
                return Err(database_error(failure));
            },
        };
        let mut rows = match query(&mut stmt) {
            Ok(rows) => rows,
            Err(failure) => {
                return Err(database_error(failure));
            },
        };
        let mut budget: u64 = ROW_LIMIT;
        while budget > 0
            invariant
                not_below(old(self).base.counts(), self.base.counts()),
                self.base.name == old(self).base.name,
                self.base.config == old(self).base.config,
                self.base.unified_db == old(self).base.unified_db,
            decreases budget,
        {
            budget = budget - 1;
            let raw = match next_row(&mut rows) {
                Ok(Some(row)) => match read_app_usage_row(row) {
                    Ok(raw) => raw,
                    Err(failure) => {
                        return Err(database_error(failure));
                    },
                },
                Ok(None) => {
                    return Ok(());
                },
                Err(failure) => {
                    return Err(database_error(failure));
                },
            };
            match self.store_app_usage(raw, &devices) {
                Ok(_) => {},
                Err(e) => {
                    return Err(e);
                },
            }
        }
        Err(too_many_rows())
    }

    /// Stores the record of one bluetooth connection and counts what became of it:
    /// a stored record as added, one that the store holds already as
    /// skipped. A row without a record counts nothing and is no failure; a
    /// failure of the store counts nothing.
    pub fn store_bluetooth(&mut self, raw: BluetoothRow) -> (r: Result<(), Error>)
        ensures
            final(self).base.name == old(self).base.name,
            final(self).base.config == old(self).base.config,
            final(self).base.unified_db == old(self).base.unified_db,
            match r {
                Ok(_) => if apple_unix_opt(raw.start_date) is None {
                    final(self).base.counts() == old(self).base.counts()
                } else {
                    one_more(old(self).base.counts(), final(self).base.counts())
                },
                Err(e) => {
                    &&& !(apple_unix_opt(raw.start_date) is None)
                    &&& e is Database
                    &&& final(self).base.counts() == old(self).base.counts()
                },
            },
    {
        match bluetooth_record(raw) {
            Some(record) => {
                let params = bluetooth_params(&record);
                self.base.store(BLUETOOTH_INSERT, &params)
            },
            None => Ok(()),
        }
    }

    /// Reads the bluetooth connections of `source` in the order of their
    /// start and stores the record of each; a connection without a record is
    /// passed over.
    pub fn extract_bluetooth(&mut self, source: &rusqlite::Connection) -> (r: Result<(), Error>)
        ensures
            not_below(old(self).base.counts(), final(self).base.counts()),
            final(self).base.name == old(self).base.name,
            final(self).base.config == old(self).base.config,
            final(self).base.unified_db == old(self).base.unified_db,
            r matches Err(e) ==> e is Database || is_row_limit_failure(e),
    {
        let mut stmt = match prepare(source, BLUETOOTH_QUERY) {
            Ok(stmt) => stmt,
            Err(failure) => {
                return Err(database_error(failure));
            },
        };
        let mut rows = match query(&mut stmt) {
            Ok(rows) => rows,
            Err(failure) => {
                return Err(database_error(failure));
            },
        };
        let mut budget: u64 = ROW_LIMIT;
        while budget > 0
            invariant
                not_below(old(self).base.counts(), self.base.counts()),
                self.base.name == old(self).base.name,
                self.base.config == old(self).base.config,
                self.base.unified_db == old(self).base.unified_db,
            decreases budget,
        {
            budget = budget - 1;
            let raw = match next_row(&mut rows) {
                Ok(Some(row)) => match read_bluetooth_row(row) {
                    Ok(raw) => raw,
                    Err(failure) => {
                        return Err(database_error(failure));
                    },
                },
                Ok(None) => {
                    return Ok(());
                },
                Err(failure) => {
                    return Err(database_error(failure));
                },
            };
            match self.store_bluetooth(raw) {
                Ok(_) => {},
                Err(e) => {
                    return Err(e);
                },
            }
        }
        Err(too_many_rows())
    }

    /// Stores the record of one notification and counts what became of it:
    /// a stored record as added, one that the store holds already as
    /// skipped. A row without a record counts nothing and is no failure; a
    /// failure of the store counts nothing.
    pub fn store_notification(&mut self, raw: NotificationRow) -> (r: Result<(), Error>)
        ensures
            final(self).base.name == old(self).base.name,
            final(self).base.config == old(self).base.config,
            final(self).base.unified_db == old(self).base.unified_db,
            match r {
                Ok(_) => if !is_notification(raw) {
                    final(self).base.counts() == old(self).base.counts()
                } else {
                    one_more(old(self).base.counts(), final(self).base.counts())
                },
                Err(e) => {
                    &&& !(!is_notification(raw))
                    &&& e is Database
                    &&& final(self).base.counts() == old(self).base.counts()
                },
            },
    {
        match notification_record(raw) {
            Some(record) => {
                let params = notification_params(&record);
                self.base.store(NOTIFICATION_INSERT, &params)
            },
            None => Ok(()),
        }
    }

    /// Reads the notifications of `source` in the order of their time and
    /// stores the record of each; a notification without a record is passed
    /// over.
    pub fn extract_notifications(&mut self, source: &rusqlite::Connection) -> (r: Result<
        (),
        Error,
    >)
        ensures
            not_below(old(self).base.counts(), final(self).base.counts()),
            final(self).base.name == old(self).base.name,
            final(self).base.config == old(self).base.config,
            final(self).base.unified_db == old(self).base.unified_db,
            r matches Err(e) ==> e is Database || is_row_limit_failure(e),
    {
        let mut stmt = match prepare(source, NOTIFICATIONS_QUERY) {
            Ok(stmt) => stmt,
            Err(failure) => {
                return Err(database_error(failure));
            },
        };
        let mut rows = match query(&mut stmt) {
            Ok(rows) => rows,
            Err(failure) => {
                return Err(database_error(failure));
            },
        };
        let mut budget: u64 = ROW_LIMIT;
        while budget > 0
            invariant
                not_below(old(self).base.counts(), self.base.counts()),
                self.base.name == old(self).base.name,
                self.base.config == old(self).base.config,
                self.base.unified_db == old(self).base.unified_db,
            decreases budget,
        {
            budget = budget - 1;
            let raw = match next_row(&mut rows) {
                Ok(Some(row)) => match read_notification_row(row) {
                    Ok(raw) => raw,
                    Err(failure) => {
                        return Err(database_error(failure));
                    },
                },
                Ok(None) => {
                    return Ok(());
                },
                Err(failure) => {
                    return Err(database_error(failure));
                },
            };
            match self.store_notification(raw) {
                Ok(_) => {},
                Err(e) => {
                    return Err(e);
                },
            }
        }
        Err(too_many_rows())
    }

    /// Stores the record of one intent and counts what became of it:
    /// a stored record as added, one that the store holds already as
    /// skipped. A row without a record counts nothing and is no failure; a
    /// failure of the store counts nothing.
    pub fn store_intent(&mut self, raw: IntentRow) -> (r: Result<(), Error>)
        ensures
            final(self).base.name == old(self).base.name,
            final(self).base.config == old(self).base.config,
            final(self).base.unified_db == old(self).base.unified_db,
            match r {
                Ok(_) => if apple_unix_opt(raw.start_date) is None {
                    final(self).base.counts() == old(self).base.counts()
                } else {
                    one_more(old(self).base.counts(), final(self).base.counts())
                },
                Err(e) => {
                    &&& !(apple_unix_opt(raw.start_date) is None)
                    &&& e is Database
                    &&& final(self).base.counts() == old(self).base.counts()
                },
            },
    {
        match intent_record(raw) {
            Some(record) => {
                let params = intent_params(&record);
                self.base.store(INTENT_INSERT, &params)
            },
            None => Ok(()),
        }
    }

    /// Reads the intents of `source` in the order of their time and stores
    /// the record of each; an intent without a record is passed over.
    pub fn extract_intents(&mut self, source: &rusqlite::Connection) -> (r: Result<(), Error>)
        ensures
            not_below(old(self).base.counts(), final(self).base.counts()),
            final(self).base.name == old(self).base.name,
            final(self).base.config == old(self).base.config,
            final(self).base.unified_db == old(self).base.unified_db,
            r matches Err(e) ==> e is Database || is_row_limit_failure(e),
    {
        let mut stmt = match prepare(source, INTENTS_QUERY) {
            Ok(stmt) => stmt,
            Err(failure) => {
                return Err(database_error(failure));
            },
        };
        let mut rows = match query(&mut stmt) {
            Ok(rows) => rows,
            Err(failure) => {
                return Err(database_error(failure));
            },
        };
        let mut budget: u64 = ROW_LIMIT;
        while budget > 0
            invariant
                not_below(old(self).base.counts(), self.base.counts()),
                self.base.name == old(self).base.name,
                self.base.config == old(self).base.config,
                self.base.unified_db == old(self).base.unified_db,
            decreases budget,
        {
            budget = budget - 1;
            let raw = match next_row(&mut rows) {
                Ok(Some(row)) => match read_intent_row(row) {
                    Ok(raw) => raw,
                    Err(failure) => {
                        return Err(database_error(failure));
                    },
                },
                Ok(None) => {
                    return Ok(());
                },
                Err(failure) => {
                    return Err(database_error(failure));
                },
            };
            match self.store_intent(raw) {
                Ok(_) => {},
                Err(e) => {
                    return Err(e);
                },
            }
        }
        Err(too_many_rows())
    }

    /// Stores the record of one interval of the display state and counts what became of it:
    /// a stored record as added, one that the store holds already as
    /// skipped. A row without a record counts nothing and is no failure; a
    /// failure of the store counts nothing.
    pub fn store_display_state(&mut self, raw: DisplayStateRow) -> (r: Result<(), Error>)
        ensures
            final(self).base.name == old(self).base.name,
            final(self).base.config == old(self).base.config,
            final(self).base.unified_db == old(self).base.unified_db,
            match r {
                Ok(_) => if apple_unix_opt(raw.start_date) is None {
                    final(self).base.counts() == old(self).base.counts()
                } else {
                    one_more(old(self).base.counts(), final(self).base.counts())
                },
                Err(e) => {
                    &&& !(apple_unix_opt(raw.start_date) is None)
                    &&& e is Database
                    &&& final(self).base.counts() == old(self).base.counts()
                },
            },
    {
        match display_state_record(raw) {
            Some(record) => {
                let params = display_state_params(&record);
                self.base.store(DISPLAY_STATE_INSERT, &params)
            },
            None => Ok(()),
        }
    }

    /// Reads the intervals of the display state of `source` in the order of
    /// their start and stores the record of each; an interval without a
    /// record is passed over.
    pub fn extract_display_state(&mut self, source: &rusqlite::Connection) -> (r: Result<
        (),
        Error,
    >)
        ensures
            not_below(old(self).base.counts(), final(self).base.counts()),
            final(self).base.name == old(self).base.name,
            final(self).base.config == old(self).base.config,
            final(self).base.unified_db == old(self).base.unified_db,
            r matches Err(e) ==> e is Database || is_row_limit_failure(e),
    {
        let mut stmt = match prepare(source, DISPLAY_STATE_QUERY) {
            Ok(stmt) => stmt,
            Err(failure) => {
                return Err(database_error(failure));
            },
        };
        let mut rows = match query(&mut stmt) {
            Ok(rows) => rows,
            Err(failure) => {
                return Err(database_error(failure));
            },
        };
        let mut budget: u64 = ROW_LIMIT;
        while budget > 0
            invariant
                not_below(old(self).base.counts(), self.base.counts()),
                self.base.name == old(self).base.name,
                self.base.config == old(self).base.config,
                self.base.unified_db == old(self).base.unified_db,
            decreases budget,
        {
            budget = budget - 1;
            let raw = match next_row(&mut rows) {
                Ok(Some(row)) => match read_display_state_row(row) {
                    Ok(raw) => raw,
                    Err(failure) => {
                        return Err(database_error(failure));
                    },
                },
                Ok(None) => {
                    return Ok(());
                },
                Err(failure) => {
                    return Err(database_error(failure));
                },
            };
            match self.store_display_state(raw) {
                Ok(_) => {},
                Err(e) => {
                    return Err(e);
                },
            }
        }
        Err(too_many_rows())
    }
}

impl<'a> Collector for KnowledgeCCollector<'a> {
    open spec fn name_text(&self) -> Seq<char> {
        self.base.name@
    }

    open spec fn counts(&self) -> (usize, usize) {
        self.base.counts()
    }

    open spec fn settings(&self) -> ExtractionConfig {
        *self.base.config
    }

    open spec fn default_paths(&self) -> Seq<Seq<char>> {
        CollectorType::KnowledgeC.default_paths()
    }

    open spec fn unified_store(&self) -> rusqlite::Connection {
        *self.base.unified_db
    }

    fn name(&self) -> (r: &str) {
        self.base.name.as_str()
    }

    fn source_paths(&self) -> (r: Vec<String>) {
        CollectorType::KnowledgeC.default_source_paths()
    }

    /// Application use, bluetooth connections, notifications, intents and
    /// the display state, in this order; the first failure ends it.
    fn extract(&mut self, source_conn: &rusqlite::Connection) -> (r: Result<(), Error>)
        ensures
            r matches Err(e) ==> e is Database || is_row_limit_failure(e),
    {
        self.extract_app_usage(source_conn)?;
        self.extract_bluetooth(source_conn)?;
        self.extract_notifications(source_conn)?;
        self.extract_intents(source_conn)?;
        self.extract_display_state(source_conn)?;
        Ok(())
    }

    fn config(&self) -> (r: &ExtractionConfig) {
        self.base.config
    }

    fn unified_db(&self) -> (r: &rusqlite::Connection) {
        assert(self.unified_store() == *self.base.unified_db);
        self.base.unified_db
    }

    fn get_counts(&self) -> (r: (usize, usize)) {
        (self.base.records_added, self.base.records_skipped)
    }

    fn increment_added(&mut self) {
        self.base.records_added = bump(self.base.records_added);
    }

    fn increment_skipped(&mut self) {
        self.base.records_skipped = bump(self.base.records_skipped);
    }
}

} // verus!
