//! The collector of the messaging store.

use vstd::prelude::*;
use crate::collectors::base::{
    bump, database_error, is_key, is_row_limit_failure, not_below, one_more, present_key, too_many_rows,
    BaseCollector, Collector, ROW_LIMIT,
};
use crate::error::Error;
use crate::sqlite::{
    cell_at, cells, column_opt_int, column_opt_text, next_row, opt_int_of, opt_int_param,
    opt_text_of, opt_text_param, opt_view, prepare, query, read_opt_int, read_opt_text,
    text_of, text_param, yields_row, Cell, SqlFailure, SqlParam,
};
use crate::timestamp::{apple_nano_to_unix_opt, apple_nano_unix};
use crate::types::{CollectorType, ExtractionConfig};

verus! {

/// The query that reads the contacts.
pub const CONTACTS_QUERY: &'static str =
    "
            SELECT DISTINCT
                h.id,
                h.service,
                c.display_name
            FROM handle h
            LEFT JOIN chat_handle_join chj ON h.ROWID = chj.handle_id
            LEFT JOIN chat c ON chj.chat_id = c.ROWID
            WHERE c.display_name IS NOT NULL
            ";

/// The statement that stores a contact.
pub const CONTACT_INSERT: &'static str =
    "
                INSERT INTO contacts
                (record_hash, handle_id, display_name, service)
                VALUES (?, ?, ?, ?)
                ";

/// The query that reads the chats.
pub const CHATS_QUERY: &'static str =
    "
            SELECT
                c.ROWID,
                c.guid,
                c.chat_identifier,
                c.display_name,
                (SELECT COUNT(*) FROM chat_handle_join WHERE chat_id = c.ROWID) as participant_count,
                (SELECT MAX(m.date) FROM message m
                 JOIN chat_message_join cmj ON m.ROWID = cmj.message_id
                 WHERE cmj.chat_id = c.ROWID) as last_message_date
            FROM chat c
            ";

/// The statement that stores a chat.
pub const CHAT_INSERT: &'static str =
    "
                INSERT INTO chats
                (record_hash, chat_identifier, display_name, participant_count, last_message_time)
                VALUES (?, ?, ?, ?, ?)
                ";

/// The query that reads the messages.
pub const MESSAGES_QUERY: &'static str =
    "
            SELECT
                m.ROWID,
                m.guid,
                m.text,
                m.is_from_me,
                m.date,
                m.date_read,
                m.date_delivered,
                h.id as handle_id,
                c.guid as chat_guid,
                m.service,
                (SELECT COUNT(*) FROM attachment a
                 JOIN message_attachment_join maj ON a.ROWID = maj.attachment_id
                 WHERE maj.message_id = m.ROWID) as attachment_count
            FROM message m
            LEFT JOIN handle h ON m.handle_id = h.ROWID
            LEFT JOIN chat_message_join cmj ON m.ROWID = cmj.message_id
            LEFT JOIN chat c ON cmj.chat_id = c.ROWID
            ORDER BY m.date
            ";

/// The statement that stores a message.
pub const MESSAGE_INSERT: &'static str =
    "
                INSERT INTO messages
                (record_hash, text, is_from_me, timestamp, date_read, date_delivered,
                 handle_id, chat_id, service, has_attachment)
                VALUES (?, ?, ?, ?, ?, ?, ?, ?, ?, ?)
                ";

/// The Unix seconds of a number of nanoseconds that may be absent.
pub open spec fn nano_unix_opt(nanos: Option<i64>) -> Option<i64> {
    match nanos {
        Some(n) => match apple_nano_unix(n as int) {
            Some(unix) => Some(unix as i64),
            None => None,
        },
        None => None,
    }
}

/// A contact as the messaging store holds it.
#[derive(Debug, Clone, PartialEq, Eq)]
pub struct ContactRow {
    pub handle_id: Option<String>,
    pub service: Option<String>,
    pub display_name: Option<String>,
}

/// A contact as the unified store holds it. Its handle is its identity key.
#[derive(Debug, Clone, PartialEq, Eq)]
pub struct ContactRecord {
    pub record_hash: String,
    pub handle_id: String,
    pub display_name: Option<String>,
    pub service: Option<String>,
}

/// Whether `record` is the record of the contact `row`.
pub open spec fn is_contact_record(row: ContactRow, record: ContactRecord) -> bool {
    &&& is_key(row.handle_id)
    &&& record.record_hash == row.handle_id.unwrap()
    &&& record.handle_id == row.handle_id.unwrap()
    &&& record.display_name == row.display_name
    &&& record.service == row.service
}

/// The record of a contact; none for a contact without a handle.
pub fn contact_record(row: ContactRow) -> (r: Option<ContactRecord>)
    ensures
        match r {
            Some(record) => is_contact_record(row, record),
            None => !is_key(row.handle_id),
        },
{
    match present_key(row.handle_id) {
        Some(handle_id) => Some(
            ContactRecord {
                record_hash: handle_id.clone(),
                handle_id,
                display_name: row.display_name,
                service: row.service,
            },
        ),
        None => None,
    }
}

/// What is bound to the statement that stores a contact.
pub open spec fn contact_param_list(record: ContactRecord) -> Seq<SqlParam> {
    seq![
        text_of(record.record_hash),
        text_of(record.handle_id),
        opt_text_of(record.display_name),
        opt_text_of(record.service),
    ]
}

/// What is bound to the statement that stores a contact.
pub fn contact_params(record: &ContactRecord) -> (r: Vec<SqlParam>)
    ensures
        r@ == contact_param_list(*record),
{
    let mut params: Vec<SqlParam> = Vec::new();
    params.push(text_param(&record.record_hash));
    params.push(text_param(&record.handle_id));
    params.push(opt_text_param(&record.display_name));
    params.push(opt_text_param(&record.service));
    assert(params@ =~= contact_param_list(*record));
    params
}

/// A chat as the messaging store holds it.
#[derive(Debug, Clone, PartialEq, Eq)]
pub struct ChatRow {
    pub guid: Option<String>,
    pub identifier: Option<String>,
    pub display_name: Option<String>,
    pub participants: Option<i64>,
    /// Nanoseconds since 2001-01-01.
    pub last_message: Option<i64>,
}

/// A chat as the unified store holds it. Its identifier of the source is its
/// identity key.
#[derive(Debug, Clone, PartialEq, Eq)]
pub struct ChatRecord {
    pub record_hash: String,
    pub chat_identifier: Option<String>,
    pub display_name: Option<String>,
    pub participant_count: Option<i64>,
    /// Unix seconds.
    pub last_message_time: Option<i64>,
}

/// Whether `record` is the record of the chat `row`.
pub open spec fn is_chat_record(row: ChatRow, record: ChatRecord) -> bool {
    &&& is_key(row.guid)
    &&& record.record_hash == row.guid.unwrap()
    &&& record.chat_identifier == row.identifier
    &&& record.display_name == row.display_name
    &&& record.participant_count == row.participants
    &&& record.last_message_time == nano_unix_opt(row.last_message)
}

/// The record of a chat; none for a chat without an identifier.
pub fn chat_record(row: ChatRow) -> (r: Option<ChatRecord>)
    ensures
        match r {
            Some(record) => is_chat_record(row, record),
            None => !is_key(row.guid),
        },
{
    match present_key(row.guid) {
        Some(guid) => Some(
            ChatRecord {
                record_hash: guid,
                chat_identifier: row.identifier,
                display_name: row.display_name,
                participant_count: row.participants,
                last_message_time: apple_nano_to_unix_opt(row.last_message),
            },
        ),
        None => None,
    }
}

/// What is bound to the statement that stores a chat.
pub open spec fn chat_param_list(record: ChatRecord) -> Seq<SqlParam> {
    seq![
        text_of(record.record_hash),
        opt_text_of(record.chat_identifier),
        opt_text_of(record.display_name),
        opt_int_of(record.participant_count),
        opt_int_of(record.last_message_time),
    ]
}

/// What is bound to the statement that stores a chat.
pub fn chat_params(record: &ChatRecord) -> (r: Vec<SqlParam>)
    ensures
        r@ == chat_param_list(*record),
{
    let mut params: Vec<SqlParam> = Vec::new();
    params.push(text_param(&record.record_hash));
    params.push(opt_text_param(&record.chat_identifier));
    params.push(opt_text_param(&record.display_name));
    params.push(opt_int_param(record.participant_count));
    params.push(opt_int_param(record.last_message_time));
    assert(params@ =~= chat_param_list(*record));
    params
}

/// A message as the messaging store holds it.
#[derive(Debug, Clone, PartialEq, Eq)]
pub struct MessageRow {
    pub guid: Option<String>,
    pub text: Option<String>,
    pub is_from_me: Option<i64>,
    /// Nanoseconds since 2001-01-01, as are the two dates that follow.
    pub date: Option<i64>,
    pub date_read: Option<i64>,
    pub date_delivered: Option<i64>,
    pub handle_id: Option<String>,
    pub chat_guid: Option<String>,
    pub service: Option<String>,
    pub attachment_count: Option<i64>,
}

/// A message as the unified store holds it. Its identifier of the source is
/// its identity key.
#[derive(Debug, Clone, PartialEq, Eq)]
pub struct MessageRecord {
    pub record_hash: String,
    pub text: Option<String>,
    pub is_from_me: Option<i64>,
    /// Unix seconds, as are the two times that follow.
    pub timestamp: i64,
    pub date_read: Option<i64>,
    pub date_delivered: Option<i64>,
    pub handle_id: Option<String>,
    pub chat_id: Option<String>,
    pub service: Option<String>,
    /// One where the message has an attachment, else zero.
    pub has_attachment: i64,
}

/// One where the count tells of an attachment, else zero.
pub open spec fn attachment_flag(count: Option<i64>) -> i64 {
    match count {
        Some(c) => if c > 0 {
            1
        } else {
            0
        },
        None => 0,
    }
}

/// Whether a message has a record: it has an identifier and a time.
pub open spec fn is_message(row: MessageRow) -> bool {
    is_key(row.guid) && nano_unix_opt(row.date) is Some
}

/// Whether `record` is the record of the message `row`.
pub open spec fn is_message_record(row: MessageRow, record: MessageRecord) -> bool {
    &&& is_message(row)
    &&& record.record_hash == row.guid.unwrap()
    &&& record.text == row.text
    &&& record.is_from_me == row.is_from_me
    &&& Some(record.timestamp) == nano_unix_opt(row.date)
    &&& record.date_read == nano_unix_opt(row.date_read)
    &&& record.date_delivered == nano_unix_opt(row.date_delivered)
    &&& record.handle_id == row.handle_id
    &&& record.chat_id == row.chat_guid
    &&& record.service == row.service
    &&& record.has_attachment == attachment_flag(row.attachment_count)
}

/// The record of a message; none for a message without an identifier or
/// without a time.
pub fn message_record(row: MessageRow) -> (r: Option<MessageRecord>)
    ensures
        match r {
            Some(record) => is_message_record(row, record),
            None => !is_message(row),
        },
{
    let guid = match present_key(row.guid) {
        Some(guid) => guid,
        None => {
            return None;
        },
    };
    let timestamp = match apple_nano_to_unix_opt(row.date) {
        Some(ts) => ts,
        None => {
            return None;
        },
    };
    let has_attachment: i64 = match row.attachment_count {
        Some(count) => if count > 0 {
            1
        } else {
            0
        },
        None => 0,
    };
    Some(
        MessageRecord {
            record_hash: guid,
            text: row.text,
            is_from_me: row.is_from_me,
            timestamp,
            date_read: apple_nano_to_unix_opt(row.date_read),
            date_delivered: apple_nano_to_unix_opt(row.date_delivered),
            handle_id: row.handle_id,
            chat_id: row.chat_guid,
            service: row.service,
            has_attachment,
        },
    )
}

/// What is bound to the statement that stores a message.
pub open spec fn message_param_list(record: MessageRecord) -> Seq<SqlParam> {
    seq![
        text_of(record.record_hash),
        opt_text_of(record.text),
        opt_int_of(record.is_from_me),
        SqlParam::Integer(record.timestamp),
        opt_int_of(record.date_read),
        opt_int_of(record.date_delivered),
        opt_text_of(record.handle_id),
        opt_text_of(record.chat_id),
        opt_text_of(record.service),
        SqlParam::Integer(record.has_attachment),
    ]
}

/// What is bound to the statement that stores a message.
pub fn message_params(record: &MessageRecord) -> (r: Vec<SqlParam>)
    ensures
        r@ == message_param_list(*record),
{
    let mut params: Vec<SqlParam> = Vec::new();
    params.push(text_param(&record.record_hash));
    params.push(opt_text_param(&record.text));
    params.push(opt_int_param(record.is_from_me));
    params.push(SqlParam::Integer(record.timestamp));
    params.push(opt_int_param(record.date_read));
    params.push(opt_int_param(record.date_delivered));
    params.push(opt_text_param(&record.handle_id));
    params.push(opt_text_param(&record.chat_id));
    params.push(opt_text_param(&record.service));
    params.push(SqlParam::Integer(record.has_attachment));
    assert(params@ =~= message_param_list(*record));
    params
}

/// Whether `read` is what the columns of a row of the contacts query are read as:
/// every column holds what is read from it, and each field is its column,
/// in the order of the query.
pub open spec fn is_contact_row(columns: Seq<Cell>, read: ContactRow) -> bool {
    &&& read_opt_text(cell_at(columns, 0)) == Some(opt_view(read.handle_id))
    &&& read_opt_text(cell_at(columns, 1)) == Some(opt_view(read.service))
    &&& read_opt_text(cell_at(columns, 2)) == Some(opt_view(read.display_name))
}

/// Reads a row of the contacts query; fails where a column does not hold
/// what is read from it.
fn read_contact_row(row: &rusqlite::Row<'_>) -> (r: Result<ContactRow, SqlFailure>)
    ensures
        match r {
            Ok(read) => is_contact_row(cells(*row), read),
            Err(failure) => failure.extended_code is None && forall|read: ContactRow|
                !#[trigger] is_contact_row(cells(*row), read),
        },
{
    let handle_id = column_opt_text(row, 0)?;
    let service = column_opt_text(row, 1)?;
    let display_name = column_opt_text(row, 2)?;
    Ok(ContactRow { handle_id, service, display_name })
}

/// Whether `read` is what the columns of a row of the chats query are read as:
/// every column that is read holds what is read from it, and each field is
/// its column. The first column is not read.
pub open spec fn is_chat_row(columns: Seq<Cell>, read: ChatRow) -> bool {
    &&& read_opt_text(cell_at(columns, 1)) == Some(opt_view(read.guid))
    &&& read_opt_text(cell_at(columns, 2)) == Some(opt_view(read.identifier))
    &&& read_opt_text(cell_at(columns, 3)) == Some(opt_view(read.display_name))
    &&& read_opt_int(cell_at(columns, 4)) == Some(read.participants)
    &&& read_opt_int(cell_at(columns, 5)) == Some(read.last_message)
}

/// Reads a row of the chats query; fails where a column does not hold what
/// is read from it.
fn read_chat_row(row: &rusqlite::Row<'_>) -> (r: Result<ChatRow, SqlFailure>)
    ensures
        match r {
            Ok(read) => is_chat_row(cells(*row), read),
            Err(failure) => failure.extended_code is None && forall|read: ChatRow|
                !#[trigger] is_chat_row(cells(*row), read),
        },
{
    let guid = column_opt_text(row, 1)?;
    let identifier = column_opt_text(row, 2)?;
    let display_name = column_opt_text(row, 3)?;
    let participants = column_opt_int(row, 4)?;
    let last_message = column_opt_int(row, 5)?;
    Ok(ChatRow { guid, identifier, display_name, participants, last_message })
}

/// Whether `read` is what the columns of a row of the messages query are read as:
/// every column that is read holds what is read from it, and each field is
/// its column. The first column is not read.
pub open spec fn is_message_row(columns: Seq<Cell>, read: MessageRow) -> bool {
    &&& read_opt_text(cell_at(columns, 1)) == Some(opt_view(read.guid))
    &&& read_opt_text(cell_at(columns, 2)) == Some(opt_view(read.text))
    &&& read_opt_int(cell_at(columns, 3)) == Some(read.is_from_me)
    &&& read_opt_int(cell_at(columns, 4)) == Some(read.date)
    &&& read_opt_int(cell_at(columns, 5)) == Some(read.date_read)
    &&& read_opt_int(cell_at(columns, 6)) == Some(read.date_delivered)
    &&& read_opt_text(cell_at(columns, 7)) == Some(opt_view(read.handle_id))
    &&& read_opt_text(cell_at(columns, 8)) == Some(opt_view(read.chat_guid))
    &&& read_opt_text(cell_at(columns, 9)) == Some(opt_view(read.service))
    &&& read_opt_int(cell_at(columns, 10)) == Some(read.attachment_count)
}

/// Reads a row of the messages query; fails where a column does not hold
/// what is read from it.
fn read_message_row(row: &rusqlite::Row<'_>) -> (r: Result<MessageRow, SqlFailure>)
    ensures
        match r {
            Ok(read) => is_message_row(cells(*row), read),
            Err(failure) => failure.extended_code is None && forall|read: MessageRow|
                !#[trigger] is_message_row(cells(*row), read),
        },
{
    let guid = column_opt_text(row, 1)?;
    let text = column_opt_text(row, 2)?;
    let is_from_me = column_opt_int(row, 3)?;
    let date = column_opt_int(row, 4)?;
    let date_read = column_opt_int(row, 5)?;
    let date_delivered = column_opt_int(row, 6)?;
    let handle_id = column_opt_text(row, 7)?;
    let chat_guid = column_opt_text(row, 8)?;
    let service = column_opt_text(row, 9)?;
    let attachment_count = column_opt_int(row, 10)?;
    Ok(
        MessageRow {
            guid,
            text,
            is_from_me,
            date,
            date_read,
            date_delivered,
            handle_id,
            chat_guid,
            service,
            attachment_count,
        },
    )
}

/// The reason of a failure of one part of the extraction: the words, then
/// the text of the failure.
pub open spec fn part_failure_reason(words: Seq<char>, cause: Error) -> Seq<char> {
    words + cause.text()
}

/// The path that a messaging store that cannot be read is named by.
pub open spec fn messages_store_path() -> Seq<char> {
    "~/Library/Messages/chat.db"@
}

/// Whether `words` name one of the three parts of the extraction.
pub open spec fn is_part_words(words: Seq<char>) -> bool {
    words == "Failed to extract contacts: "@ || words == "Failed to extract chats: "@ || words
        == "Failed to extract messages: "@
}

/// Whether `reason` is that of the failure of one of the three parts of the
/// extraction: the words that name the part, then the text of a failure
/// that can end the part.
pub open spec fn is_part_failure(reason: Seq<char>) -> bool {
    exists|words: Seq<char>, cause: Error|
        is_part_words(words) && (cause is Database || cause is SqlError
            || is_row_limit_failure(cause)) && #[trigger] part_failure_reason(words, cause)
            == reason
}

/// The failure of one part of the extraction.
pub fn part_failure(words: &str, cause: &Error) -> (r: Error)
    ensures
        r matches Error::ExtractionFailed(reason) && reason@ == part_failure_reason(
            words@,
            *cause,
        ),
{
    let mut reason = String::from_str(words);
    let text = cause.to_string();
    reason.append(text.as_str());
    Error::ExtractionFailed(reason)
}

/// The collector of the messaging store.
pub struct MessagesCollector<'a> {
    pub base: BaseCollector<'a>,
}

impl<'a> MessagesCollector<'a> {
    /// A collector that has stored nothing yet.
    pub fn new(config: &'a ExtractionConfig, unified_db: &'a rusqlite::Connection) -> (r: Result<
        Self,
        Error,
    >)
        ensures
            r is Ok,
            r.unwrap().base.name@ == CollectorType::Messages.name_text(),
            r.unwrap().base.config == config,
            r.unwrap().base.unified_db == unified_db,
            r.unwrap().base.counts() == (0usize, 0usize),
    {
        Ok(
            MessagesCollector {
                base: BaseCollector::new(
                    String::from_str(CollectorType::Messages.name()),
                    config,
                    unified_db,
                ),
            },
        )
    }

    /// Stores the record of one contact and counts what became of it:
    /// a stored record as added, one that the store holds already as
    /// skipped. A row without a record counts nothing and is no failure; a
    /// failure of the store counts nothing.
    pub fn store_contact(&mut self, raw: ContactRow) -> (r: Result<(), Error>)
        ensures
            final(self).base.name == old(self).base.name,
            final(self).base.config == old(self).base.config,
            final(self).base.unified_db == old(self).base.unified_db,
            match r {
                Ok(_) => if !is_key(raw.handle_id) {
                    final(self).base.counts() == old(self).base.counts()
                } else {
                    one_more(old(self).base.counts(), final(self).base.counts())
                },
                Err(e) => {
                    &&& !(!is_key(raw.handle_id))
                    &&& e is Database
                    &&& final(self).base.counts() == old(self).base.counts()
                },
            },
    {
        match contact_record(raw) {
            Some(record) => {
                let params = contact_params(&record);
                self.base.store(CONTACT_INSERT, &params)
            },
            None => Ok(()),
        }
    }

    /// Reads the contacts of `source` and stores the record of each; a
    /// contact without a record is passed over.
    pub fn extract_contacts(&mut self, source: &rusqlite::Connection) -> (r: Result<(), Error>)
        ensures
            not_below(old(self).base.counts(), final(self).base.counts()),
            final(self).base.name == old(self).base.name,
            final(self).base.config == old(self).base.config,
            final(self).base.unified_db == old(self).base.unified_db,
            r matches Err(e) ==> e is Database || e is SqlError || is_row_limit_failure(e),
    {
        let mut stmt = match prepare(source, CONTACTS_QUERY) {
            Ok(stmt) => stmt,
            Err(failure) => {
                return Err(
                    Error::sql_error(
                        "extract_contacts",
                        CONTACTS_QUERY,
                        failure.text.as_str(),
                        "Verify that Messages database (chat.db) has handle, chat_handle_join, and chat tables",
                    ),
                );
            },
        };
        let mut rows = match query(&mut stmt) {
            Ok(rows) => rows,
            Err(failure) => {
                return Err(database_error(failure));
            },
        };
        let mut budget: u64 = ROW_LIMIT;
        while budget > 0
            invariant
                not_below(old(self).base.counts(), self.base.counts()),
                self.base.name == old(self).base.name,
                self.base.config == old(self).base.config,
                self.base.unified_db == old(self).base.unified_db,
            decreases budget,
        {
            budget = budget - 1;
            let raw = match next_row(&mut rows) {
                Ok(Some(row)) => match read_contact_row(row) {
                    Ok(raw) => raw,
                    Err(failure) => {
                        return Err(database_error(failure));
                    },
                },
                Ok(None) => {
                    return Ok(());
                },
                Err(failure) => {
                    return Err(database_error(failure));
                },
            };
            match self.store_contact(raw) {
                Ok(_) => {},
                Err(e) => {
                    return Err(e);
                },
            }
        }
        Err(too_many_rows())
    }

    /// Stores the record of one chat and counts what became of it:
    /// a stored record as added, one that the store holds already as
    /// skipped. A row without a record counts nothing and is no failure; a
    /// failure of the store counts nothing.
    pub fn store_chat(&mut self, raw: ChatRow) -> (r: Result<(), Error>)
        ensures
            final(self).base.name == old(self).base.name,
            final(self).base.config == old(self).base.config,
            final(self).base.unified_db == old(self).base.unified_db,
            match r {
                Ok(_) => if !is_key(raw.guid) {
                    final(self).base.counts() == old(self).base.counts()
                } else {
                    one_more(old(self).base.counts(), final(self).base.counts())
                },
                Err(e) => {
                    &&& !(!is_key(raw.guid))
                    &&& e is Database
                    &&& final(self).base.counts() == old(self).base.counts()
                },
            },
    {
        match chat_record(raw) {
            Some(record) => {
                let params = chat_params(&record);
                self.base.store(CHAT_INSERT, &params)
            },
            None => Ok(()),
        }
    }

    /// Reads the chats of `source` and stores the record of each; a chat
    /// without a record is passed over.
    pub fn extract_chats(&mut self, source: &rusqlite::Connection) -> (r: Result<(), Error>)
        ensures
            not_below(old(self).base.counts(), final(self).base.counts()),
            final(self).base.name == old(self).base.name,
            final(self).base.config == old(self).base.config,
            final(self).base.unified_db == old(self).base.unified_db,
            r matches Err(e) ==> e is Database || e is SqlError || is_row_limit_failure(e),
    {
        let mut stmt = match prepare(source, CHATS_QUERY) {
            Ok(stmt) => stmt,
            Err(failure) => {
                return Err(
                    Error::sql_error(
                        "extract_chats",
                        CHATS_QUERY,
                        failure.text.as_str(),
                        "Verify that Messages database has chat, message, and chat_message_join tables",
                    ),
                );
            },
        };
        let mut rows = match query(&mut stmt) {
            Ok(rows) => rows,
            Err(failure) => {
                return Err(database_error(failure));
            },
        };
        let mut budget: u64 = ROW_LIMIT;
        while budget > 0
            invariant
                not_below(old(self).base.counts(), self.base.counts()),
                self.base.name == old(self).base.name,
                self.base.config == old(self).base.config,
                self.base.unified_db == old(self).base.unified_db,
            decreases budget,
        {
            budget = budget - 1;
            let raw = match next_row(&mut rows) {
                Ok(Some(row)) => match read_chat_row(row) {
                    Ok(raw) => raw,
                    Err(failure) => {
                        return Err(database_error(failure));
                    },
                },
                Ok(None) => {
                    return Ok(());
                },
                Err(failure) => {
                    return Err(database_error(failure));
                },
            };
            match self.store_chat(raw) {
                Ok(_) => {},
                Err(e) => {
                    return Err(e);
                },
            }
        }
        Err(too_many_rows())
    }

    /// Stores the record of one message and counts what became of it:
    /// a stored record as added, one that the store holds already as
    /// skipped. A row without a record counts nothing and is no failure; a
    /// failure of the store counts nothing.
    pub fn store_message(&mut self, raw: MessageRow) -> (r: Result<(), Error>)
        ensures
            final(self).base.name == old(self).base.name,
            final(self).base.config == old(self).base.config,
            final(self).base.unified_db == old(self).base.unified_db,
            match r {
                Ok(_) => if !is_message(raw) {
                    final(self).base.counts() == old(self).base.counts()
                } else {
                    one_more(old(self).base.counts(), final(self).base.counts())
                },
                Err(e) => {
                    &&& !(!is_message(raw))
                    &&& e is Database
                    &&& final(self).base.counts() == old(self).base.counts()
                },
            },
    {
        match message_record(raw) {
            Some(record) => {
                let params = message_params(&record);
                self.base.store(MESSAGE_INSERT, &params)
            },
            None => Ok(()),
        }
    }

    /// Reads the messages of `source` in the order of their time and stores
    /// the record of each; a message without a record is passed over.
    pub fn extract_messages(&mut self, source: &rusqlite::Connection) -> (r: Result<(), Error>)
        ensures
            not_below(old(self).base.counts(), final(self).base.counts()),
            final(self).base.name == old(self).base.name,
            final(self).base.config == old(self).base.config,
            final(self).base.unified_db == old(self).base.unified_db,
            r matches Err(e) ==> e is Database || e is SqlError || is_row_limit_failure(e),
    {
        let mut stmt = match prepare(source, MESSAGES_QUERY) {
            Ok(stmt) => stmt,
            Err(failure) => {
                return Err(
                    Error::sql_error(
                        "extract_messages",
                        MESSAGES_QUERY,
                        failure.text.as_str(),
                        "Verify Messages database schema. Check that message, handle, chat, chat_message_join, and attachment tables exist",
                    ),
                );
            },
        };
        let mut rows = match query(&mut stmt) {
            Ok(rows) => rows,
            Err(failure) => {
                return Err(database_error(failure));
            },
        };
        let mut budget: u64 = ROW_LIMIT;
        while budget > 0
            invariant
                not_below(old(self).base.counts(), self.base.counts()),
                self.base.name == old(self).base.name,
                self.base.config == old(self).base.config,
                self.base.unified_db == old(self).base.unified_db,
            decreases budget,
        {
            budget = budget - 1;
            let raw = match next_row(&mut rows) {
                Ok(Some(row)) => match read_message_row(row) {
                    Ok(raw) => raw,
                    Err(failure) => {
                        return Err(database_error(failure));
                    },
                },
                Ok(None) => {
                    return Ok(());
                },
                Err(failure) => {
                    return Err(database_error(failure));
                },
            };
            match self.store_message(raw) {
                Ok(_) => {},
                Err(e) => {
                    return Err(e);
                },
            }
        }
        Err(too_many_rows())
    }
}

impl<'a> Collector for MessagesCollector<'a> {
    open spec fn name_text(&self) -> Seq<char> {
        self.base.name@
    }

    open spec fn counts(&self) -> (usize, usize) {
        self.base.counts()
    }

    open spec fn settings(&self) -> ExtractionConfig {
        *self.base.config
    }

    open spec fn default_paths(&self) -> Seq<Seq<char>> {
        CollectorType::Messages.default_paths()
    }

    open spec fn unified_store(&self) -> rusqlite::Connection {
        *self.base.unified_db
    }

    fn name(&self) -> (r: &str) {
        self.base.name.as_str()
    }

    fn source_paths(&self) -> (r: Vec<String>) {
        CollectorType::Messages.default_source_paths()
    }

    /// Contacts, chats and messages, in this order. A source whose messages
    /// cannot be read at all is answered with [`Error::PermissionDenied`],
    /// and nothing is counted; the failure of a part, with
    /// [`Error::ExtractionFailed`] and a reason that names the part and
    /// gives the cause.
    ///
    /// Where the source was found is not known here, so the permission
    /// failure names the store by its default path; a run names the path at
    /// which the source was found in its place.
    fn extract(&mut self, source_conn: &rusqlite::Connection) -> (r: Result<(), Error>)
        ensures
            match r {
                Ok(_) => true,
                Err(Error::PermissionDenied { path }) => path@ == messages_store_path()
                    && final(self).counts() == old(self).counts(),
                Err(Error::ExtractionFailed(reason)) => is_part_failure(reason@),
                Err(_) => false,
            },
    {
        if !yields_row(source_conn, "SELECT COUNT(*) FROM message LIMIT 1") {
            return Err(
                Error::PermissionDenied { path: String::from_str("~/Library/Messages/chat.db") },
            );
        }
        match self.extract_contacts(source_conn) {
            Ok(_) => {},
            Err(e) => {
                let failure = part_failure("Failed to extract contacts: ", &e);
                assert(is_part_failure(part_failure_reason("Failed to extract contacts: "@, e)));
                return Err(failure);
            },
        }
        match self.extract_chats(source_conn) {
            Ok(_) => {},
            Err(e) => {
                let failure = part_failure("Failed to extract chats: ", &e);
                assert(is_part_failure(part_failure_reason("Failed to extract chats: "@, e)));
                return Err(failure);
            },
        }
        match self.extract_messages(source_conn) {
            Ok(_) => {},
            Err(e) => {
                let failure = part_failure("Failed to extract messages: ", &e);
                assert(is_part_failure(part_failure_reason("Failed to extract messages: "@, e)));
                return Err(failure);
            },
        }
        Ok(())
    }

    fn config(&self) -> (r: &ExtractionConfig) {
        self.base.config
    }

    fn unified_db(&self) -> (r: &rusqlite::Connection) {
        assert(self.unified_store() == *self.base.unified_db);
        self.base.unified_db
    }

    fn get_counts(&self) -> (r: (usize, usize)) {
        (self.base.records_added, self.base.records_skipped)
    }

    fn increment_added(&mut self) {
        self.base.records_added = bump(self.base.records_added);
    }

    fn increment_skipped(&mut self) {
        self.base.records_skipped = bump(self.base.records_skipped);
    }
}

} // verus!
