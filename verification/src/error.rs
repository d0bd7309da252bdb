//! The failures an extraction can report, and the text each one is shown as.

use vstd::prelude::*;
use crate::text::joined;

verus! {

/// A failure of locating, snapshotting, reading or storing.
///
/// Every variant holds plain text, so that a failure can be stored, compared
/// and shown without the value it was made from.
#[derive(Debug, Clone, PartialEq, Eq)]
pub enum Error {
    /// A storage operation failed; with the place it failed in.
    DatabaseWithContext { operation: String, source_path: String, error: String, suggestion: String },
    /// A storage operation failed; holds the storage engine's own text.
    Database(String),
    /// A query failed; with the query.
    SqlError { operation: String, query: String, error: String, suggestion: String },
    /// No candidate path of a source exists; holds the list of searched paths.
    SourceNotFound { paths: String },
    /// The snapshot could not be taken; holds the cause.
    CopyFailed(String),
    /// The source file may not be read; holds the path of the source.
    PermissionDenied { path: String },
    /// The unified store is absent; holds the path looked at.
    DatabaseNotFound(String),
    /// A file operation failed; with the place it failed in.
    IoWithContext { operation: String, path: String, error: String },
    /// A file operation failed; holds the cause.
    Io(String),
    /// A value is no timestamp; holds the reason.
    InvalidTimestamp(String),
    /// A source's extraction failed; holds the reason.
    ExtractionFailed(String),
    /// The name denotes no source type.
    UnsupportedCollector(String),
}

/// One line of the list of searched paths.
pub open spec fn searched_path_line(path: Seq<char>) -> Seq<char> {
    "    - "@ + path
}

/// The list of searched paths: one line for each, joined by line breaks.
pub open spec fn searched_paths_text(paths: Seq<String>) -> Seq<char> {
    joined(paths.map(|i: int, p: String| searched_path_line(p@)), "\n"@)
}

impl Error {
    /// The text this failure is shown as.
    pub open spec fn text(self) -> Seq<char> {
        match self {
            Error::DatabaseWithContext { operation, source_path, error, suggestion } => {
                "Database error in "@ + operation@ + "\n  Source: "@ + source_path@
                    + "\n  Error: "@ + error@ + "\n  "@ + suggestion@
            },
            Error::Database(cause) => "Database error: "@ + cause@,
            Error::SqlError { operation, query, error, suggestion } => {
                "SQL query failed in "@ + operation@ + "\n  Query: "@ + query@ + "\n  Error: "@
                    + error@ + "\n  Suggestion: "@ + suggestion@
            },
            Error::SourceNotFound { paths } => {
                "Source database not found\n  Searched paths:\n"@ + paths@
                    + "\n  Suggestion: Ensure the application has run and created data"@
            },
            Error::CopyFailed(cause) => "Failed to copy source database: "@ + cause@,
            Error::PermissionDenied { path } => {
                "Permission denied: "@ + path@
                    + "\n  Suggestion: Grant Full Disk Access to your application in System Settings > Privacy & Security > Full Disk Access"@
            },
            Error::DatabaseNotFound(path) => "Unified database not found at: "@ + path@,
            Error::IoWithContext { operation, path, error } => {
                "IO error during "@ + operation@ + "\n  Path: "@ + path@ + "\n  Error: "@ + error@
            },
            Error::Io(cause) => "IO error: "@ + cause@,
            Error::InvalidTimestamp(reason) => "Invalid timestamp: "@ + reason@,
            Error::ExtractionFailed(reason) => "Extraction failed: "@ + reason@,
            Error::UnsupportedCollector(name) => "Unsupported collector type: "@ + name@,
        }
    }

    /// The text this failure is shown as.
    pub fn to_string(&self) -> (r: String)
        ensures
            r@ == self.text(),
    {
        match self {
            Error::DatabaseWithContext { operation, source_path, error, suggestion } => {
                let mut out = String::from_str("Database error in ");
                out.append(operation.as_str());
                out.append("\n  Source: ");
                out.append(source_path.as_str());
                out.append("\n  Error: ");
                out.append(error.as_str());
                out.append("\n  ");
                out.append(suggestion.as_str());
                out
            },
            Error::Database(cause) => {
                let mut out = String::from_str("Database error: ");
                out.append(cause.as_str());
                out
            },
            Error::SqlError { operation, query, error, suggestion } => {
                let mut out = String::from_str("SQL query failed in ");
                out.append(operation.as_str());
                out.append("\n  Query: ");
                out.append(query.as_str());
                out.append("\n  Error: ");
                out.append(error.as_str());
                out.append("\n  Suggestion: ");
                out.append(suggestion.as_str());
                out
            },
            Error::SourceNotFound { paths } => {
                let mut out = String::from_str("Source database not found\n  Searched paths:\n");
                out.append(paths.as_str());
                out.append("\n  Suggestion: Ensure the application has run and created data");
                out
            },
            Error::CopyFailed(cause) => {
                let mut out = String::from_str("Failed to copy source database: ");
                out.append(cause.as_str());
                out
            },
            Error::PermissionDenied { path } => {
                let mut out = String::from_str("Permission denied: ");
                out.append(path.as_str());
                out.append(
                    "\n  Suggestion: Grant Full Disk Access to your application in System Settings > Privacy & Security > Full Disk Access",
                );
                out
            },
            Error::DatabaseNotFound(path) => {
                let mut out = String::from_str("Unified database not found at: ");
                out.append(path.as_str());
                out
            },
            Error::IoWithContext { operation, path, error } => {
                let mut out = String::from_str("IO error during ");
                out.append(operation.as_str());
                out.append("\n  Path: ");
                out.append(path.as_str());
                out.append("\n  Error: ");
                out.append(error.as_str());
                out
            },
            Error::Io(cause) => {
                let mut out = String::from_str("IO error: ");
                out.append(cause.as_str());
                out
            },
            Error::InvalidTimestamp(reason) => {
                let mut out = String::from_str("Invalid timestamp: ");
                out.append(reason.as_str());
                out
            },
            Error::ExtractionFailed(reason) => {
                let mut out = String::from_str("Extraction failed: ");
                out.append(reason.as_str());
                out
            },
            Error::UnsupportedCollector(name) => {
                let mut out = String::from_str("Unsupported collector type: ");
                out.append(name.as_str());
                out
            },
        }
    }

    /// A storage failure with the operation, the source and a suggestion.
    pub fn database_context(operation: &str, source_path: &str, error: &str, suggestion: &str) -> (r:
        Error)
        ensures
            r matches Error::DatabaseWithContext { operation: o, source_path: p, error: e, suggestion: s }
                && o@ == operation@ && p@ == source_path@ && e@ == error@ && s@ == suggestion@,
    {
        Error::DatabaseWithContext {
            operation: String::from_str(operation),
            source_path: String::from_str(source_path),
            error: String::from_str(error),
            suggestion: String::from_str(suggestion),
        }
    }

    /// A query failure with the operation, the query and a suggestion.
    pub fn sql_error(operation: &str, query: &str, error: &str, suggestion: &str) -> (r: Error)
        ensures
            r matches Error::SqlError { operation: o, query: q, error: e, suggestion: s }
                && o@ == operation@ && q@ == query@ && e@ == error@ && s@ == suggestion@,
    {
        Error::SqlError {
            operation: String::from_str(operation),
            query: String::from_str(query),
            error: String::from_str(error),
            suggestion: String::from_str(suggestion),
        }
    }

    /// A file failure with the operation and the path.
    pub fn io_context(operation: &str, path: &str, error: &str) -> (r: Error)
        ensures
            r matches Error::IoWithContext { operation: o, path: p, error: e } && o@ == operation@
                && p@ == path@ && e@ == error@,
    {
        Error::IoWithContext {
            operation: String::from_str(operation),
            path: String::from_str(path),
            error: String::from_str(error),
        }
    }

    /// The failure of a search that tried `paths`, all of them listed.
    pub fn source_not_found(paths: &[String]) -> (r: Error)
        ensures
            r matches Error::SourceNotFound { paths: listed } && listed@ == searched_paths_text(
                paths@,
            ),
    {
        let mut listed = String::new();
        let mut i: usize = 0;
        while i < paths.len()
            invariant
                i <= paths.len(),
                listed@ == searched_paths_text(paths@.take(i as int)),
            decreases paths.len() - i,
        {
            proof {
                let before = paths@.take(i as int);
                let now = paths@.take(i + 1);
                let lines = now.map(|k: int, p: String| searched_path_line(p@));
                assert(now.drop_last() =~= before);
                assert(lines.drop_last() =~= before.map(
                    |k: int, p: String| searched_path_line(p@),
                ));
                assert(lines.last() == searched_path_line(paths@[i as int]@));
                if i == 0 {
                    assert(lines.len() == 1);
                    assert(joined(lines, "\n"@) == lines[0]);
                }
            }
            if i > 0 {
                listed.append("\n");
            }
            listed.append("    - ");
            listed.append(paths[i].as_str());
            assert(listed@ =~= searched_paths_text(paths@.take(i + 1)));
            i = i + 1;
        }
        assert(paths@.take(paths@.len() as int) =~= paths@);
        Error::SourceNotFound { paths: listed }
    }
}

} // verus!
