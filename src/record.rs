//! What the metadata store keeps about one URL, and how a record maps to and
//! from the columns of its row.
use vstd::prelude::*;

verus! {

/// All the information we have about a given URL.
#[derive(Clone, Debug, PartialEq, Eq)]
pub struct CacheRecord {
    /// The path of the cached body, relative to the cache root.
    pub path: String,
    /// The value of the Last-Modified header in the response that was stored.
    pub last_modified: Option<String>,
    /// The value of the ETag header in the response that was stored.
    pub etag: Option<String>,
}

/// One column value of a stored row, by storage class. A floating-point
/// value is only told apart from the others.
#[derive(Clone, Debug, PartialEq, Eq)]
pub enum StoredValue {
    Null,
    Integer(i64),
    Real,
    Text(String),
    Blob(Vec<u8>),
}

/// Why a lookup produced no record.
#[derive(Clone, Debug, PartialEq, Eq)]
pub enum LookupError {
    /// No row is stored under the key.
    NotFound,
    /// The row's path column does not hold text.
    PathNotText { found: StoredValue },
    /// The store could not run the query.
    Unavailable,
}

/// A validator column read back: text is the validator, anything else counts
/// as no validator.
pub open spec fn validator_of(v: StoredValue) -> Option<String> {
    match v {
        StoredValue::Text(s) => Some(s),
        _ => None,
    }
}

/// The record that a row with these three columns describes.
pub open spec fn record_of(
    path: StoredValue,
    last_modified: StoredValue,
    etag: StoredValue,
) -> Result<CacheRecord, LookupError> {
    match path {
        StoredValue::Text(p) => Ok(
            CacheRecord {
                path: p,
                last_modified: validator_of(last_modified),
                etag: validator_of(etag),
            },
        ),
        _ => Err(LookupError::PathNotText { found: path }),
    }
}

/// The column that stores an optional validator.
pub open spec fn column_of(v: Option<String>) -> StoredValue {
    match v {
        Some(s) => StoredValue::Text(s),
        None => StoredValue::Null,
    }
}

/// Copies an optional string; it equals the value copied.
pub fn copy_text(v: &Option<String>) -> (r: Option<String>)
    ensures
        r == *v,
{
    match v {
        Some(s) => Some(s.clone()),
        None => None,
    }
}

impl CacheRecord {
    /// Copies the record; it equals the value copied.
    pub fn copied(&self) -> (r: CacheRecord)
        ensures
            r == *self,
    {
        CacheRecord {
            path: self.path.clone(),
            last_modified: copy_text(&self.last_modified),
            etag: copy_text(&self.etag),
        }
    }
}

/// Reads a validator column: text is kept, and a column of any other class
/// counts as absent.
pub fn validator_from_column(v: StoredValue) -> (r: Option<String>)
    ensures
        r == validator_of(v),
{
    match v {
        StoredValue::Text(s) => Some(s),
        _ => None,
    }
}

/// Builds the record of a row from its path, Last-Modified and ETag columns.
/// A path that is not text makes the row unusable.
pub fn record_from_columns(
    path: StoredValue,
    last_modified: StoredValue,
    etag: StoredValue,
) -> (r: Result<CacheRecord, LookupError>)
    ensures
        r == record_of(path, last_modified, etag),
{
    match path {
        StoredValue::Text(p) => Ok(
            CacheRecord {
                path: p,
                last_modified: validator_from_column(last_modified),
                etag: validator_from_column(etag),
            },
        ),
        other => Err(LookupError::PathNotText { found: other }),
    }
}

/// Writes an optional validator as a column: text, or null when absent.
pub fn column_from_validator(v: Option<String>) -> (r: StoredValue)
    ensures
        r == column_of(v),
{
    match v {
        Some(s) => StoredValue::Text(s),
        None => StoredValue::Null,
    }
}

/// The path, Last-Modified and ETag columns that store `record`.
pub fn columns_of_record(record: CacheRecord) -> (r: (StoredValue, StoredValue, StoredValue))
    ensures
        r.0 == StoredValue::Text(record.path),
        r.1 == column_of(record.last_modified),
        r.2 == column_of(record.etag),
{
    (
        StoredValue::Text(record.path),
        column_from_validator(record.last_modified),
        column_from_validator(record.etag),
    )
}

/// A record written to its columns reads back as the same record.
pub proof fn lemma_columns_round_trip(record: CacheRecord)
    ensures
        record_of(
            StoredValue::Text(record.path),
            column_of(record.last_modified),
            column_of(record.etag),
        ) == Ok::<CacheRecord, LookupError>(record),
{
}

} // verus!
