//! The cache service: what each request asks of the store, and what each of
//! the store's outcomes answers.
use vstd::prelude::*;
use crate::clock::{in_text_range, now_seconds, timestamp_at, timestamp_text};
use crate::entity::{CacheEntry, EntryView, SaveCacheEntryRequest};
use crate::store::{Statement, StatementView};

verus! {

/// Why a request was not served.
#[derive(Debug, Clone, Copy, PartialEq, Eq, Structural)]
pub enum ServiceError {
    /// The request's key is empty.
    EmptyKey,
    /// No entry is stored under the key.
    NotFound,
    /// The store failed.
    StoreFailure,
    /// The clock reads an instant that has no timestamp text.
    ClockOutOfRange,
}

/// A failure of the store, whatever its cause.
#[derive(Debug, Clone, Copy, PartialEq, Eq, Structural)]
pub struct StoreFailure;

/// The HTTP status of each error.
pub open spec fn error_status(e: ServiceError) -> u16 {
    match e {
        ServiceError::EmptyKey => 400,
        ServiceError::NotFound => 404,
        ServiceError::StoreFailure => 500,
        ServiceError::ClockOutOfRange => 500,
    }
}

impl ServiceError {
    /// The HTTP status that answers this error.
    pub fn status_code(&self) -> (r: u16)
        ensures
            r == error_status(*self),
    {
        match self {
            ServiceError::EmptyKey => 400,
            ServiceError::NotFound => 404,
            ServiceError::StoreFailure => 500,
            ServiceError::ClockOutOfRange => 500,
        }
    }
}

/// What a fetch answers, given what the select read.
pub open spec fn fetch_outcome(row: Option<EntryView>) -> Result<EntryView, ServiceError> {
    match row {
        Some(e) => Ok(e),
        None => Err(ServiceError::NotFound),
    }
}

/// The statement that an upsert of `key` and `value` at instant `now` runs.
pub open spec fn upsert_view(key: Seq<char>, value: Seq<char>, now: int) -> StatementView {
    StatementView::Upsert { key, value, created_at: timestamp_text(now) }
}

/// The select that a fetch of `key` runs, or `EmptyKey`.
pub fn fetch_statement(key: &str) -> (r: Result<Statement, ServiceError>)
    ensures
        key@.len() == 0 ==> r == Err::<Statement, ServiceError>(ServiceError::EmptyKey),
        key@.len() > 0 ==> (r matches Ok(s) && s@ == (StatementView::Select { key: key@ })),
{
    if key.unicode_len() == 0 {
        Err(ServiceError::EmptyKey)
    } else {
        Ok(Statement::Select { key: String::from_str(key) })
    }
}

/// What a fetch answers once the store has run its select: the entry, or
/// `NotFound` where there is none, or `StoreFailure` where the store failed.
pub fn fetch_response(outcome: Result<Option<CacheEntry>, StoreFailure>) -> (r: Result<
    CacheEntry,
    ServiceError,
>)
    ensures
        outcome matches Ok(Some(e)) ==> (r matches Ok(f) && f@ == e@),
        outcome matches Ok(None) ==> r == Err::<CacheEntry, ServiceError>(ServiceError::NotFound),
        outcome is Err ==> r == Err::<CacheEntry, ServiceError>(ServiceError::StoreFailure),
{
    match outcome {
        Ok(Some(e)) => Ok(e),
        Ok(None) => Err(ServiceError::NotFound),
        Err(_) => Err(ServiceError::StoreFailure),
    }
}

/// The upsert that a write of `request` at instant `now` (seconds since the
/// Unix epoch) runs: the key, the value unchanged, and `now` as timestamp.
/// An empty key is refused; an instant that chrono cannot write gives
/// `ClockOutOfRange`, which never happens for the years 0 to 9999.
pub fn upsert_statement_at(request: SaveCacheEntryRequest, now: i64) -> (r: Result<
    Statement,
    ServiceError,
>)
    ensures
        request.key@.len() == 0 ==> r == Err::<Statement, ServiceError>(ServiceError::EmptyKey),
        request.key@.len() > 0 ==> !(r matches Err(ServiceError::EmptyKey)),
        request.key@.len() > 0 && in_text_range(now as int) ==> (r matches Ok(s)
            && s@ == upsert_view(request.key@, request.value@, now as int)),
        r matches Ok(s) ==> s@ == upsert_view(request.key@, request.value@, now as int),
        r matches Err(e) ==> e == ServiceError::EmptyKey || e == ServiceError::ClockOutOfRange,
{
    if request.key.as_str().unicode_len() == 0 {
        return Err(ServiceError::EmptyKey);
    }
    match timestamp_at(now) {
        Some(created_at) => Ok(
            Statement::Upsert { key: request.key, value: request.value, created_at },
        ),
        None => Err(ServiceError::ClockOutOfRange),
    }
}

/// The upsert that a write of `request` runs now: as `upsert_statement_at`
/// at the instant the clock reads.
pub fn upsert_statement(request: SaveCacheEntryRequest) -> (r: Result<Statement, ServiceError>)
    ensures
        request.key@.len() == 0 ==> r == Err::<Statement, ServiceError>(ServiceError::EmptyKey),
        request.key@.len() > 0 ==> !(r matches Err(ServiceError::EmptyKey)),
        r matches Ok(s) ==> exists|now: int| s@ == #[trigger] upsert_view(request.key@, request.value@, now),
        r matches Err(e) ==> e == ServiceError::EmptyKey || e == ServiceError::ClockOutOfRange,
{
    let now = now_seconds();
    upsert_statement_at(request, now)
}

/// What a write answers once the store has run its upsert.
pub fn upsert_response(outcome: Result<u64, StoreFailure>) -> (r: Result<(), ServiceError>)
    ensures
        outcome is Ok <==> r is Ok,
        outcome is Err ==> r == Err::<(), ServiceError>(ServiceError::StoreFailure),
{
    match outcome {
        Ok(_) => Ok(()),
        Err(_) => Err(ServiceError::StoreFailure),
    }
}

} // verus!
