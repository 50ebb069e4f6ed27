//! The freshness policy of documents that the remote source publishes without
//! a hash (the version manifest, version profiles): a cached copy is used only
//! when it was written strictly after the remote copy last changed.
use vstd::prelude::*;

verus! {

/// The instant an RFC 3339 timestamp denotes, in milliseconds since the Unix
/// epoch; none when the text is not such a timestamp.
pub uninterp spec fn rfc3339_millis(s: Seq<char>) -> Option<int>;

/// Relies on chrono's DateTime::parse_from_rfc3339 and timestamp_millis: the
/// instant of an RFC 3339 timestamp in milliseconds since the Unix epoch, or an
/// error when the text is not one.
#[verifier::external_body]
fn parse_rfc3339_millis(s: &str) -> (r: Option<i64>)
    ensures
        match r {
            Some(v) => rfc3339_millis(s@) == Some(v as int),
            None => rfc3339_millis(s@) is None,
        },
{
    match chrono::DateTime::parse_from_rfc3339(s) {
        Ok(t) => Some(t.timestamp_millis()),
        Err(_) => None,
    }
}

/// Where a document is taken from.
#[derive(Clone, Copy, Debug, PartialEq, Eq, Structural)]
pub enum DocumentSource {
    /// The cached copy is fresh: read it.
    Cache,
    /// The cached copy is stale or missing: fetch the document again.
    Network,
}

/// The remote timestamp of a document is not an RFC 3339 timestamp.
#[derive(Clone, Copy, Debug, PartialEq, Eq, Structural)]
pub struct InvalidTimestamp;

/// A cached copy written at `local_ms` is fresh against a remote copy changed
/// at `remote_ms` exactly when it is strictly later; equal instants are stale.
pub fn is_fresh(local_ms: u128, remote_ms: i64) -> (r: bool)
    ensures
        r == (local_ms as int > remote_ms as int),
{
    if remote_ms < 0 {
        true
    } else {
        local_ms > remote_ms as u128
    }
}

/// Decides where a document comes from, given when its cached copy was last
/// modified (none when there is no cached copy) and the remote copy's RFC 3339
/// timestamp. A fresh cached copy that then fails to parse is to be treated as
/// missing: fetch the document.
pub fn document_source(cached_ms: Option<u128>, remote_time: &str) -> (r: Result<DocumentSource, InvalidTimestamp>)
    ensures
        match cached_ms {
            None => r == Ok::<DocumentSource, InvalidTimestamp>(DocumentSource::Network),
            Some(t) => match rfc3339_millis(remote_time@) {
                None => r is Err,
                Some(m) => r == Ok::<DocumentSource, InvalidTimestamp>(
                    if t as int > m { DocumentSource::Cache } else { DocumentSource::Network },
                ),
            },
        },
{
    match cached_ms {
        None => Ok(DocumentSource::Network),
        Some(t) => match parse_rfc3339_millis(remote_time) {
            None => Err(InvalidTimestamp),
            Some(m) => {
                if is_fresh(t, m) {
                    Ok(DocumentSource::Cache)
                } else {
                    Ok(DocumentSource::Network)
                }
            },
        },
    }
}

} // verus!
