//! The typed release records that the decoder produces: a release and the
//! downloadable assets attached to it, together with the timestamp type
//! their date fields use.

use vstd::prelude::*;

verus! {

/// What chrono's RFC 3339 parser makes of a text: the UTC timestamp in
/// whole seconds since the epoch, or `None` when the text is not an
/// RFC 3339 date-time. The result is a function of the text alone.
pub uninterp spec fn rfc3339_epoch(s: Seq<char>) -> Option<i64>;

/// Relies on chrono::DateTime::parse_from_rfc3339 and
/// chrono::DateTime::timestamp: parsing an RFC 3339 date-time and taking
/// its whole seconds since the epoch is a function of the text alone.
#[verifier::external_body]
fn parse_rfc3339(s: &str) -> (r: Option<i64>)
    ensures
        r == rfc3339_epoch(s@),
{
    match chrono::DateTime::parse_from_rfc3339(s) {
        Ok(dt) => Some(dt.timestamp()),
        Err(_) => None,
    }
}

/// A UTC timestamp, held as whole seconds since the Unix epoch. The
/// release records carry their dates in this form; anything finer than a
/// second, which the upstream API never sends, is not kept.
#[derive(Clone, Copy, PartialEq, Eq, Structural, Debug)]
pub struct Timestamp {
    pub epoch_seconds: i64,
}

impl Timestamp {
    /// Parses an RFC 3339 date-time such as `2021-01-19T01:15:00Z`.
    /// Returns `None` exactly when the text is not one.
    pub fn parse(s: &str) -> (r: Option<Timestamp>)
        ensures
            match r {
                Some(t) => rfc3339_epoch(s@) == Some(t.epoch_seconds),
                None => rfc3339_epoch(s@) is None,
            },
    {
        match parse_rfc3339(s) {
            Some(secs) => Some(Timestamp { epoch_seconds: secs }),
            None => None,
        }
    }
}

/// A single downloadable file attached to a release.
#[derive(Debug, PartialEq)]
pub struct Asset {
    pub browser_download_url: String,
    pub name: String,
    pub label: String,
    pub size: u64,
    pub created_at: Timestamp,
    pub updated_at: Timestamp,
}

/// A published release of the upstream project. `assets` holds the
/// release's downloadable files in the order the source listed them; a
/// release whose source object had no `assets` member gets an empty list,
/// never a failure.
#[derive(Debug, PartialEq)]
pub struct Release {
    pub html_url: String,
    pub id: u64,
    pub name: String,
    pub body: String,
    pub created_at: Timestamp,
    pub published_at: Timestamp,
    pub assets: Vec<Asset>,
}

} // verus!
