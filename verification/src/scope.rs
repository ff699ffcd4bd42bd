//! Signing time and credential scope.
//!
//! A signature is bound to the UTC second at which it was requested. The
//! scope names the day of that second and the protocol's fixed region,
//! service and request type; the credential puts the signer's identity in
//! front of the scope.

use vstd::prelude::*;
use vstd::string::{StrSliceExecFns, StringExecFns};

verus! {

/// The first second with a four-digit year: 0000-01-01T00:00:00Z.
pub const SDZ_MIN_SIGNING_SECONDS: i64 = -62_167_219_200;

/// The last second with a four-digit year: 9999-12-31T23:59:59Z.
pub const SDZ_MAX_SIGNING_SECONDS: i64 = 253_402_300_799;

/// An instant of UTC, to the second, in the years 0000 to 9999.
#[derive(Clone, Copy, Debug)]
pub struct SdzUtcInstant {
    unix_seconds: i64,
}

/// The instant `unix_seconds` after 1970-01-01T00:00:00Z, written in UTC as
/// year, month, day, `T`, hour, minute, second, `Z`, without separators.
pub uninterp spec fn utc_basic_timestamp(unix_seconds: i64) -> Seq<char>;

/// Whether a count of seconds since 1970 lies in the years 0000 to 9999.
pub open spec fn in_signing_range(unix_seconds: int) -> bool {
    SDZ_MIN_SIGNING_SECONDS <= unix_seconds <= SDZ_MAX_SIGNING_SECONDS
}

/// `chrono::DateTime::from_timestamp` and `DateTime::format` with the
/// pattern `%Y%m%dT%H%M%SZ`: the text returned is the basic timestamp of the
/// instant. The seconds admitted are those that chrono can represent, so the
/// conversion succeeds.
#[verifier::external_body]
fn utc_timestamp_text(unix_seconds: i64) -> (r: String)
    requires
        in_signing_range(unix_seconds as int),
    ensures
        r@ == utc_basic_timestamp(unix_seconds),
{
    chrono::DateTime::from_timestamp(unix_seconds, 0).unwrap().format("%Y%m%dT%H%M%SZ").to_string()
}

/// `chrono::Utc::now` and `DateTime::timestamp`: the clock's reading, in
/// seconds since 1970. Nothing is known of it in advance.
#[verifier::external_body]
fn clock_unix_seconds() -> (r: i64) {
    chrono::Utc::now().timestamp()
}

impl SdzUtcInstant {
    #[verifier::type_invariant]
    spec fn in_range(self) -> bool {
        in_signing_range(self.unix_seconds as int)
    }

    /// Seconds since 1970-01-01T00:00:00Z.
    pub closed spec fn seconds(self) -> int {
        self.unix_seconds as int
    }

    /// The instant `unix_seconds` after 1970, if its year has four digits.
    pub fn from_unix_seconds(unix_seconds: i64) -> (r: Option<SdzUtcInstant>)
        ensures
            r is Some <==> in_signing_range(unix_seconds as int),
            r matches Some(t) ==> t.seconds() == unix_seconds,
    {
        if SDZ_MIN_SIGNING_SECONDS <= unix_seconds && unix_seconds <= SDZ_MAX_SIGNING_SECONDS {
            Some(SdzUtcInstant { unix_seconds })
        } else {
            None
        }
    }

    /// The present instant, if the clock reads a year of four digits.
    pub fn now() -> (r: Option<SdzUtcInstant>)
        ensures
            r matches Some(t) ==> in_signing_range(t.seconds()),
    {
        SdzUtcInstant::from_unix_seconds(clock_unix_seconds())
    }

    /// Seconds since 1970-01-01T00:00:00Z.
    pub fn unix_seconds(&self) -> (r: i64)
        ensures
            r == self.seconds(),
            in_signing_range(r as int),
    {
        proof {
            use_type_invariant(self);
        }
        self.unix_seconds
    }

    /// The basic timestamp of this instant, such as `20240101T000000Z`.
    pub fn timestamp(&self) -> (r: String)
        ensures
            r@ == utc_basic_timestamp(self.seconds() as i64),
    {
        proof {
            use_type_invariant(self);
        }
        utc_timestamp_text(self.unix_seconds)
    }
}

/// The region, service and request type of every scope, with the slash that
/// parts them from the day.
pub const SDZ_SCOPE_SUFFIX: &'static str = "/auto/storage/goog4_request";

/// The day of a timestamp: its first eight characters.
pub open spec fn datestamp_text(timestamp: Seq<char>) -> Seq<char> {
    if timestamp.len() <= 8 {
        timestamp
    } else {
        timestamp.take(8)
    }
}

/// The scope of a timestamp: its day, then `/auto/storage/goog4_request`.
pub open spec fn scope_text(timestamp: Seq<char>) -> Seq<char> {
    datestamp_text(timestamp) + SDZ_SCOPE_SUFFIX@
}

/// The credential: the signer's identity, a slash, the scope.
pub open spec fn credential_text(signer_identity: Seq<char>, timestamp: Seq<char>) -> Seq<char> {
    signer_identity + seq!['/'] + scope_text(timestamp)
}

/// The day of a timestamp: its first eight characters, or all of it where
/// it has fewer.
pub fn sdz_datestamp(timestamp: &str) -> (r: String)
    ensures
        r@ == datestamp_text(timestamp@),
{
    if timestamp.unicode_len() <= 8 {
        String::from_str(timestamp)
    } else {
        String::from_str(timestamp.substring_char(0, 8))
    }
}

/// The scope under which a signature made at `timestamp` is valid.
pub fn sdz_scope(timestamp: &str) -> (r: String)
    ensures
        r@ == scope_text(timestamp@),
{
    let mut out = sdz_datestamp(timestamp);
    out.append(SDZ_SCOPE_SUFFIX);
    out
}

/// The credential of `signer_identity` for a signature made at `timestamp`.
pub fn sdz_credential(signer_identity: &str, timestamp: &str) -> (r: String)
    ensures
        r@ == credential_text(signer_identity@, timestamp@),
{
    let mut out = String::from_str(signer_identity);
    out.push('/');
    let scope = sdz_scope(timestamp);
    out.append(scope.as_str());
    assert(out@ =~= credential_text(signer_identity@, timestamp@));
    out
}

/// The scope always ends in the protocol's fixed suffix, whatever the time.
pub proof fn lemma_scope_ends_in_suffix(timestamp: Seq<char>)
    ensures
        scope_text(timestamp).len() >= SDZ_SCOPE_SUFFIX@.len(),
        scope_text(timestamp).skip(scope_text(timestamp).len() - SDZ_SCOPE_SUFFIX@.len())
            == SDZ_SCOPE_SUFFIX@,
{
    let s = scope_text(timestamp);
    assert(s.skip(s.len() - SDZ_SCOPE_SUFFIX@.len()) =~= SDZ_SCOPE_SUFFIX@);
}

/// The credential starts with the signer's identity and a slash.
pub proof fn lemma_credential_starts_with_identity(
    signer_identity: Seq<char>,
    timestamp: Seq<char>,
)
    ensures
        credential_text(signer_identity, timestamp).take(signer_identity.len() as int + 1)
            == signer_identity + seq!['/'],
{
    let c = credential_text(signer_identity, timestamp);
    assert(c.take(signer_identity.len() as int + 1) =~= signer_identity + seq!['/']);
}

} // verus!
