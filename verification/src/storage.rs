//! What the upload service is asked for and what it answers.

use vstd::prelude::*;
use crate::error::SdzApiError;
use crate::scope::{in_signing_range, SdzUtcInstant, SDZ_MIN_SIGNING_SECONDS};

verus! {

/// The last second that an expiry can fall on: the last signing second and
/// the longest validity after it.
pub const SDZ_MAX_EXPIRY_SECONDS: i64 = 257_697_268_094;

/// The display offset of expiry times: nine hours east of UTC.
pub const SDZ_JST_OFFSET_SECONDS: i32 = 32_400;

/// A request for an upload URL. The object name is derived on this side;
/// the content type comes from the client and has been checked.
#[derive(Clone, Debug)]
pub struct SdzUploadUrlRequest {
    pub sdz_object_name: String,
    pub sdz_content_type: String,
}

/// An instant together with the offset from UTC in which it is shown.
#[derive(Clone, Copy, Debug)]
pub struct SdzOffsetTime {
    unix_seconds: i64,
    offset_seconds: i32,
}

/// The answer to a request for an upload URL.
#[derive(Clone, Debug)]
pub struct SdzUploadUrlResult {
    /// The signed URL to which the object is `PUT`.
    pub sdz_upload_url: String,
    /// The plain URL under which the object is found afterwards.
    pub sdz_object_url: String,
    /// The object's name within the bucket.
    pub sdz_object_name: String,
    /// When the signed URL stops being valid.
    pub sdz_expires_at: SdzOffsetTime,
}

/// Whether seconds and offset name a time that can be shown.
pub open spec fn is_offset_time(unix_seconds: int, offset_seconds: int) -> bool {
    &&& SDZ_MIN_SIGNING_SECONDS <= unix_seconds <= SDZ_MAX_EXPIRY_SECONDS
    &&& -86_400 < offset_seconds < 86_400
}

/// The instant `unix_seconds` after 1970, written as an RFC 3339 date and
/// time in the offset `offset_seconds` east of UTC.
pub uninterp spec fn rfc3339_text(unix_seconds: i64, offset_seconds: i32) -> Seq<char>;

/// `chrono::DateTime::to_rfc3339`, on the instant given by
/// `DateTime::from_timestamp` and moved to the offset given by
/// `FixedOffset::east_opt`: the text returned is the RFC 3339 form of the
/// instant in that offset. Seconds and offset are within what chrono
/// represents, so both conversions succeed.
#[verifier::external_body]
fn render_rfc3339(unix_seconds: i64, offset_seconds: i32) -> (r: String)
    requires
        is_offset_time(unix_seconds as int, offset_seconds as int),
    ensures
        r@ == rfc3339_text(unix_seconds, offset_seconds),
{
    let offset = chrono::FixedOffset::east_opt(offset_seconds).unwrap();
    chrono::DateTime::from_timestamp(unix_seconds, 0).unwrap().with_timezone(&offset).to_rfc3339()
}

impl SdzOffsetTime {
    #[verifier::type_invariant]
    spec fn in_range(self) -> bool {
        is_offset_time(self.unix_seconds as int, self.offset_seconds as int)
    }

    /// Seconds since 1970-01-01T00:00:00Z.
    pub closed spec fn seconds(self) -> int {
        self.unix_seconds as int
    }

    /// Seconds east of UTC.
    pub closed spec fn offset(self) -> int {
        self.offset_seconds as int
    }

    /// The time `unix_seconds` after 1970 shown `offset_seconds` east of
    /// UTC, if both are in range.
    pub fn new(unix_seconds: i64, offset_seconds: i32) -> (r: Option<SdzOffsetTime>)
        ensures
            r is Some <==> is_offset_time(unix_seconds as int, offset_seconds as int),
            r matches Some(t) ==> t.seconds() == unix_seconds && t.offset() == offset_seconds,
    {
        if SDZ_MIN_SIGNING_SECONDS <= unix_seconds && unix_seconds <= SDZ_MAX_EXPIRY_SECONDS
            && -86_400 < offset_seconds && offset_seconds < 86_400 {
            Some(SdzOffsetTime { unix_seconds, offset_seconds })
        } else {
            None
        }
    }

    /// The time `seconds` after `start`, in UTC.
    pub fn after(start: SdzUtcInstant, seconds: u32) -> (r: SdzOffsetTime)
        ensures
            r.seconds() == start.seconds() + seconds,
            r.offset() == 0,
    {
        let base = start.unix_seconds();
        SdzOffsetTime { unix_seconds: base + seconds as i64, offset_seconds: 0 }
    }

    /// The present time, shown nine hours east of UTC, if the clock reads a
    /// year of four digits.
    pub fn now_jst() -> (r: Option<SdzOffsetTime>)
        ensures
            r matches Some(t) ==> (t.offset() == SDZ_JST_OFFSET_SECONDS && in_signing_range(
                t.seconds(),
            )),
    {
        match SdzUtcInstant::now() {
            Some(now) => Some(sdz_to_jst(SdzOffsetTime::after(now, 0))),
            None => None,
        }
    }

    /// Seconds since 1970-01-01T00:00:00Z.
    pub fn unix_seconds(&self) -> (r: i64)
        ensures
            r == self.seconds(),
    {
        self.unix_seconds
    }

    /// Seconds east of UTC.
    pub fn offset_seconds(&self) -> (r: i32)
        ensures
            r == self.offset(),
    {
        self.offset_seconds
    }

    /// The time as an RFC 3339 text, such as `2024-01-01T09:15:00+09:00`.
    pub fn to_rfc3339(&self) -> (r: String)
        ensures
            r@ == rfc3339_text(self.seconds() as i64, self.offset() as i32),
    {
        proof {
            use_type_invariant(self);
        }
        render_rfc3339(self.unix_seconds, self.offset_seconds)
    }
}

/// The same instant, shown nine hours east of UTC.
pub fn sdz_to_jst(time: SdzOffsetTime) -> (r: SdzOffsetTime)
    ensures
        r.seconds() == time.seconds(),
        r.offset() == SDZ_JST_OFFSET_SECONDS,
{
    proof {
        use_type_invariant(time);
    }
    SdzOffsetTime { unix_seconds: time.unix_seconds, offset_seconds: SDZ_JST_OFFSET_SECONDS }
}

/// A store that hands out upload URLs.
pub trait SdzStorageRepository {
    /// What this store may answer to a request. A store that says nothing
    /// of itself may answer anything.
    open spec fn answers(
        &self,
        request: SdzUploadUrlRequest,
        result: Result<SdzUploadUrlResult, SdzApiError>,
    ) -> bool {
        true
    }

    /// Answers a request for an upload URL.
    fn create_upload_url(&self, request: SdzUploadUrlRequest) -> (r: Result<
        SdzUploadUrlResult,
        SdzApiError,
    >)
        ensures
            self.answers(request, r),
    ;
}

/// The store that stands in where none is configured: it fails every
/// request, and attempts nothing.
#[derive(Clone, Copy, Debug, Default)]
pub struct SdzDisabledStorageRepository;

impl SdzStorageRepository for SdzDisabledStorageRepository {
    open spec fn answers(
        &self,
        request: SdzUploadUrlRequest,
        result: Result<SdzUploadUrlResult, SdzApiError>,
    ) -> bool {
        result matches Err(e) && e@ == crate::error::SdzApiErrorView::Internal
    }

    fn create_upload_url(&self, request: SdzUploadUrlRequest) -> (r: Result<
        SdzUploadUrlResult,
        SdzApiError,
    >) {
        Err(SdzApiError::Internal)
    }
}

} // verus!
