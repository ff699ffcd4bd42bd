//! Spots as documents of the document store: what its fields mean, and what
//! its answers mean.
//!
//! The documents themselves are read and written elsewhere. Here their
//! fields come as plain values, absent where the document has none.

use vstd::prelude::*;
use vstd::string::StringExecFns;
use crate::config::{parsed_u32, sdz_parse_u32};
use crate::error::{SdzApiError, SdzApiErrorView};
use crate::models::{
    SdzSpotApprovalStatus, SdzSpotBusinessHours, SdzSpotBusinessScheduleType,
    SdzSpotParkAttributes, SdzSpotTimeRange, SdzStreetAttributes, SdzStreetSection,
    SdzStreetSurfaceCondition, SdzUser,
};
use crate::scope::in_signing_range;
use crate::spots::{SdzMyListEntry, SdzPosition, SdzSpot};
use crate::storage::{is_offset_time, rfc3339_text, SdzOffsetTime, SDZ_JST_OFFSET_SECONDS};
use crate::text::{is_blank, sdz_is_blank, sdz_split, sdz_text_eq, split_on};

verus! {

/// The status that a word names.
pub open spec fn approval_named(value: Seq<char>) -> Option<SdzSpotApprovalStatus> {
    if value == "pending"@ {
        Some(SdzSpotApprovalStatus::Pending)
    } else if value == "approved"@ {
        Some(SdzSpotApprovalStatus::Approved)
    } else if value == "rejected"@ {
        Some(SdzSpotApprovalStatus::Rejected)
    } else {
        None
    }
}

/// The status of a document: the one that its status field names, where it
/// has that field; otherwise approved where its older trust level says
/// `verified`, and none where it does not.
pub open spec fn document_approval(
    approval_status: Option<String>,
    legacy_trust_level: Option<String>,
) -> Option<SdzSpotApprovalStatus> {
    match approval_status {
        Some(value) => approval_named(value@),
        None => match legacy_trust_level {
            Some(level) => if level@ == "verified"@ {
                Some(SdzSpotApprovalStatus::Approved)
            } else {
                None
            },
            None => None,
        },
    }
}

/// Reads the status of a document.
pub fn parse_approval_status(
    approval_status: Option<String>,
    legacy_trust_level: Option<String>,
) -> (r: Option<SdzSpotApprovalStatus>)
    ensures
        r == document_approval(approval_status, legacy_trust_level),
{
    match approval_status {
        Some(value) => {
            if sdz_text_eq(value.as_str(), "pending") {
                Some(SdzSpotApprovalStatus::Pending)
            } else if sdz_text_eq(value.as_str(), "approved") {
                Some(SdzSpotApprovalStatus::Approved)
            } else if sdz_text_eq(value.as_str(), "rejected") {
                Some(SdzSpotApprovalStatus::Rejected)
            } else {
                None
            }
        },
        None => match legacy_trust_level {
            Some(level) => {
                if sdz_text_eq(level.as_str(), "verified") {
                    Some(SdzSpotApprovalStatus::Approved)
                } else {
                    None
                }
            },
            None => None,
        },
    }
}

/// The word for a status.
pub open spec fn approval_text(status: SdzSpotApprovalStatus) -> Seq<char> {
    match status {
        SdzSpotApprovalStatus::Pending => "pending"@,
        SdzSpotApprovalStatus::Approved => "approved"@,
        SdzSpotApprovalStatus::Rejected => "rejected"@,
    }
}

/// The word for a status.
pub fn approval_status_as_str(status: &SdzSpotApprovalStatus) -> (r: &'static str)
    ensures
        r@ == approval_text(*status),
{
    match status {
        SdzSpotApprovalStatus::Pending => "pending",
        SdzSpotApprovalStatus::Approved => "approved",
        SdzSpotApprovalStatus::Rejected => "rejected",
    }
}

/// The schedule that a word names.
pub open spec fn schedule_named(value: Seq<char>) -> Option<SdzSpotBusinessScheduleType> {
    if value == "regular"@ {
        Some(SdzSpotBusinessScheduleType::Regular)
    } else if value == "weekdayOnly"@ {
        Some(SdzSpotBusinessScheduleType::WeekdayOnly)
    } else if value == "weekendOnly"@ {
        Some(SdzSpotBusinessScheduleType::WeekendOnly)
    } else if value == "irregular"@ {
        Some(SdzSpotBusinessScheduleType::Irregular)
    } else if value == "schoolOnly"@ {
        Some(SdzSpotBusinessScheduleType::SchoolOnly)
    } else {
        None
    }
}

/// Reads a schedule from the word that names it.
pub fn parse_schedule_type(value: &str) -> (r: Option<SdzSpotBusinessScheduleType>)
    ensures
        r == schedule_named(value@),
{
    if sdz_text_eq(value, "regular") {
        Some(SdzSpotBusinessScheduleType::Regular)
    } else if sdz_text_eq(value, "weekdayOnly") {
        Some(SdzSpotBusinessScheduleType::WeekdayOnly)
    } else if sdz_text_eq(value, "weekendOnly") {
        Some(SdzSpotBusinessScheduleType::WeekendOnly)
    } else if sdz_text_eq(value, "irregular") {
        Some(SdzSpotBusinessScheduleType::Irregular)
    } else if sdz_text_eq(value, "schoolOnly") {
        Some(SdzSpotBusinessScheduleType::SchoolOnly)
    } else {
        None
    }
}

/// The word for a schedule.
pub open spec fn schedule_text(schedule_type: SdzSpotBusinessScheduleType) -> Seq<char> {
    match schedule_type {
        SdzSpotBusinessScheduleType::Regular => "regular"@,
        SdzSpotBusinessScheduleType::WeekdayOnly => "weekdayOnly"@,
        SdzSpotBusinessScheduleType::WeekendOnly => "weekendOnly"@,
        SdzSpotBusinessScheduleType::Irregular => "irregular"@,
        SdzSpotBusinessScheduleType::SchoolOnly => "schoolOnly"@,
    }
}

/// The word for a schedule.
pub fn schedule_type_as_str(schedule_type: &SdzSpotBusinessScheduleType) -> (r: &'static str)
    ensures
        r@ == schedule_text(*schedule_type),
{
    match schedule_type {
        SdzSpotBusinessScheduleType::Regular => "regular",
        SdzSpotBusinessScheduleType::WeekdayOnly => "weekdayOnly",
        SdzSpotBusinessScheduleType::WeekendOnly => "weekendOnly",
        SdzSpotBusinessScheduleType::Irregular => "irregular",
        SdzSpotBusinessScheduleType::SchoolOnly => "schoolOnly",
    }
}

/// The number of 16 bits that an integer field writes, where there is the
/// field and it writes one.
pub open spec fn integer_of(field: Option<Seq<char>>) -> Option<u16> {
    match field {
        Some(text) => match parsed_u32(text) {
            Some(n) => if n <= u16::MAX {
                Some(n as u16)
            } else {
                None
            },
            None => None,
        },
        None => None,
    }
}

/// Reads a number of 16 bits from an integer field.
pub fn parse_integer(field: Option<&str>) -> (r: Option<u16>)
    ensures
        r == integer_of(
            match field {
                Some(text) => Some(text@),
                None => None,
            },
        ),
{
    match field {
        Some(text) => match sdz_parse_u32(text) {
            Some(n) => {
                if n <= 65535 {
                    Some(n as u16)
                } else {
                    None
                }
            },
            None => None,
        },
        None => None,
    }
}

/// The id of a document: what follows the last slash of its name, or the
/// whole name where it has no slash.
pub open spec fn doc_id_of(name: Seq<char>) -> Seq<char> {
    split_on(name, '/').last()
}

/// Takes the id of a document from its name.
pub fn extract_doc_id(name: &str) -> (r: Option<String>)
    ensures
        r matches Some(id) && id@ == doc_id_of(name@),
{
    let mut pieces = sdz_split(name, '/');
    proof {
        crate::text::lemma_split_is_never_empty(name@, '/');
        assert(crate::text::texts(pieces@).len() == pieces@.len());
        assert(crate::text::texts(pieces@).last() == pieces@.last()@);
    }
    pieces.pop()
}

/// What the answer to a write means: the status says whether the document
/// was written, and why not.
pub open spec fn write_outcome(status: u16) -> Option<SdzApiErrorView> {
    if status == 200 || status == 201 {
        None
    } else if status == 400 {
        Some(SdzApiErrorView::BadRequest("invalid data for Firestore"@))
    } else if status == 401 || status == 403 {
        Some(SdzApiErrorView::Unauthorized)
    } else if status == 404 {
        Some(SdzApiErrorView::NotFound)
    } else {
        Some(SdzApiErrorView::Internal)
    }
}

/// Decides what the status of the answer to a write means.
pub fn map_status(status: u16) -> (r: Result<(), SdzApiError>)
    ensures
        match write_outcome(status) {
            None => r is Ok,
            Some(error) => r matches Err(e) && e@ == error,
        },
{
    if status == 200 || status == 201 {
        Ok(())
    } else if status == 400 {
        Err(SdzApiError::BadRequest(String::from_str("invalid data for Firestore")))
    } else if status == 401 || status == 403 {
        Err(SdzApiError::Unauthorized)
    } else if status == 404 {
        Err(SdzApiError::NotFound)
    } else {
        Err(SdzApiError::Internal)
    }
}

/// What the answer to a read means.
#[derive(Clone, Copy, Debug, PartialEq, Eq, Structural)]
pub enum SdzReadOutcome {
    /// There is a document, and the answer holds it.
    Found,
    /// There is no such document.
    Missing,
    /// The read has failed.
    Failed,
}

/// Decides what the status of the answer to a read means: 200 is a
/// document, 404 is none, everything else a failure.
pub fn sdz_read_outcome(status: u16) -> (r: SdzReadOutcome)
    ensures
        status == 200 ==> r == SdzReadOutcome::Found,
        status == 404 ==> r == SdzReadOutcome::Missing,
        status != 200 && status != 404 ==> r == SdzReadOutcome::Failed,
{
    if status == 200 {
        SdzReadOutcome::Found
    } else if status == 404 {
        SdzReadOutcome::Missing
    } else {
        SdzReadOutcome::Failed
    }
}

/// Decides what the status of the answer to a removal means: the document
/// is gone after 200, and was not there with 404; everything else is a
/// failure.
pub fn sdz_delete_outcome(status: u16) -> (r: Result<(), SdzApiError>)
    ensures
        status == 200 || status == 404 ==> r is Ok,
        status != 200 && status != 404 ==> (r matches Err(e) && e@ == SdzApiErrorView::Internal),
{
    if status == 200 || status == 404 {
        Ok(())
    } else {
        Err(SdzApiError::Internal)
    }
}

/// What stands before the project in the address of a document.
pub const SDZ_DOCUMENTS_PREFIX: &'static str = "https://firestore.googleapis.com/v1/projects/";

/// What stands between the project and the path of a document.
pub const SDZ_DOCUMENTS_ROOT: &'static str = "/databases/(default)/documents";

/// The address of the documents of a project, with what follows.
pub open spec fn documents_url_text(project_id: Seq<char>, rest: Seq<char>) -> Seq<char> {
    SDZ_DOCUMENTS_PREFIX@ + project_id + SDZ_DOCUMENTS_ROOT@ + rest
}

fn documents_url(project_id: &str) -> (r: String)
    ensures
        r@ == documents_url_text(project_id@, Seq::empty()),
{
    let mut out = String::from_str(SDZ_DOCUMENTS_PREFIX);
    out.append(project_id);
    out.append(SDZ_DOCUMENTS_ROOT);
    assert(out@ =~= documents_url_text(project_id@, Seq::empty()));
    out
}

/// The address of the document of a spot.
pub fn sdz_spot_document_url(project_id: &str, spot_id: &str) -> (r: String)
    ensures
        r@ == documents_url_text(project_id@, "/spots/"@ + spot_id@),
{
    let mut out = documents_url(project_id);
    out.append("/spots/");
    out.append(spot_id);
    assert(out@ =~= documents_url_text(project_id@, "/spots/"@ + spot_id@));
    out
}

/// The address of the document of a user.
pub fn sdz_user_document_url(project_id: &str, user_id: &str) -> (r: String)
    ensures
        r@ == documents_url_text(project_id@, "/users/"@ + user_id@),
{
    let mut out = documents_url(project_id);
    out.append("/users/");
    out.append(user_id);
    assert(out@ =~= documents_url_text(project_id@, "/users/"@ + user_id@));
    out
}

/// The address of the list of a user.
pub fn sdz_mylist_url(project_id: &str, user_id: &str) -> (r: String)
    ensures
        r@ == documents_url_text(project_id@, "/users/"@ + user_id@ + "/mylist"@),
{
    let mut out = sdz_user_document_url(project_id, user_id);
    out.append("/mylist");
    assert(out@ =~= documents_url_text(project_id@, "/users/"@ + user_id@ + "/mylist"@));
    out
}

/// The address of one entry of the list of a user.
pub fn sdz_mylist_document_url(project_id: &str, user_id: &str, spot_id: &str) -> (r: String)
    ensures
        r@ == documents_url_text(
            project_id@,
            "/users/"@ + user_id@ + "/mylist/"@ + spot_id@,
        ),
{
    let mut out = sdz_user_document_url(project_id, user_id);
    out.append("/mylist/");
    out.append(spot_id);
    assert(out@ =~= documents_url_text(
        project_id@,
        "/users/"@ + user_id@ + "/mylist/"@ + spot_id@,
    ));
    out
}

/// The address to which queries of a project go.
pub fn sdz_run_query_url(project_id: &str) -> (r: String)
    ensures
        r@ == documents_url_text(project_id@, ":runQuery"@),
{
    let mut out = documents_url(project_id);
    out.append(":runQuery");
    out
}

/// The user that a document holds: one without a display name is called
/// `unknown`.
pub fn sdz_user_from(user_id: &str, display_name: Option<String>, email: Option<String>) -> (r:
    SdzUser)
    ensures
        r.sdz_user_id@ == user_id@,
        match display_name {
            Some(name) => r.sdz_display_name == name,
            None => r.sdz_display_name@ == SDZ_UNKNOWN_NAME@,
        },
        r.sdz_email == email,
{
    SdzUser {
        sdz_user_id: String::from_str(user_id),
        sdz_display_name: match display_name {
            Some(name) => name,
            None => String::from_str(SDZ_UNKNOWN_NAME),
        },
        sdz_email: email,
    }
}

/// A span of a day from its two fields: there is one where both fields
/// write a number.
pub fn sdz_time_range_from(start_minutes: Option<&str>, end_minutes: Option<&str>) -> (r: Option<
    SdzSpotTimeRange,
>)
    ensures
        r == match (
            integer_of(
                match start_minutes {
                    Some(text) => Some(text@),
                    None => None,
                },
            ),
            integer_of(
                match end_minutes {
                    Some(text) => Some(text@),
                    None => None,
                },
            ),
        ) {
            (Some(start), Some(end)) => Some(
                SdzSpotTimeRange { start_minutes: start, end_minutes: end },
            ),
            _ => None,
        },
{
    match parse_integer(start_minutes) {
        Some(start) => match parse_integer(end_minutes) {
            Some(end) => Some(SdzSpotTimeRange { start_minutes: start, end_minutes: end }),
            None => None,
        },
        None => None,
    }
}

/// The fields of business hours as a document holds them. A span is present
/// where the document has its field, and holds the span where the field
/// could be read.
#[derive(Clone, Debug)]
pub struct SdzBusinessHoursFields {
    pub schedule_type: Option<String>,
    pub is_24_hours: Option<bool>,
    pub same_as_weekday: Option<bool>,
    pub weekday: Option<Option<SdzSpotTimeRange>>,
    pub weekend: Option<Option<SdzSpotTimeRange>>,
    pub note: Option<String>,
}

/// A span that is present and could be read.
pub open spec fn read_range(field: Option<Option<SdzSpotTimeRange>>) -> Option<SdzSpotTimeRange> {
    match field {
        Some(range) => range,
        None => None,
    }
}

/// The schedule of a document, where it names one that is known.
pub open spec fn read_schedule(field: Option<String>) -> Option<SdzSpotBusinessScheduleType> {
    match field {
        Some(value) => schedule_named(value@),
        None => None,
    }
}

/// Whether the fields say anything of business hours.
pub open spec fn says_hours(fields: SdzBusinessHoursFields) -> bool {
    fields.is_24_hours is Some || fields.same_as_weekday is Some || fields.weekday is Some
        || fields.weekend is Some || read_schedule(fields.schedule_type) is Some || fields.note
        is Some
}

/// Business hours from their fields: none where the fields say nothing. A
/// place is not open around the clock unless the document says so, and its
/// weekend is like its weekdays unless the document says otherwise.
pub fn sdz_business_hours_from(fields: SdzBusinessHoursFields) -> (r: Option<
    SdzSpotBusinessHours,
>)
    ensures
        !says_hours(fields) ==> r is None,
        says_hours(fields) ==> r == Some(
            SdzSpotBusinessHours {
                schedule_type: read_schedule(fields.schedule_type),
                is_24_hours: match fields.is_24_hours {
                    Some(b) => b,
                    None => false,
                },
                same_as_weekday: match fields.same_as_weekday {
                    Some(b) => b,
                    None => true,
                },
                weekday: read_range(fields.weekday),
                weekend: read_range(fields.weekend),
                note: fields.note,
            },
        ),
{
    let schedule_type = match &fields.schedule_type {
        Some(value) => parse_schedule_type(value.as_str()),
        None => None,
    };
    let has_any = fields.is_24_hours.is_some() || fields.same_as_weekday.is_some()
        || fields.weekday.is_some() || fields.weekend.is_some() || schedule_type.is_some()
        || fields.note.is_some();
    if !has_any {
        return None;
    }
    let is_24_hours = match fields.is_24_hours {
        Some(b) => b,
        None => false,
    };
    let same_as_weekday = match fields.same_as_weekday {
        Some(b) => b,
        None => true,
    };
    let weekday = match fields.weekday {
        Some(range) => range,
        None => None,
    };
    let weekend = match fields.weekend {
        Some(range) => range,
        None => None,
    };
    Some(
        SdzSpotBusinessHours {
            schedule_type,
            is_24_hours,
            same_as_weekday,
            weekday,
            weekend,
            note: fields.note,
        },
    )
}

/// The attributes of a park from their fields: none where no field is
/// there.
pub fn sdz_park_attributes_from(
    official_url: Option<String>,
    business_hours: Option<SdzSpotBusinessHours>,
    access_info: Option<String>,
    phone_number: Option<String>,
) -> (r: Option<SdzSpotParkAttributes>)
    ensures
        r == if official_url is None && business_hours is None && access_info is None
            && phone_number is None {
            None
        } else {
            Some(SdzSpotParkAttributes { official_url, business_hours, access_info, phone_number })
        },
{
    if official_url.is_none() && business_hours.is_none() && access_info.is_none()
        && phone_number.is_none() {
        return None;
    }
    Some(SdzSpotParkAttributes { official_url, business_hours, access_info, phone_number })
}

/// The state of a surface from its fields: none where no field is there.
pub fn sdz_surface_condition_from(roughness: Option<String>, crack: Option<String>) -> (r: Option<
    SdzStreetSurfaceCondition,
>)
    ensures
        r == if roughness is None && crack is None {
            None
        } else {
            Some(SdzStreetSurfaceCondition { roughness, crack })
        },
{
    if roughness.is_none() && crack.is_none() {
        return None;
    }
    Some(SdzStreetSurfaceCondition { roughness, crack })
}

/// A section of a street from its fields: none where it has no type.
pub fn sdz_section_from(
    section_type: Option<String>,
    count: Option<&str>,
    height_cm: Option<&str>,
    width_cm: Option<&str>,
    notes: Option<String>,
) -> (r: Option<SdzStreetSection>)
    ensures
        match section_type {
            None => r is None,
            Some(kind) => r == Some(
                SdzStreetSection {
                    section_type: kind,
                    count: integer_of(
                        match count {
                            Some(text) => Some(text@),
                            None => None,
                        },
                    ),
                    height_cm: integer_of(
                        match height_cm {
                            Some(text) => Some(text@),
                            None => None,
                        },
                    ),
                    width_cm: integer_of(
                        match width_cm {
                            Some(text) => Some(text@),
                            None => None,
                        },
                    ),
                    notes,
                },
            ),
        },
{
    match section_type {
        None => None,
        Some(kind) => Some(
            SdzStreetSection {
                section_type: kind,
                count: parse_integer(count),
                height_cm: parse_integer(height_cm),
                width_cm: parse_integer(width_cm),
                notes,
            },
        ),
    }
}

/// The sections that could be read, in their order.
pub open spec fn read_sections(values: Seq<Option<SdzStreetSection>>) -> Seq<SdzStreetSection> {
    values.filter_map(|value: Option<SdzStreetSection>| value)
}

/// The sections of a street from the values of their field: those that
/// could be read, and none where none could.
pub fn sdz_sections_from(values: Vec<Option<SdzStreetSection>>) -> (r: Option<
    Vec<SdzStreetSection>,
>)
    ensures
        read_sections(values@).len() == 0 ==> r is None,
        read_sections(values@).len() > 0 ==> (r matches Some(sections) && sections@
            == read_sections(values@)),
{
    let ghost pick = |value: Option<SdzStreetSection>| value;
    let mut sections: Vec<SdzStreetSection> = Vec::new();
    proof {
        assert(values@.take(0).filter_map(pick) =~= Seq::<SdzStreetSection>::empty());
    }
    for value in it: values.into_iter()
        invariant
            it.seq() == values@,
            pick == |value: Option<SdzStreetSection>| value,
            sections@ == values@.take(it.index() as int).filter_map(pick),
    {
        let ghost before = sections@;
        proof {
            values@.lemma_filter_map_take_succ(pick, it.index() as int);
        }
        match value {
            Some(section) => {
                sections.push(section);
                proof {
                    assert(before + seq![section] =~= before.push(section));
                }
            },
            None => {
                proof {
                    assert(before + Seq::<SdzStreetSection>::empty() =~= before);
                }
            },
        }
    }
    proof {
        assert(values@.take(values@.len() as int) =~= values@);
        assert(read_sections(values@) == values@.filter_map(pick));
    }
    if sections.len() == 0 {
        None
    } else {
        Some(sections)
    }
}

/// The attributes of a street spot from their fields: none where no field
/// is there.
pub fn sdz_street_attributes_from(
    surface_material: Option<String>,
    surface_condition: Option<SdzStreetSurfaceCondition>,
    sections: Option<Vec<SdzStreetSection>>,
    difficulty: Option<String>,
) -> (r: Option<SdzStreetAttributes>)
    ensures
        r == if surface_material is None && surface_condition is None && sections is None
            && difficulty is None {
            None
        } else {
            Some(SdzStreetAttributes { surface_material, surface_condition, sections, difficulty })
        },
{
    if surface_material.is_none() && surface_condition.is_none() && sections.is_none()
        && difficulty.is_none() {
        return None;
    }
    Some(SdzStreetAttributes { surface_material, surface_condition, sections, difficulty })
}

/// Whether a section is written into a document: one without a type is
/// left out.
pub fn sdz_section_is_written(section: &SdzStreetSection) -> (r: bool)
    ensures
        r == !is_blank(section.section_type@),
{
    !sdz_is_blank(section.section_type.as_str())
}

/// Whether the state of a surface is written into a document: one that says
/// nothing is left out.
pub fn sdz_surface_condition_is_written(condition: &SdzStreetSurfaceCondition) -> (r: bool)
    ensures
        r == (condition.roughness is Some || condition.crack is Some),
{
    condition.roughness.is_some() || condition.crack.is_some()
}

/// Whether the attributes of a park are written into a document: those that
/// say nothing are left out.
pub fn sdz_park_attributes_are_written(attrs: &SdzSpotParkAttributes) -> (r: bool)
    ensures
        r == (attrs.official_url is Some || attrs.business_hours is Some || attrs.access_info
            is Some || attrs.phone_number is Some),
{
    attrs.official_url.is_some() || attrs.business_hours.is_some() || attrs.access_info.is_some()
        || attrs.phone_number.is_some()
}

/// The instant and offset that an RFC 3339 date and time writes, in seconds
/// since 1970 and seconds east of UTC, where the text is one.
pub uninterp spec fn rfc3339_instant(text: Seq<char>) -> Option<(i64, i32)>;

/// `chrono::ParseError`: why a text could not be read as a date and time.
/// Nothing is said of what it holds.
#[verifier::external_type_specification]
#[verifier::external_body]
pub struct ExParseError(chrono::ParseError);

/// `chrono::DateTime::parse_from_rfc3339`, with `DateTime::timestamp` and
/// `FixedOffset::local_minus_utc` of what it returns: the seconds and the
/// offset that the text writes, and an error where it is no RFC 3339 text.
#[verifier::external_body]
fn parse_rfc3339(text: &str) -> (r: Result<(i64, i32), chrono::ParseError>)
    ensures
        match r {
            Ok(pair) => rfc3339_instant(text@) == Some(pair),
            Err(_) => rfc3339_instant(text@) is None,
        },
{
    match chrono::DateTime::parse_from_rfc3339(text) {
        Ok(time) => Ok((time.timestamp(), time.offset().local_minus_utc())),
        Err(e) => Err(e),
    }
}

/// The time that a timestamp field writes, where there is the field, it is
/// an RFC 3339 text and the time can be shown.
pub open spec fn timestamp_of(field: Option<String>) -> Option<(i64, i32)> {
    match field {
        Some(text) => match rfc3339_instant(text@) {
            Some((seconds, offset)) => if is_offset_time(seconds as int, offset as int) {
                Some((seconds, offset))
            } else {
                None
            },
            None => None,
        },
        None => None,
    }
}

/// Reads a time from a timestamp field.
pub fn parse_timestamp(field: &Option<String>) -> (r: Option<SdzOffsetTime>)
    ensures
        match timestamp_of(*field) {
            Some((seconds, offset)) => r matches Some(t) && t.seconds() == seconds && t.offset()
                == offset,
            None => r is None,
        },
{
    match field {
        Some(text) => match parse_rfc3339(text.as_str()) {
            Ok((seconds, offset)) => SdzOffsetTime::new(seconds, offset),
            Err(_) => None,
        },
        None => None,
    }
}

/// The entry of a list that a document holds, read at `now`: the spot is the
/// one that the document names in its field, or after which the document
/// itself is named; the time is the one that it holds, or `now` where it
/// holds none that can be read.
pub fn sdz_mylist_entry_from(
    spot_id: Option<String>,
    name: &str,
    created_at: &Option<String>,
    now: SdzOffsetTime,
) -> (r: SdzMyListEntry)
    ensures
        match spot_id {
            Some(id) => r.sdz_spot_id == id,
            None => r.sdz_spot_id@ == doc_id_of(name@),
        },
        match timestamp_of(*created_at) {
            Some((seconds, offset)) => r.created_at.seconds() == seconds && r.created_at.offset()
                == offset,
            None => r.created_at == now,
        },
{
    let sdz_spot_id = match spot_id {
        Some(id) => id,
        None => match extract_doc_id(name) {
            Some(id) => id,
            None => String::new(),
        },
    };
    let created_at = match parse_timestamp(created_at) {
        Some(t) => t,
        None => now,
    };
    SdzMyListEntry { sdz_spot_id, created_at }
}

/// The present time in Japan as an RFC 3339 text, if the clock reads a year
/// of four digits.
pub fn now_jst_string() -> (r: Option<String>)
    ensures
        r matches Some(text) ==> exists|seconds: i64|
            in_signing_range(seconds as int) && #[trigger] rfc3339_text(
                seconds,
                SDZ_JST_OFFSET_SECONDS,
            ) == text@,
{
    match SdzOffsetTime::now_jst() {
        Some(now) => {
            let text = now.to_rfc3339();
            assert(in_signing_range(now.seconds()) && rfc3339_text(
                now.seconds() as i64,
                SDZ_JST_OFFSET_SECONDS,
            ) == text@);
            Some(text)
        },
        None => None,
    }
}

/// A spot as a document holds it: every field may be missing.
#[derive(Clone, Debug)]
pub struct SdzSpotDocument<L> {
    pub name: Option<String>,
    pub description: Option<String>,
    pub user_id: Option<String>,
    pub tags: Option<Vec<String>>,
    pub images: Option<Vec<String>>,
    pub approval_status: Option<String>,
    pub legacy_trust_level: Option<String>,
    pub park_attributes: Option<SdzSpotParkAttributes>,
    pub street_attributes: Option<SdzStreetAttributes>,
    pub instagram_tag: Option<String>,
    pub location: Option<L>,
    pub created_at: Option<String>,
    pub updated_at: Option<String>,
}

/// The name of a spot whose document has none.
pub const SDZ_UNKNOWN_NAME: &'static str = "unknown";

impl<L: SdzPosition> SdzSpotDocument<L> {
    /// The spot that the document holds, read at `now`.
    ///
    /// A document without a name is a spot called `unknown`; one without an
    /// owner has the empty owner; lists that are missing are empty; a time
    /// that is missing or cannot be read is `now`.
    pub fn into_spot(self, spot_id: String, now: SdzOffsetTime) -> (r: SdzSpot<L>)
        ensures
            r.sdz_spot_id == spot_id,
            match self.name {
                Some(name) => r.name == name,
                None => r.name@ == SDZ_UNKNOWN_NAME@,
            },
            r.description == self.description,
            r.location == self.location,
            match self.tags {
                Some(tags) => r.tags == tags,
                None => r.tags@.len() == 0,
            },
            match self.images {
                Some(images) => r.images == images,
                None => r.images@.len() == 0,
            },
            r.sdz_approval_status == document_approval(
                self.approval_status,
                self.legacy_trust_level,
            ),
            r.sdz_park_attributes == self.park_attributes,
            r.sdz_street_attributes == self.street_attributes,
            r.sdz_instagram_tag == self.instagram_tag,
            match self.user_id {
                Some(user_id) => r.sdz_user_id == user_id,
                None => r.sdz_user_id@.len() == 0,
            },
            match timestamp_of(self.created_at) {
                Some((seconds, offset)) => r.created_at.seconds() == seconds
                    && r.created_at.offset() == offset,
                None => r.created_at == now,
            },
            match timestamp_of(self.updated_at) {
                Some((seconds, offset)) => r.updated_at.seconds() == seconds
                    && r.updated_at.offset() == offset,
                None => r.updated_at == now,
            },
    {
        let created_at = match parse_timestamp(&self.created_at) {
            Some(t) => t,
            None => now,
        };
        let updated_at = match parse_timestamp(&self.updated_at) {
            Some(t) => t,
            None => now,
        };
        SdzSpot {
            sdz_spot_id: spot_id,
            name: match self.name {
                Some(name) => name,
                None => String::from_str(SDZ_UNKNOWN_NAME),
            },
            description: self.description,
            location: self.location,
            tags: match self.tags {
                Some(tags) => tags,
                None => Vec::new(),
            },
            images: match self.images {
                Some(images) => images,
                None => Vec::new(),
            },
            sdz_approval_status: parse_approval_status(
                self.approval_status,
                self.legacy_trust_level,
            ),
            sdz_park_attributes: self.park_attributes,
            sdz_street_attributes: self.street_attributes,
            sdz_instagram_tag: self.instagram_tag,
            sdz_user_id: match self.user_id {
                Some(user_id) => user_id,
                None => String::new(),
            },
            created_at,
            updated_at,
        }
    }
}

/// A status is read back as it was written.
pub proof fn lemma_approval_round_trip(status: SdzSpotApprovalStatus)
    ensures
        approval_named(approval_text(status)) == Some(status),
{
    reveal_strlit("pending");
    reveal_strlit("approved");
    reveal_strlit("rejected");
    assert("approved"@ != "pending"@) by {
        assert("approved"@[0] != "pending"@[0]);
    }
    assert("rejected"@ != "pending"@) by {
        assert("rejected"@[0] != "pending"@[0]);
    }
    assert("rejected"@ != "approved"@) by {
        assert("rejected"@[0] != "approved"@[0]);
    }
}

/// A schedule is read back as it was written.
pub proof fn lemma_schedule_round_trip(schedule_type: SdzSpotBusinessScheduleType)
    ensures
        schedule_named(schedule_text(schedule_type)) == Some(schedule_type),
{
    reveal_strlit("regular");
    reveal_strlit("weekdayOnly");
    reveal_strlit("weekendOnly");
    reveal_strlit("irregular");
    reveal_strlit("schoolOnly");
    assert("weekdayOnly"@ != "regular"@) by {
        assert("weekdayOnly"@[0] != "regular"@[0]);
    }
    assert("weekendOnly"@ != "regular"@) by {
        assert("weekendOnly"@[0] != "regular"@[0]);
    }
    assert("weekendOnly"@ != "weekdayOnly"@) by {
        assert("weekendOnly"@[4] != "weekdayOnly"@[4]);
    }
    assert("irregular"@ != "regular"@) by {
        assert("irregular"@[0] != "regular"@[0]);
    }
    assert("irregular"@ != "weekdayOnly"@) by {
        assert("irregular"@[0] != "weekdayOnly"@[0]);
    }
    assert("irregular"@ != "weekendOnly"@) by {
        assert("irregular"@[0] != "weekendOnly"@[0]);
    }
    assert("schoolOnly"@ != "regular"@) by {
        assert("schoolOnly"@[0] != "regular"@[0]);
    }
    assert("schoolOnly"@ != "weekdayOnly"@) by {
        assert("schoolOnly"@[0] != "weekdayOnly"@[0]);
    }
    assert("schoolOnly"@ != "weekendOnly"@) by {
        assert("schoolOnly"@[0] != "weekendOnly"@[0]);
    }
    assert("schoolOnly"@ != "irregular"@) by {
        assert("schoolOnly"@[0] != "irregular"@[0]);
    }
}

} // verus!
