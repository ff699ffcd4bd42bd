//! The domain: users, spots' attributes and the rules that they must meet.

use vstd::prelude::*;
use vstd::string::StringExecFns;
use crate::text::{is_blank, sdz_is_blank};

verus! {

/// How the service is doing.
#[derive(Clone, Copy, Debug, PartialEq, Eq, Structural)]
pub enum HealthStatus {
    Healthy,
    Degraded,
}

impl HealthStatus {
    /// The status as text.
    pub open spec fn text(self) -> Seq<char> {
        match self {
            HealthStatus::Healthy => "healthy"@,
            HealthStatus::Degraded => "degraded"@,
        }
    }

    /// The status as text.
    pub fn as_str(&self) -> (r: &'static str)
        ensures
            r@ == self.text(),
    {
        match self {
            HealthStatus::Healthy => "healthy",
            HealthStatus::Degraded => "degraded",
        }
    }
}

/// A user.
#[derive(Clone, Debug)]
pub struct SdzUser {
    pub sdz_user_id: String,
    pub sdz_display_name: String,
    pub sdz_email: Option<String>,
}

/// A span of a day, in minutes after midnight.
#[derive(Clone, Copy, Debug, PartialEq, Eq, Structural)]
pub struct SdzSpotTimeRange {
    pub start_minutes: u16,
    pub end_minutes: u16,
}

/// On which days a place is open.
#[derive(Clone, Copy, Debug, PartialEq, Eq, Structural)]
pub enum SdzSpotBusinessScheduleType {
    Regular,
    WeekdayOnly,
    WeekendOnly,
    Irregular,
    SchoolOnly,
}

/// When a place is open.
#[derive(Clone, Debug)]
pub struct SdzSpotBusinessHours {
    pub schedule_type: Option<SdzSpotBusinessScheduleType>,
    pub is_24_hours: bool,
    pub same_as_weekday: bool,
    pub weekday: Option<SdzSpotTimeRange>,
    pub weekend: Option<SdzSpotTimeRange>,
    pub note: Option<String>,
}

/// What is known of a park.
#[derive(Clone, Debug)]
pub struct SdzSpotParkAttributes {
    pub official_url: Option<String>,
    pub business_hours: Option<SdzSpotBusinessHours>,
    pub access_info: Option<String>,
    pub phone_number: Option<String>,
}

/// The state of a street's surface.
#[derive(Clone, Debug)]
pub struct SdzStreetSurfaceCondition {
    pub roughness: Option<String>,
    pub crack: Option<String>,
}

/// One feature of a street spot.
#[derive(Clone, Debug)]
pub struct SdzStreetSection {
    pub section_type: String,
    pub count: Option<u16>,
    pub height_cm: Option<u16>,
    pub width_cm: Option<u16>,
    pub notes: Option<String>,
}

/// What is known of a street spot.
#[derive(Clone, Debug)]
pub struct SdzStreetAttributes {
    pub surface_material: Option<String>,
    pub surface_condition: Option<SdzStreetSurfaceCondition>,
    pub sections: Option<Vec<SdzStreetSection>>,
    pub difficulty: Option<String>,
}

/// How far the approval of a spot has come.
#[derive(Clone, Copy, Debug, PartialEq, Eq, Structural)]
pub enum SdzSpotApprovalStatus {
    Pending,
    Approved,
    Rejected,
}

/// What can be wrong with a spot.
#[derive(Clone, Copy, Debug, PartialEq, Eq, Structural)]
pub enum SdzSpotValidationError {
    NameIsRequired,
    InvalidLatitude,
    InvalidLongitude,
    TooManyTags,
    TooManyImages,
    InvalidBusinessHours,
    InvalidStreetSection,
}

impl SdzSpotValidationError {
    /// The error in words.
    pub open spec fn text(self) -> Seq<char> {
        match self {
            SdzSpotValidationError::NameIsRequired => "name is required"@,
            SdzSpotValidationError::InvalidLatitude => "lat must be between -90 and 90"@,
            SdzSpotValidationError::InvalidLongitude => "lng must be between -180 and 180"@,
            SdzSpotValidationError::TooManyTags => "tags must be <= 10 items"@,
            SdzSpotValidationError::TooManyImages => "images must be <= 3 items"@,
            SdzSpotValidationError::InvalidBusinessHours => "business hours are invalid"@,
            SdzSpotValidationError::InvalidStreetSection => "street section type is required"@,
        }
    }

    /// The error in words.
    pub fn message(&self) -> (r: String)
        ensures
            r@ == self.text(),
    {
        match self {
            SdzSpotValidationError::NameIsRequired => String::from_str("name is required"),
            SdzSpotValidationError::InvalidLatitude => String::from_str(
                "lat must be between -90 and 90",
            ),
            SdzSpotValidationError::InvalidLongitude => String::from_str(
                "lng must be between -180 and 180",
            ),
            SdzSpotValidationError::TooManyTags => String::from_str("tags must be <= 10 items"),
            SdzSpotValidationError::TooManyImages => String::from_str("images must be <= 3 items"),
            SdzSpotValidationError::InvalidBusinessHours => String::from_str(
                "business hours are invalid",
            ),
            SdzSpotValidationError::InvalidStreetSection => String::from_str(
                "street section type is required",
            ),
        }
    }
}

/// How many tags a spot may have.
pub const SDZ_MAX_TAGS_PER_SPOT: usize = 10;

/// How many images a spot may have.
pub const SDZ_MAX_IMAGES_PER_SPOT: usize = 3;

/// The minutes of a day.
pub const SDZ_MINUTES_PER_DAY: u16 = 1440;

/// A span is valid where it starts before it ends and ends within the day.
pub open spec fn time_range_is_valid(range: SdzSpotTimeRange) -> bool {
    range.start_minutes < range.end_minutes && range.end_minutes <= SDZ_MINUTES_PER_DAY
}

/// Checks a span of a day.
pub fn validate_time_range(range: &SdzSpotTimeRange) -> (r: Result<(), SdzSpotValidationError>)
    ensures
        r is Ok <==> time_range_is_valid(*range),
        r matches Err(e) ==> e == SdzSpotValidationError::InvalidBusinessHours,
{
    if range.start_minutes >= range.end_minutes {
        return Err(SdzSpotValidationError::InvalidBusinessHours);
    }
    if range.end_minutes > SDZ_MINUTES_PER_DAY {
        return Err(SdzSpotValidationError::InvalidBusinessHours);
    }
    Ok(())
}

/// A span that is present and valid.
pub open spec fn has_valid_range(range: Option<SdzSpotTimeRange>) -> bool {
    range matches Some(r) && time_range_is_valid(r)
}

/// Business hours are valid where they say enough for their schedule:
///
/// - a regular schedule is open around the clock, or has valid weekday
///   hours and, unless the weekend is like the weekdays, valid weekend hours;
/// - a schedule for weekdays only, or for weekends only, is open around the
///   clock or has valid hours for its days;
/// - an irregular schedule, or one that follows a school, has a note that
///   is not blank.
///
/// Hours without a schedule count as regular.
pub open spec fn business_hours_are_valid(hours: SdzSpotBusinessHours) -> bool {
    match hours.schedule_type {
        None | Some(SdzSpotBusinessScheduleType::Regular) => hours.is_24_hours || (has_valid_range(
            hours.weekday,
        ) && (hours.same_as_weekday || has_valid_range(hours.weekend))),
        Some(SdzSpotBusinessScheduleType::WeekdayOnly) => hours.is_24_hours || has_valid_range(
            hours.weekday,
        ),
        Some(SdzSpotBusinessScheduleType::WeekendOnly) => hours.is_24_hours || has_valid_range(
            hours.weekend,
        ),
        Some(SdzSpotBusinessScheduleType::Irregular) | Some(
            SdzSpotBusinessScheduleType::SchoolOnly,
        ) => hours.note matches Some(note) && !is_blank(note@),
    }
}

fn check_range(range: &Option<SdzSpotTimeRange>) -> (r: bool)
    ensures
        r == has_valid_range(*range),
{
    match range {
        Some(r) => validate_time_range(r).is_ok(),
        None => false,
    }
}

/// Checks business hours.
pub fn validate_business_hours(hours: &SdzSpotBusinessHours) -> (r: Result<
    (),
    SdzSpotValidationError,
>)
    ensures
        r is Ok <==> business_hours_are_valid(*hours),
        r matches Err(e) ==> e == SdzSpotValidationError::InvalidBusinessHours,
{
    let schedule_type = match hours.schedule_type {
        Some(t) => t,
        None => SdzSpotBusinessScheduleType::Regular,
    };
    let valid = match schedule_type {
        SdzSpotBusinessScheduleType::Regular => {
            hours.is_24_hours || (check_range(&hours.weekday) && (hours.same_as_weekday
                || check_range(&hours.weekend)))
        },
        SdzSpotBusinessScheduleType::WeekdayOnly => hours.is_24_hours || check_range(
            &hours.weekday,
        ),
        SdzSpotBusinessScheduleType::WeekendOnly => hours.is_24_hours || check_range(
            &hours.weekend,
        ),
        SdzSpotBusinessScheduleType::Irregular | SdzSpotBusinessScheduleType::SchoolOnly => {
            match &hours.note {
                Some(note) => !sdz_is_blank(note.as_str()),
                None => false,
            }
        },
    };
    if valid {
        Ok(())
    } else {
        Err(SdzSpotValidationError::InvalidBusinessHours)
    }
}

/// What a check of a position's coordinates has found.
#[derive(Clone, Copy, Debug, PartialEq, Eq, Structural)]
pub enum SdzLocationCheck {
    /// There is no position, or its coordinates are in range.
    Acceptable,
    /// The latitude is not between -90 and 90.
    LatitudeOutOfRange,
    /// The longitude is not between -180 and 180.
    LongitudeOutOfRange,
}

/// Whether a section of a street has a type.
pub open spec fn sections_have_types(sections: Seq<SdzStreetSection>) -> bool {
    forall|i: int| 0 <= i < sections.len() ==> !is_blank((#[trigger] sections[i]).section_type@)
}

/// The first thing that is wrong with a spot, if anything is. The checks
/// come in this order: name, latitude, longitude, number of tags, number of
/// images, business hours of a park, sections of a street.
pub open spec fn spot_problem(
    name: Seq<char>,
    location: SdzLocationCheck,
    tags: nat,
    images: nat,
    park_attributes: Option<SdzSpotParkAttributes>,
    street_attributes: Option<SdzStreetAttributes>,
) -> Option<SdzSpotValidationError> {
    if is_blank(name) {
        Some(SdzSpotValidationError::NameIsRequired)
    } else if location == SdzLocationCheck::LatitudeOutOfRange {
        Some(SdzSpotValidationError::InvalidLatitude)
    } else if location == SdzLocationCheck::LongitudeOutOfRange {
        Some(SdzSpotValidationError::InvalidLongitude)
    } else if tags > SDZ_MAX_TAGS_PER_SPOT {
        Some(SdzSpotValidationError::TooManyTags)
    } else if images > SDZ_MAX_IMAGES_PER_SPOT {
        Some(SdzSpotValidationError::TooManyImages)
    } else if park_attributes matches Some(park) && park.business_hours matches Some(hours)
        && !business_hours_are_valid(hours) {
        Some(SdzSpotValidationError::InvalidBusinessHours)
    } else if street_attributes matches Some(street) && street.sections matches Some(sections)
        && !sections_have_types(sections@) {
        Some(SdzSpotValidationError::InvalidStreetSection)
    } else {
        None
    }
}

fn check_sections(sections: &Vec<SdzStreetSection>) -> (r: bool)
    ensures
        r == sections_have_types(sections@),
{
    let mut i: usize = 0;
    while i < sections.len()
        invariant
            i <= sections.len(),
            forall|j: int| 0 <= j < i ==> !is_blank((#[trigger] sections@[j]).section_type@),
        decreases sections.len() - i,
    {
        if sdz_is_blank(sections[i].section_type.as_str()) {
            return false;
        }
        i += 1;
    }
    true
}

/// Checks a spot: its name, what was found of its position, its tags and
/// images, and its attributes.
pub fn validate_spot(
    name: &str,
    location: SdzLocationCheck,
    tags: &[String],
    images: &[String],
    park_attributes: Option<&SdzSpotParkAttributes>,
    street_attributes: Option<&SdzStreetAttributes>,
) -> (r: Result<(), SdzSpotValidationError>)
    ensures
        match spot_problem(
            name@,
            location,
            tags@.len(),
            images@.len(),
            match park_attributes {
                Some(p) => Some(*p),
                None => None,
            },
            match street_attributes {
                Some(s) => Some(*s),
                None => None,
            },
        ) {
            Some(problem) => r == Err::<(), SdzSpotValidationError>(problem),
            None => r is Ok,
        },
{
    if sdz_is_blank(name) {
        return Err(SdzSpotValidationError::NameIsRequired);
    }
    match location {
        SdzLocationCheck::LatitudeOutOfRange => {
            return Err(SdzSpotValidationError::InvalidLatitude);
        },
        SdzLocationCheck::LongitudeOutOfRange => {
            return Err(SdzSpotValidationError::InvalidLongitude);
        },
        SdzLocationCheck::Acceptable => {},
    }
    if tags.len() > SDZ_MAX_TAGS_PER_SPOT {
        return Err(SdzSpotValidationError::TooManyTags);
    }
    if images.len() > SDZ_MAX_IMAGES_PER_SPOT {
        return Err(SdzSpotValidationError::TooManyImages);
    }
    if let Some(attrs) = park_attributes {
        if let Some(hours) = &attrs.business_hours {
            if validate_business_hours(hours).is_err() {
                return Err(SdzSpotValidationError::InvalidBusinessHours);
            }
        }
    }
    if let Some(attrs) = street_attributes {
        if let Some(sections) = &attrs.sections {
            if !check_sections(sections) {
                return Err(SdzSpotValidationError::InvalidStreetSection);
            }
        }
    }
    Ok(())
}

/// A place that is open around the clock needs no hours, under any schedule
/// that goes by hours.
pub proof fn lemma_open_around_the_clock_is_valid(hours: SdzSpotBusinessHours)
    requires
        hours.is_24_hours,
        !(hours.schedule_type matches Some(t) && (t == SdzSpotBusinessScheduleType::Irregular || t
            == SdzSpotBusinessScheduleType::SchoolOnly)),
    ensures
        business_hours_are_valid(hours),
{
}

/// A valid span lies within the day and is not empty.
pub proof fn lemma_valid_range_is_within_day(range: SdzSpotTimeRange)
    requires
        time_range_is_valid(range),
    ensures
        0 <= range.start_minutes < range.end_minutes <= 24 * 60,
{
}

} // verus!
