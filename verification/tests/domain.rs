use upload_signing::auth::SdzAuthUser;
use upload_signing::error::SdzApiError;
use upload_signing::firestore::{
    approval_status_as_str, extract_doc_id, map_status, now_jst_string, parse_approval_status,
    parse_integer, sdz_delete_outcome, sdz_mylist_document_url, sdz_mylist_entry_from,
    sdz_mylist_url, sdz_run_query_url, sdz_spot_document_url, sdz_surface_condition_is_written,
    sdz_park_attributes_are_written, sdz_user_document_url, sdz_user_from,
    parse_schedule_type, parse_timestamp, schedule_type_as_str, sdz_business_hours_from,
    sdz_park_attributes_from, sdz_read_outcome, sdz_section_from, sdz_section_is_written,
    sdz_sections_from, sdz_street_attributes_from, sdz_surface_condition_from,
    sdz_time_range_from, SdzBusinessHoursFields, SdzReadOutcome, SdzSpotDocument,
};
use upload_signing::models::{
    validate_business_hours, validate_spot, validate_time_range, HealthStatus, SdzLocationCheck,
    SdzSpotApprovalStatus, SdzSpotBusinessHours, SdzSpotBusinessScheduleType,
    SdzSpotParkAttributes, SdzSpotTimeRange, SdzSpotValidationError, SdzStreetAttributes,
    SdzStreetSection, SdzUser,
};
use upload_signing::spots::SdzPosition;
use upload_signing::storage::SdzOffsetTime;
use upload_signing::text::{sdz_is_blank, sdz_split, sdz_text_eq};
use upload_signing::use_cases::{
    HealthCheckUseCase, SdzGetCurrentUserUseCase, SdzInMemoryUserRepository, SdzUserRepository,
};

struct NoPosition;

impl SdzPosition for NoPosition {
    fn check(&self) -> SdzLocationCheck {
        SdzLocationCheck::Acceptable
    }
}

fn range(start: u16, end: u16) -> SdzSpotTimeRange {
    SdzSpotTimeRange { start_minutes: start, end_minutes: end }
}

fn hours(schedule: Option<SdzSpotBusinessScheduleType>) -> SdzSpotBusinessHours {
    SdzSpotBusinessHours {
        schedule_type: schedule,
        is_24_hours: false,
        same_as_weekday: true,
        weekday: None,
        weekend: None,
        note: None,
    }
}

fn build_user() -> SdzUser {
    SdzUser {
        sdz_user_id: "user-1".into(),
        sdz_display_name: "test-user".into(),
        sdz_email: Some("test@example.com".into()),
    }
}

const INVALID: Result<(), SdzSpotValidationError> =
    Err(SdzSpotValidationError::InvalidBusinessHours);

#[test]
fn health_check_returns_healthy() {
    let use_case = HealthCheckUseCase::new();
    let result = use_case.execute();
    assert!(matches!(result, HealthStatus::Healthy));
}

#[test]
fn health_status_as_text() {
    assert_eq!(HealthStatus::Healthy.as_str(), "healthy");
    assert_eq!(HealthStatus::Degraded.as_str(), "degraded");
}

#[test]
fn get_current_user_success() {
    let user = build_user();
    let repo = SdzInMemoryUserRepository::new_with_seed(vec![user.clone()]);
    let auth = SdzAuthUser { sdz_user_id: user.sdz_user_id.clone() };
    let use_case = SdzGetCurrentUserUseCase::new();

    let result = use_case.execute(&repo, auth).unwrap();

    assert_eq!(result.sdz_user_id, user.sdz_user_id);
    assert_eq!(result.sdz_display_name, user.sdz_display_name);
    assert_eq!(result.sdz_email, user.sdz_email);
}

#[test]
fn get_current_user_not_found() {
    let repo = SdzInMemoryUserRepository::default();
    let auth = SdzAuthUser { sdz_user_id: "missing-user".into() };
    let use_case = SdzGetCurrentUserUseCase::new();

    let err = use_case.execute(&repo, auth).unwrap_err();
    match err {
        SdzApiError::NotFound => {}
        _ => panic!("expected not found"),
    }
}

#[test]
fn user_store_finds_the_first_user_with_the_id() {
    let mut second = build_user();
    second.sdz_display_name = "second".into();
    let mut other = build_user();
    other.sdz_user_id = "user-2".into();
    other.sdz_email = None;
    let repo = SdzInMemoryUserRepository::new_with_seed(vec![other, build_user(), second]);
    assert_eq!(repo.find_by_id("user-1").unwrap().sdz_display_name, "test-user");
    assert_eq!(repo.find_by_id("user-2").unwrap().sdz_email, None);
    assert!(repo.find_by_id("user-3").is_none());
    assert!(repo.find_by_id("").is_none());
}

#[test]
fn time_range_must_start_before_it_ends_within_the_day() {
    assert_eq!(validate_time_range(&range(0, 1)), Ok(()));
    assert_eq!(validate_time_range(&range(540, 1080)), Ok(()));
    assert_eq!(validate_time_range(&range(0, 1440)), Ok(()));
    assert_eq!(validate_time_range(&range(1439, 1440)), Ok(()));
    assert_eq!(validate_time_range(&range(0, 1441)), INVALID);
    assert_eq!(validate_time_range(&range(10, 10)), INVALID);
    assert_eq!(validate_time_range(&range(11, 10)), INVALID);
    assert_eq!(validate_time_range(&range(0, 0)), INVALID);
    assert_eq!(validate_time_range(&range(65535, 65535)), INVALID);
}

#[test]
fn regular_hours_need_weekdays_and_maybe_a_weekend() {
    for schedule in [None, Some(SdzSpotBusinessScheduleType::Regular)] {
        let mut h = hours(schedule);
        assert_eq!(validate_business_hours(&h), INVALID);
        h.weekday = Some(range(540, 1080));
        assert_eq!(validate_business_hours(&h), Ok(()));
        h.same_as_weekday = false;
        assert_eq!(validate_business_hours(&h), INVALID);
        h.weekend = Some(range(600, 500));
        assert_eq!(validate_business_hours(&h), INVALID);
        h.weekend = Some(range(600, 900));
        assert_eq!(validate_business_hours(&h), Ok(()));
        h.weekday = Some(range(600, 2000));
        assert_eq!(validate_business_hours(&h), INVALID);
        h.is_24_hours = true;
        assert_eq!(validate_business_hours(&h), Ok(()));
    }
}

#[test]
fn hours_for_some_days_need_those_days() {
    let mut h = hours(Some(SdzSpotBusinessScheduleType::WeekdayOnly));
    h.weekend = Some(range(1, 2));
    assert_eq!(validate_business_hours(&h), INVALID);
    h.weekday = Some(range(1, 2));
    assert_eq!(validate_business_hours(&h), Ok(()));

    let mut h = hours(Some(SdzSpotBusinessScheduleType::WeekendOnly));
    h.weekday = Some(range(1, 2));
    assert_eq!(validate_business_hours(&h), INVALID);
    h.weekend = Some(range(2, 1));
    assert_eq!(validate_business_hours(&h), INVALID);
    h.weekend = Some(range(1, 2));
    assert_eq!(validate_business_hours(&h), Ok(()));
    h.weekend = None;
    h.is_24_hours = true;
    assert_eq!(validate_business_hours(&h), Ok(()));
}

#[test]
fn irregular_hours_need_a_note() {
    for schedule in
        [SdzSpotBusinessScheduleType::Irregular, SdzSpotBusinessScheduleType::SchoolOnly]
    {
        let mut h = hours(Some(schedule));
        h.is_24_hours = true;
        h.weekday = Some(range(1, 2));
        assert_eq!(validate_business_hours(&h), INVALID);
        h.note = Some("   ".into());
        assert_eq!(validate_business_hours(&h), INVALID);
        h.note = Some("by arrangement".into());
        assert_eq!(validate_business_hours(&h), Ok(()));
    }
}

#[test]
fn spot_checks_attributes_last() {
    let tags: Vec<String> = vec![];
    let images: Vec<String> = vec![];
    let park = SdzSpotParkAttributes {
        official_url: None,
        business_hours: Some(hours(None)),
        access_info: None,
        phone_number: None,
    };
    let section = |kind: &str| SdzStreetSection {
        section_type: kind.to_string(),
        count: None,
        height_cm: None,
        width_cm: None,
        notes: None,
    };
    let street = SdzStreetAttributes {
        surface_material: None,
        surface_condition: None,
        sections: Some(vec![section("ledge"), section(" ")]),
        difficulty: None,
    };
    assert_eq!(
        validate_spot("n", SdzLocationCheck::Acceptable, &tags, &images, Some(&park), Some(&street)),
        Err(SdzSpotValidationError::InvalidBusinessHours)
    );
    assert_eq!(
        validate_spot("n", SdzLocationCheck::Acceptable, &tags, &images, None, Some(&street)),
        Err(SdzSpotValidationError::InvalidStreetSection)
    );
    let fine = SdzStreetAttributes {
        surface_material: None,
        surface_condition: None,
        sections: Some(vec![section("ledge")]),
        difficulty: None,
    };
    assert_eq!(
        validate_spot("n", SdzLocationCheck::Acceptable, &tags, &images, None, Some(&fine)),
        Ok(())
    );
    assert_eq!(
        validate_spot("n", SdzLocationCheck::LongitudeOutOfRange, &tags, &images, None, None),
        Err(SdzSpotValidationError::InvalidLongitude)
    );
}

#[test]
fn validation_errors_in_words() {
    assert_eq!(SdzSpotValidationError::NameIsRequired.message(), "name is required");
    assert_eq!(
        SdzSpotValidationError::InvalidLatitude.message(),
        "lat must be between -90 and 90"
    );
    assert_eq!(
        SdzSpotValidationError::InvalidLongitude.message(),
        "lng must be between -180 and 180"
    );
    assert_eq!(SdzSpotValidationError::TooManyTags.message(), "tags must be <= 10 items");
    assert_eq!(SdzSpotValidationError::TooManyImages.message(), "images must be <= 3 items");
    assert_eq!(
        SdzSpotValidationError::InvalidBusinessHours.message(),
        "business hours are invalid"
    );
    assert_eq!(
        SdzSpotValidationError::InvalidStreetSection.message(),
        "street section type is required"
    );
}

#[test]
fn text_helpers() {
    assert!(sdz_text_eq("a", "a"));
    assert!(!sdz_text_eq("a", "A"));
    assert!(sdz_text_eq("", ""));
    assert!(sdz_is_blank(""));
    assert!(sdz_is_blank(" \t\n"));
    assert!(!sdz_is_blank(" x "));
    assert_eq!(sdz_split("a,b,,c", ','), vec!["a", "b", "", "c"]);
    assert_eq!(sdz_split("", ','), vec![""]);
    assert_eq!(sdz_split(",", ','), vec!["", ""]);
    assert_eq!(sdz_split("abc", ','), vec!["abc"]);
    assert_eq!(sdz_split("a/b/", '/'), vec!["a", "b", ""]);
}

#[test]
fn approval_status_of_a_document() {
    let s = |v: &str| Some(v.to_string());
    assert_eq!(parse_approval_status(s("pending"), None), Some(SdzSpotApprovalStatus::Pending));
    assert_eq!(parse_approval_status(s("approved"), None), Some(SdzSpotApprovalStatus::Approved));
    assert_eq!(parse_approval_status(s("rejected"), None), Some(SdzSpotApprovalStatus::Rejected));
    assert_eq!(parse_approval_status(s("other"), s("verified")), None);
    assert_eq!(parse_approval_status(s("Approved"), None), None);
    assert_eq!(parse_approval_status(None, s("verified")), Some(SdzSpotApprovalStatus::Approved));
    assert_eq!(parse_approval_status(None, s("unverified")), None);
    assert_eq!(parse_approval_status(None, None), None);
    for status in [
        SdzSpotApprovalStatus::Pending,
        SdzSpotApprovalStatus::Approved,
        SdzSpotApprovalStatus::Rejected,
    ] {
        assert_eq!(
            parse_approval_status(Some(approval_status_as_str(&status).to_string()), None),
            Some(status)
        );
    }
    assert_eq!(approval_status_as_str(&SdzSpotApprovalStatus::Pending), "pending");
}

#[test]
fn schedule_type_of_a_document() {
    for (word, schedule) in [
        ("regular", SdzSpotBusinessScheduleType::Regular),
        ("weekdayOnly", SdzSpotBusinessScheduleType::WeekdayOnly),
        ("weekendOnly", SdzSpotBusinessScheduleType::WeekendOnly),
        ("irregular", SdzSpotBusinessScheduleType::Irregular),
        ("schoolOnly", SdzSpotBusinessScheduleType::SchoolOnly),
    ] {
        assert_eq!(parse_schedule_type(word), Some(schedule));
        assert_eq!(schedule_type_as_str(&schedule), word);
    }
    assert_eq!(parse_schedule_type("weekdayonly"), None);
    assert_eq!(parse_schedule_type(""), None);
}

#[test]
fn integer_fields_hold_sixteen_bits() {
    assert_eq!(parse_integer(Some("0")), Some(0));
    assert_eq!(parse_integer(Some("540")), Some(540));
    assert_eq!(parse_integer(Some("65535")), Some(65535));
    assert_eq!(parse_integer(Some("65536")), None);
    assert_eq!(parse_integer(Some("-1")), None);
    assert_eq!(parse_integer(Some("1.5")), None);
    assert_eq!(parse_integer(Some("")), None);
    assert_eq!(parse_integer(None), None);
    for text in ["12", "+12", "65535", "65536", "99999999999", "x"] {
        assert_eq!(parse_integer(Some(text)), text.parse::<u16>().ok());
    }
}

#[test]
fn document_id_is_the_last_part_of_the_name() {
    assert_eq!(
        extract_doc_id("projects/p/databases/(default)/documents/spots/abc"),
        Some("abc".to_string())
    );
    assert_eq!(extract_doc_id("abc"), Some("abc".to_string()));
    assert_eq!(extract_doc_id("a/"), Some("".to_string()));
    assert_eq!(extract_doc_id(""), Some("".to_string()));
}

#[test]
fn status_of_a_write() {
    assert_eq!(map_status(200), Ok(()));
    assert_eq!(map_status(201), Ok(()));
    assert_eq!(
        map_status(400),
        Err(SdzApiError::BadRequest("invalid data for Firestore".to_string()))
    );
    assert_eq!(map_status(401), Err(SdzApiError::Unauthorized));
    assert_eq!(map_status(403), Err(SdzApiError::Unauthorized));
    assert_eq!(map_status(404), Err(SdzApiError::NotFound));
    assert_eq!(map_status(204), Err(SdzApiError::Internal));
    assert_eq!(map_status(500), Err(SdzApiError::Internal));
    assert_eq!(sdz_read_outcome(200), SdzReadOutcome::Found);
    assert_eq!(sdz_read_outcome(404), SdzReadOutcome::Missing);
    assert_eq!(sdz_read_outcome(201), SdzReadOutcome::Failed);
    assert_eq!(sdz_read_outcome(500), SdzReadOutcome::Failed);
}

#[test]
fn attributes_from_fields() {
    assert_eq!(sdz_time_range_from(Some("540"), Some("1080")), Some(range(540, 1080)));
    assert_eq!(sdz_time_range_from(Some("540"), None), None);
    assert_eq!(sdz_time_range_from(Some("x"), Some("1080")), None);

    let none = SdzBusinessHoursFields {
        schedule_type: Some("sometimes".into()),
        is_24_hours: None,
        same_as_weekday: None,
        weekday: None,
        weekend: None,
        note: None,
    };
    assert!(sdz_business_hours_from(none).is_none());
    let some = SdzBusinessHoursFields {
        schedule_type: Some("weekdayOnly".into()),
        is_24_hours: None,
        same_as_weekday: None,
        weekday: Some(None),
        weekend: Some(Some(range(1, 2))),
        note: None,
    };
    let read = sdz_business_hours_from(some).unwrap();
    assert_eq!(read.schedule_type, Some(SdzSpotBusinessScheduleType::WeekdayOnly));
    assert!(!read.is_24_hours);
    assert!(read.same_as_weekday);
    assert_eq!(read.weekday, None);
    assert_eq!(read.weekend, Some(range(1, 2)));

    assert!(sdz_park_attributes_from(None, None, None, None).is_none());
    let park = sdz_park_attributes_from(None, None, Some("bus 5".into()), None).unwrap();
    assert_eq!(park.access_info.as_deref(), Some("bus 5"));
    assert!(sdz_surface_condition_from(None, None).is_none());
    assert_eq!(
        sdz_surface_condition_from(Some("rough".into()), None).unwrap().roughness.as_deref(),
        Some("rough")
    );
    assert!(sdz_section_from(None, Some("1"), None, None, None).is_none());
    let section = sdz_section_from(Some("ledge".into()), Some("2"), Some("x"), None, None).unwrap();
    assert_eq!(section.section_type, "ledge");
    assert_eq!(section.count, Some(2));
    assert_eq!(section.height_cm, None);
    assert!(sdz_section_is_written(&section));
    assert!(sdz_sections_from(vec![None, None]).is_none());
    assert!(sdz_sections_from(vec![]).is_none());
    let sections = sdz_sections_from(vec![None, Some(section.clone()), None]).unwrap();
    assert_eq!(sections.len(), 1);
    assert!(sdz_street_attributes_from(None, None, None, None).is_none());
    assert!(sdz_street_attributes_from(None, None, Some(sections), None).is_some());
}

#[test]
fn timestamps_of_a_document() {
    let read = parse_timestamp(&Some("2024-01-01T09:15:00+09:00".to_string())).unwrap();
    assert_eq!(read.unix_seconds(), 1_704_068_100);
    assert_eq!(read.offset_seconds(), 32_400);
    let utc = parse_timestamp(&Some("2024-01-01T00:15:00Z".to_string())).unwrap();
    assert_eq!(utc.unix_seconds(), 1_704_068_100);
    assert_eq!(utc.offset_seconds(), 0);
    assert!(parse_timestamp(&Some("yesterday".to_string())).is_none());
    assert!(parse_timestamp(&None).is_none());
}

#[test]
fn spot_of_a_document() {
    let now = SdzOffsetTime::new(1_704_067_200, 32_400).unwrap();
    let empty: SdzSpotDocument<NoPosition> = SdzSpotDocument {
        name: None,
        description: None,
        user_id: None,
        tags: None,
        images: None,
        approval_status: None,
        legacy_trust_level: Some("verified".into()),
        park_attributes: None,
        street_attributes: None,
        instagram_tag: None,
        location: None,
        created_at: None,
        updated_at: Some("garbage".into()),
    };
    let spot = empty.into_spot("id-1".to_string(), now);
    assert_eq!(spot.sdz_spot_id, "id-1");
    assert_eq!(spot.name, "unknown");
    assert_eq!(spot.sdz_user_id, "");
    assert!(spot.tags.is_empty() && spot.images.is_empty());
    assert!(spot.is_approved());
    assert_eq!(spot.created_at.unix_seconds(), 1_704_067_200);
    assert_eq!(spot.updated_at.unix_seconds(), 1_704_067_200);

    let full: SdzSpotDocument<NoPosition> = SdzSpotDocument {
        name: Some("Rail".into()),
        description: Some("d".into()),
        user_id: Some("u1".into()),
        tags: Some(vec!["a".into()]),
        images: Some(vec!["i".into()]),
        approval_status: Some("pending".into()),
        legacy_trust_level: Some("verified".into()),
        park_attributes: None,
        street_attributes: None,
        instagram_tag: Some("#rail".into()),
        location: Some(NoPosition),
        created_at: Some("2023-06-01T12:00:00+09:00".into()),
        updated_at: Some("2023-06-02T12:00:00+09:00".into()),
    };
    let spot = full.into_spot("id-2".to_string(), now);
    assert_eq!(spot.name, "Rail");
    assert_eq!(spot.sdz_user_id, "u1");
    assert_eq!(spot.sdz_approval_status, Some(SdzSpotApprovalStatus::Pending));
    assert!(!spot.is_approved());
    assert_eq!(spot.created_at.to_rfc3339(), "2023-06-01T12:00:00+09:00");
    assert_eq!(spot.updated_at.to_rfc3339(), "2023-06-02T12:00:00+09:00");
    assert!(spot.location.is_some());
}

#[test]
fn the_clock_in_japan() {
    let now = SdzOffsetTime::now_jst().unwrap();
    assert_eq!(now.offset_seconds(), 32_400);
    assert!(now.to_rfc3339().ends_with("+09:00"));
}

#[test]
fn entry_of_a_list_document() {
    let now = SdzOffsetTime::new(1_704_067_200, 32_400).unwrap();
    let named = sdz_mylist_entry_from(
        Some("spot-1".to_string()),
        "projects/p/documents/users/u/mylist/doc-9",
        &Some("2024-01-01T09:15:00+09:00".to_string()),
        now,
    );
    assert_eq!(named.sdz_spot_id, "spot-1");
    assert_eq!(named.created_at.unix_seconds(), 1_704_068_100);
    let unnamed =
        sdz_mylist_entry_from(None, "projects/p/documents/users/u/mylist/doc-9", &None, now);
    assert_eq!(unnamed.sdz_spot_id, "doc-9");
    assert_eq!(unnamed.created_at.unix_seconds(), 1_704_067_200);
}

#[test]
fn the_clock_in_japan_as_text() {
    let text = now_jst_string().unwrap();
    assert!(text.ends_with("+09:00"));
    assert_eq!(text.len(), "2024-01-01T09:15:00+09:00".len());
}

#[test]
fn addresses_of_documents() {
    let root = "https://firestore.googleapis.com/v1/projects/p1/databases/(default)/documents";
    assert_eq!(sdz_spot_document_url("p1", "s1"), format!("{}/spots/s1", root));
    assert_eq!(sdz_user_document_url("p1", "u1"), format!("{}/users/u1", root));
    assert_eq!(sdz_mylist_url("p1", "u1"), format!("{}/users/u1/mylist", root));
    assert_eq!(sdz_mylist_document_url("p1", "u1", "s1"), format!("{}/users/u1/mylist/s1", root));
    assert_eq!(sdz_run_query_url("p1"), format!("{}:runQuery", root));
}

#[test]
fn status_of_a_removal() {
    assert_eq!(sdz_delete_outcome(200), Ok(()));
    assert_eq!(sdz_delete_outcome(404), Ok(()));
    assert_eq!(sdz_delete_outcome(204), Err(SdzApiError::Internal));
    assert_eq!(sdz_delete_outcome(403), Err(SdzApiError::Internal));
    assert_eq!(sdz_delete_outcome(500), Err(SdzApiError::Internal));
}

#[test]
fn user_of_a_document() {
    let named = sdz_user_from("u1", Some("Ann".to_string()), Some("ann@example.com".to_string()));
    assert_eq!(named.sdz_user_id, "u1");
    assert_eq!(named.sdz_display_name, "Ann");
    assert_eq!(named.sdz_email.as_deref(), Some("ann@example.com"));
    let unnamed = sdz_user_from("u2", None, None);
    assert_eq!(unnamed.sdz_display_name, "unknown");
    assert_eq!(unnamed.sdz_email, None);
}

#[test]
fn what_is_written_into_a_document() {
    let empty_park = SdzSpotParkAttributes {
        official_url: None,
        business_hours: None,
        access_info: None,
        phone_number: None,
    };
    assert!(!sdz_park_attributes_are_written(&empty_park));
    let park = SdzSpotParkAttributes { phone_number: Some("0".into()), ..empty_park };
    assert!(sdz_park_attributes_are_written(&park));
    let condition = sdz_surface_condition_from(None, Some("few".into())).unwrap();
    assert!(sdz_surface_condition_is_written(&condition));
    let blank = SdzStreetSection {
        section_type: "  ".into(),
        count: Some(1),
        height_cm: None,
        width_cm: None,
        notes: None,
    };
    assert!(!sdz_section_is_written(&blank));
}
