use upload_signing::scope::{
    sdz_credential, sdz_datestamp, sdz_scope, SdzUtcInstant, SDZ_MAX_SIGNING_SECONDS,
    SDZ_MIN_SIGNING_SECONDS,
};
use upload_signing::storage::{sdz_to_jst, SdzOffsetTime, SDZ_JST_OFFSET_SECONDS};

#[test]
fn timestamp_is_utc_without_separators() {
    let now = SdzUtcInstant::from_unix_seconds(1_704_067_200).unwrap();
    assert_eq!(now.unix_seconds(), 1_704_067_200);
    assert_eq!(now.timestamp(), "20240101T000000Z");
    let later = SdzUtcInstant::from_unix_seconds(1_718_371_845).unwrap();
    assert_eq!(later.timestamp(), "20240614T133045Z");
    assert_eq!(SdzUtcInstant::from_unix_seconds(0).unwrap().timestamp(), "19700101T000000Z");
}

#[test]
fn signing_range_is_the_four_digit_years() {
    let first = SdzUtcInstant::from_unix_seconds(SDZ_MIN_SIGNING_SECONDS).unwrap();
    assert_eq!(first.timestamp(), "00000101T000000Z");
    let last = SdzUtcInstant::from_unix_seconds(SDZ_MAX_SIGNING_SECONDS).unwrap();
    assert_eq!(last.timestamp(), "99991231T235959Z");
    assert!(SdzUtcInstant::from_unix_seconds(SDZ_MIN_SIGNING_SECONDS - 1).is_none());
    assert!(SdzUtcInstant::from_unix_seconds(SDZ_MAX_SIGNING_SECONDS + 1).is_none());
    assert!(SdzUtcInstant::from_unix_seconds(i64::MAX).is_none());
    assert!(SdzUtcInstant::from_unix_seconds(i64::MIN).is_none());
}

#[test]
fn the_clock_reads_a_time_after_2020() {
    let now = SdzUtcInstant::now().unwrap();
    assert!(now.unix_seconds() > 1_577_836_800);
    assert_eq!(now.timestamp().len(), 16);
}

#[test]
fn datestamp_is_the_first_eight_characters() {
    assert_eq!(sdz_datestamp("20240101T000000Z"), "20240101");
    assert_eq!(sdz_datestamp("20240101"), "20240101");
    assert_eq!(sdz_datestamp("2024"), "2024");
    assert_eq!(sdz_datestamp(""), "");
}

#[test]
fn scope_has_the_fixed_region_service_and_request_type() {
    assert_eq!(sdz_scope("20240101T000000Z"), "20240101/auto/storage/goog4_request");
}

#[test]
fn credential_is_identity_and_scope() {
    assert_eq!(
        sdz_credential("signer@example.iam.gserviceaccount.com", "20240101T000000Z"),
        "signer@example.iam.gserviceaccount.com/20240101/auto/storage/goog4_request"
    );
}

#[test]
fn offset_time_keeps_the_instant_and_shows_the_offset() {
    let now = SdzUtcInstant::from_unix_seconds(1_704_067_200).unwrap();
    let utc = SdzOffsetTime::after(now, 900);
    assert_eq!(utc.unix_seconds(), 1_704_068_100);
    assert_eq!(utc.offset_seconds(), 0);
    assert_eq!(utc.to_rfc3339(), "2024-01-01T00:15:00+00:00");
    let jst = sdz_to_jst(utc);
    assert_eq!(jst.unix_seconds(), 1_704_068_100);
    assert_eq!(jst.offset_seconds(), SDZ_JST_OFFSET_SECONDS);
    assert_eq!(jst.offset_seconds(), 9 * 3600);
    assert_eq!(jst.to_rfc3339(), "2024-01-01T09:15:00+09:00");
}

#[test]
fn offset_time_has_a_range() {
    assert!(SdzOffsetTime::new(0, 0).is_some());
    assert!(SdzOffsetTime::new(0, 86_399).is_some());
    assert!(SdzOffsetTime::new(0, 86_400).is_none());
    assert!(SdzOffsetTime::new(0, -86_400).is_none());
    assert!(SdzOffsetTime::new(SDZ_MIN_SIGNING_SECONDS - 1, 0).is_none());
    assert!(SdzOffsetTime::new(257_697_268_094, 0).is_some());
    assert!(SdzOffsetTime::new(257_697_268_095, 0).is_none());
    let t = SdzOffsetTime::new(1_704_067_200, -18_000).unwrap();
    assert_eq!(t.to_rfc3339(), "2023-12-31T19:00:00-05:00");
}

#[test]
fn the_longest_validity_after_the_last_second_can_still_be_shown() {
    let last = SdzUtcInstant::from_unix_seconds(SDZ_MAX_SIGNING_SECONDS).unwrap();
    let expiry = sdz_to_jst(SdzOffsetTime::after(last, u32::MAX));
    assert_eq!(expiry.unix_seconds(), 257_697_268_094);
    assert!(expiry.to_rfc3339().ends_with("+09:00"));
}
