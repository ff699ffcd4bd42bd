use std::cell::RefCell;
use std::collections::HashMap;

use upload_signing::auth::SdzAuthUser;
use upload_signing::error::SdzApiError;
use upload_signing::models::SdzSpotApprovalStatus::{Approved, Pending, Rejected};
use upload_signing::models::{
    SdzLocationCheck, SdzSpotApprovalStatus, SdzSpotParkAttributes, SdzSpotValidationError,
    SdzStreetAttributes,
};
use upload_signing::search::{
    SdzListSpotsUseCase, SdzSpotListQuery, SdzSpotSearchFilter, SdzSpotTypeFilter,
};
use upload_signing::spot_use_cases::{
    map_validation_error, resolve_approval_status, CreateSpotInput, SdzCreateSpotUseCase,
    SdzGetSpotUseCase, SdzUpdateSpotUseCase, UpdateSpotInput, SDZ_MAX_IMAGE_SPOTS_PER_USER,
};
use upload_signing::spots::{
    SdzMyListEntry, SdzMyListRepository, SdzPosition, SdzSpot, SdzSpotRepository,
};
use upload_signing::storage::SdzOffsetTime;
use upload_signing::use_cases::{
    sdz_newest_first, SdzAddMyListInput, SdzAddMyListUseCase, SdzListMyListUseCase,
    SdzRemoveMyListUseCase,
};

#[derive(Clone, Debug, PartialEq)]
struct Location {
    lat: f64,
    lng: f64,
}

impl SdzPosition for Location {
    fn check(&self) -> SdzLocationCheck {
        if !(self.lat >= -90.0 && self.lat <= 90.0) {
            SdzLocationCheck::LatitudeOutOfRange
        } else if !(self.lng >= -180.0 && self.lng <= 180.0) {
            SdzLocationCheck::LongitudeOutOfRange
        } else {
            SdzLocationCheck::Acceptable
        }
    }
}

type Spot = SdzSpot<Location>;

#[derive(Default)]
struct InMemorySpots {
    store: RefCell<HashMap<String, Spot>>,
}

impl SdzSpotRepository<Location> for InMemorySpots {
    fn create(&self, spot: Spot) -> Result<Spot, SdzApiError> {
        self.store.borrow_mut().insert(spot.sdz_spot_id.clone(), spot.clone());
        Ok(spot)
    }

    fn find_by_id(&self, spot_id: &str) -> Result<Option<Spot>, SdzApiError> {
        Ok(self.store.borrow().get(spot_id).cloned())
    }

    fn list_recent(&self, limit: usize) -> Result<Vec<Spot>, SdzApiError> {
        let mut list: Vec<Spot> = self.store.borrow().values().cloned().collect();
        list.sort_by(|a, b| b.created_at.unix_seconds().cmp(&a.created_at.unix_seconds()));
        list.truncate(limit);
        Ok(list)
    }

    fn count_image_spots_by_user(&self, user_id: &str) -> Result<usize, SdzApiError> {
        Ok(self
            .store
            .borrow()
            .values()
            .filter(|spot| spot.sdz_user_id == user_id && !spot.images.is_empty())
            .count())
    }
}

struct BrokenSpots;

impl SdzSpotRepository<Location> for BrokenSpots {
    fn create(&self, _spot: Spot) -> Result<Spot, SdzApiError> {
        Err(SdzApiError::Internal)
    }

    fn find_by_id(&self, _spot_id: &str) -> Result<Option<Spot>, SdzApiError> {
        Err(SdzApiError::Unauthorized)
    }

    fn list_recent(&self, _limit: usize) -> Result<Vec<Spot>, SdzApiError> {
        Err(SdzApiError::Internal)
    }

    fn count_image_spots_by_user(&self, _user_id: &str) -> Result<usize, SdzApiError> {
        Err(SdzApiError::Internal)
    }
}

#[derive(Default)]
struct InMemoryMyLists {
    store: RefCell<HashMap<String, Vec<SdzMyListEntry>>>,
    clock: RefCell<i64>,
}

impl SdzMyListRepository for InMemoryMyLists {
    fn list_by_user(&self, user_id: &str) -> Result<Vec<SdzMyListEntry>, SdzApiError> {
        Ok(self.store.borrow().get(user_id).cloned().unwrap_or_default())
    }

    fn add(&self, user_id: &str, spot_id: &str) -> Result<(), SdzApiError> {
        let mut store = self.store.borrow_mut();
        let list = store.entry(user_id.to_string()).or_default();
        if list.iter().any(|item| item.sdz_spot_id == spot_id) {
            return Ok(());
        }
        *self.clock.borrow_mut() += 60;
        list.insert(
            0,
            SdzMyListEntry {
                sdz_spot_id: spot_id.to_string(),
                created_at: at(1_704_067_200 + *self.clock.borrow()),
            },
        );
        Ok(())
    }

    fn remove(&self, user_id: &str, spot_id: &str) -> Result<(), SdzApiError> {
        if let Some(list) = self.store.borrow_mut().get_mut(user_id) {
            list.retain(|item| item.sdz_spot_id != spot_id);
        }
        Ok(())
    }
}

fn at(unix_seconds: i64) -> SdzOffsetTime {
    SdzOffsetTime::new(unix_seconds, 9 * 3600).unwrap()
}

/// Midnight of a day of January 2024, nine hours east of UTC.
fn january(day: i64) -> SdzOffsetTime {
    at(1_704_034_800 + (day - 1) * 86_400)
}

fn auth(id: &str) -> SdzAuthUser {
    SdzAuthUser { sdz_user_id: id.to_string() }
}

fn plain_spot(id: &str, name: &str, user: &str, day: i64) -> Spot {
    SdzSpot {
        sdz_spot_id: id.into(),
        name: name.into(),
        description: None,
        location: None,
        tags: vec![],
        images: vec![],
        sdz_approval_status: None,
        sdz_park_attributes: None,
        sdz_street_attributes: None,
        sdz_instagram_tag: None,
        sdz_user_id: user.into(),
        created_at: january(day),
        updated_at: january(day),
    }
}

fn approved(mut spot: Spot) -> Spot {
    spot.sdz_approval_status = Some(SdzSpotApprovalStatus::Approved);
    spot
}

fn tagged(mut spot: Spot, tags: &[&str]) -> Spot {
    spot.tags = tags.iter().map(|t| t.to_string()).collect();
    spot
}

fn build_input() -> CreateSpotInput<Location> {
    CreateSpotInput {
        name: "test spot".into(),
        description: Some("desc".into()),
        location: Some(Location { lat: 35.0, lng: 139.0 }),
        tags: Some(vec!["park".into()]),
        images: Some(vec![]),
        park_attributes: None,
        street_attributes: None,
        instagram_tag: None,
    }
}

fn build_spot(user_id: &str) -> Spot {
    SdzSpot::new_with_id(
        "spot-1".to_string(),
        "origin".to_string(),
        Some("desc".to_string()),
        Some(Location { lat: 35.0, lng: 139.0 }),
        vec!["park".to_string()],
        vec![],
        None,
        None,
        None,
        user_id.to_string(),
        january(1),
    )
    .expect("valid spot")
}

fn build_update() -> UpdateSpotInput<Location> {
    UpdateSpotInput {
        name: "updated".to_string(),
        description: Some("new desc".to_string()),
        location: Some(Location { lat: 35.1, lng: 139.1 }),
        tags: Some(vec!["street".to_string()]),
        images: Some(vec![]),
        approval_status: None,
        park_attributes: None,
        street_attributes: None,
        instagram_tag: None,
    }
}

fn build_street_attributes() -> SdzStreetAttributes {
    SdzStreetAttributes {
        surface_material: Some("asphalt".to_string()),
        surface_condition: None,
        sections: None,
        difficulty: Some("beginner".to_string()),
    }
}

fn sample_spot(id: &str, user_id: &str) -> Spot {
    SdzSpot::new_with_id(
        id.to_string(),
        "sample".to_string(),
        Some("desc".to_string()),
        Some(Location { lat: 35.0, lng: 139.0 }),
        vec!["park".to_string()],
        vec![],
        None,
        None,
        None,
        user_id.to_string(),
        january(1),
    )
    .expect("valid spot")
}

#[test]
fn create_spot_success() {
    let repo = InMemorySpots::default();
    let use_case = SdzCreateSpotUseCase::new();
    let result = use_case.execute(&repo, auth("user-1"), build_input(), january(5)).unwrap();

    assert_eq!(result.name, "test spot");
    assert_eq!(result.sdz_user_id, "user-1");
    assert!(!result.sdz_spot_id.is_empty());
    assert_eq!(result.sdz_spot_id.len(), 36);
    assert_eq!(result.tags.len(), 1);
    assert!(result.sdz_approval_status.is_none());
    assert_eq!(result.created_at.unix_seconds(), january(5).unix_seconds());
    assert_eq!(result.updated_at.unix_seconds(), january(5).unix_seconds());
    assert!(repo.find_by_id(&result.sdz_spot_id).unwrap().is_some());
}

#[test]
fn create_spot_invalid_lat() {
    let repo = InMemorySpots::default();
    let mut input = build_input();
    input.location = Some(Location { lat: 100.0, lng: 139.0 });
    let use_case = SdzCreateSpotUseCase::new();

    let err = use_case.execute(&repo, auth("user-1"), input, january(5)).unwrap_err();
    match err {
        SdzApiError::BadRequest(msg) => assert!(msg.contains("lat")),
        _ => panic!("expected bad request"),
    }
    assert!(repo.store.borrow().is_empty());
}

#[test]
fn create_spot_invalid_lng_and_nan() {
    let repo = InMemorySpots::default();
    let use_case = SdzCreateSpotUseCase::new();
    let mut input = build_input();
    input.location = Some(Location { lat: 35.0, lng: -181.0 });
    assert_eq!(
        use_case.execute(&repo, auth("user-1"), input, january(5)).unwrap_err(),
        SdzApiError::BadRequest("lng must be between -180 and 180".to_string())
    );
    let mut input = build_input();
    input.location = Some(Location { lat: f64::NAN, lng: 0.0 });
    assert_eq!(
        use_case.execute(&repo, auth("user-1"), input, january(5)).unwrap_err(),
        SdzApiError::BadRequest("lat must be between -90 and 90".to_string())
    );
}

#[test]
fn create_spot_rejects_image_limit() {
    let repo = InMemorySpots::default();
    let use_case = SdzCreateSpotUseCase::new();

    for index in 0..SDZ_MAX_IMAGE_SPOTS_PER_USER {
        let spot = SdzSpot::new_with_id(
            format!("seed-{}", index),
            "seed".into(),
            None,
            None,
            vec![],
            vec!["img".into()],
            None,
            None,
            None,
            "user-1".into(),
            january(1),
        )
        .unwrap();
        repo.create(spot).unwrap();
    }

    let input = CreateSpotInput {
        name: "limit".into(),
        description: None,
        location: None,
        tags: None,
        images: Some(vec!["img".into()]),
        park_attributes: None,
        street_attributes: None,
        instagram_tag: None,
    };
    let err = use_case.execute(&repo, auth("user-1"), input, january(5)).unwrap_err();
    match err {
        SdzApiError::Forbidden(msg) => assert!(msg.contains("image spot limit")),
        _ => panic!("expected forbidden"),
    }
    assert_eq!(repo.store.borrow().len(), 10);
}

#[test]
fn create_spot_without_images_is_not_counted() {
    let repo = InMemorySpots::default();
    let use_case = SdzCreateSpotUseCase::new();
    for index in 0..SDZ_MAX_IMAGE_SPOTS_PER_USER {
        let mut spot = plain_spot(&format!("seed-{}", index), "seed", "user-1", 1);
        spot.images = vec!["img".into()];
        repo.create(spot).unwrap();
    }
    let result = use_case
        .create(&repo, auth("user-1"), build_input(), "fixed-id".to_string(), january(5))
        .unwrap();
    assert_eq!(result.sdz_spot_id, "fixed-id");
    assert_eq!(use_case.check_image_quota(9), Ok(()));
    assert_eq!(
        use_case.check_image_quota(10),
        Err(SdzApiError::Forbidden("image spot limit reached (max 10)".to_string()))
    );
}

#[test]
fn create_spot_rejects_too_many_images() {
    let repo = InMemorySpots::default();
    let use_case = SdzCreateSpotUseCase::new();
    let input = CreateSpotInput {
        name: "too-many".into(),
        description: None,
        location: None,
        tags: None,
        images: Some(vec!["a".into(), "b".into(), "c".into(), "d".into()]),
        park_attributes: None,
        street_attributes: None,
        instagram_tag: None,
    };

    let err = use_case.execute(&repo, auth("user-1"), input, january(5)).unwrap_err();
    match err {
        SdzApiError::BadRequest(msg) => assert!(msg.contains("images must be <=")),
        _ => panic!("expected bad request"),
    }
}

#[test]
fn create_spot_hands_on_the_error_of_the_store() {
    let use_case = SdzCreateSpotUseCase::new();
    assert_eq!(
        use_case.execute(&BrokenSpots, auth("user-1"), build_input(), january(5)).unwrap_err(),
        SdzApiError::Internal
    );
}

#[test]
fn spot_validation_order() {
    let now = january(1);
    let make = |name: &str, location: Option<Location>, tags: usize, images: usize| {
        SdzSpot::new_with_id(
            "id".to_string(),
            name.to_string(),
            None,
            location,
            vec!["t".to_string(); tags],
            vec!["i".to_string(); images],
            None,
            None,
            None,
            "u".to_string(),
            now,
        )
        .map(|_| ())
    };
    let bad = Some(Location { lat: 91.0, lng: 500.0 });
    assert_eq!(make("  ", bad.clone(), 11, 4), Err(SdzSpotValidationError::NameIsRequired));
    assert_eq!(make("n", bad, 11, 4), Err(SdzSpotValidationError::InvalidLatitude));
    assert_eq!(
        make("n", Some(Location { lat: 0.0, lng: 500.0 }), 11, 4),
        Err(SdzSpotValidationError::InvalidLongitude)
    );
    assert_eq!(make("n", None, 11, 4), Err(SdzSpotValidationError::TooManyTags));
    assert_eq!(make("n", None, 10, 4), Err(SdzSpotValidationError::TooManyImages));
    assert_eq!(make("n", None, 10, 3), Ok(()));
    assert_eq!(
        map_validation_error(SdzSpotValidationError::TooManyTags),
        SdzApiError::BadRequest("tags must be <= 10 items".to_string())
    );
}

#[test]
fn get_spot_use_case_get_spot_not_found() {
    let repo = InMemorySpots::default();
    let use_case = SdzGetSpotUseCase::new();
    let err = use_case.execute(&repo, "missing".into(), None).unwrap_err();
    assert!(matches!(err, SdzApiError::NotFound));
}

#[test]
fn get_spot_requires_approval_for_public() {
    let repo = InMemorySpots::default();
    repo.create(plain_spot("spot-1", "A", "user-1", 1)).unwrap();

    let use_case = SdzGetSpotUseCase::new();
    let err = use_case.execute(&repo, "spot-1".into(), None).unwrap_err();
    match err {
        SdzApiError::NotFound => {}
        _ => panic!("expected not found"),
    }
    let err = use_case.execute(&repo, "spot-1".into(), Some("user-2".into())).unwrap_err();
    assert_eq!(err, SdzApiError::NotFound);

    let spot = use_case.execute(&repo, "spot-1".into(), Some("user-1".into())).unwrap();
    assert_eq!(spot.sdz_spot_id, "spot-1");
}

#[test]
fn get_spot_shows_an_approved_spot_to_everyone() {
    let repo = InMemorySpots::default();
    repo.create(approved(plain_spot("spot-1", "A", "user-1", 1))).unwrap();
    let use_case = SdzGetSpotUseCase::new();
    assert_eq!(use_case.execute(&repo, "spot-1".into(), None).unwrap().name, "A");
    assert!(use_case.execute(&repo, "spot-1".into(), Some("user-2".into())).is_ok());
    assert_eq!(
        use_case.execute(&BrokenSpots, "spot-1".into(), None).unwrap_err(),
        SdzApiError::Unauthorized
    );
}

#[test]
fn update_spot_success() {
    let repo = InMemorySpots::default();
    let spot = build_spot("user-1");
    repo.create(spot.clone()).unwrap();
    let mut input = build_update();
    input.instagram_tag = Some("#spot".to_string());
    let use_case = SdzUpdateSpotUseCase::new();
    let result = use_case
        .execute(&repo, auth("user-1"), spot.sdz_spot_id.clone(), input, january(9))
        .unwrap();
    assert_eq!(result.sdz_spot_id, spot.sdz_spot_id);
    assert_eq!(result.name, "updated");
    assert_eq!(result.sdz_user_id, "user-1");
    assert!(result.sdz_approval_status.is_none());
    assert_eq!(result.sdz_instagram_tag.as_deref(), Some("#spot"));
    assert_eq!(result.description.as_deref(), Some("new desc"));
    assert_eq!(result.location, Some(Location { lat: 35.1, lng: 139.1 }));
    assert_eq!(result.tags, vec!["street".to_string()]);
    assert_eq!(result.created_at.unix_seconds(), january(1).unix_seconds());
    assert_eq!(result.updated_at.unix_seconds(), january(9).unix_seconds());
}

#[test]
fn update_spot_keeps_what_is_left_out() {
    let repo = InMemorySpots::default();
    let mut spot = build_spot("user-1");
    spot.sdz_instagram_tag = Some("#old".to_string());
    spot.sdz_park_attributes = Some(SdzSpotParkAttributes {
        official_url: Some("https://park.example".to_string()),
        business_hours: None,
        access_info: None,
        phone_number: None,
    });
    repo.create(spot.clone()).unwrap();
    let input = UpdateSpotInput {
        name: "renamed".to_string(),
        description: None,
        location: None,
        tags: None,
        images: None,
        approval_status: None,
        park_attributes: None,
        street_attributes: None,
        instagram_tag: None,
    };
    let result = SdzUpdateSpotUseCase::new()
        .execute(&repo, auth("user-1"), "spot-1".to_string(), input, january(9))
        .unwrap();
    assert_eq!(result.name, "renamed");
    assert_eq!(result.description.as_deref(), Some("desc"));
    assert_eq!(result.location, Some(Location { lat: 35.0, lng: 139.0 }));
    assert_eq!(result.tags, vec!["park".to_string()]);
    assert_eq!(result.sdz_instagram_tag.as_deref(), Some("#old"));
    assert_eq!(
        result.sdz_park_attributes.unwrap().official_url.as_deref(),
        Some("https://park.example")
    );
}

#[test]
fn update_spot_can_request_approval_when_empty() {
    let repo = InMemorySpots::default();
    let spot = build_spot("user-1");
    repo.create(spot.clone()).unwrap();
    let mut input = build_update();
    input.approval_status = Some(SdzSpotApprovalStatus::Pending);
    let use_case = SdzUpdateSpotUseCase::new();
    let result = use_case
        .execute(&repo, auth("user-1"), spot.sdz_spot_id.clone(), input, january(9))
        .unwrap();
    assert!(matches!(result.sdz_approval_status, Some(SdzSpotApprovalStatus::Pending)));
}

#[test]
fn update_spot_rejects_too_many_images() {
    let repo = InMemorySpots::default();
    let spot = build_spot("user-1");
    repo.create(spot.clone()).unwrap();
    let mut input = build_update();
    input.images = Some(vec!["a".into(), "b".into(), "c".into(), "d".into()]);
    let use_case = SdzUpdateSpotUseCase::new();
    let err = use_case
        .execute(&repo, auth("user-1"), spot.sdz_spot_id.clone(), input, january(9))
        .unwrap_err();
    match err {
        SdzApiError::BadRequest(msg) => assert!(msg.contains("images must be <=")),
        _ => panic!("expected bad request"),
    }
}

#[test]
fn update_spot_persists_street_attributes() {
    let repo = InMemorySpots::default();
    let spot = build_spot("user-1");
    repo.create(spot.clone()).unwrap();
    let mut input = build_update();
    input.street_attributes = Some(build_street_attributes());
    let use_case = SdzUpdateSpotUseCase::new();
    let result = use_case
        .execute(&repo, auth("user-1"), spot.sdz_spot_id.clone(), input, january(9))
        .unwrap();
    let attrs = result.sdz_street_attributes.expect("street attributes should be set");
    assert_eq!(attrs.surface_material.as_deref(), Some("asphalt"));
    let persisted = repo.find_by_id(&spot.sdz_spot_id).unwrap().expect("spot should exist");
    assert_eq!(
        persisted.sdz_street_attributes.and_then(|data| data.surface_material),
        Some("asphalt".to_string())
    );
}

#[test]
fn update_spot_rejects_illegal_approval_status() {
    let repo = InMemorySpots::default();
    let mut spot = build_spot("user-1");
    spot.sdz_approval_status = Some(SdzSpotApprovalStatus::Approved);
    repo.create(spot.clone()).unwrap();
    let mut input = build_update();
    input.approval_status = Some(SdzSpotApprovalStatus::Pending);
    let use_case = SdzUpdateSpotUseCase::new();
    let err = use_case
        .execute(&repo, auth("user-1"), spot.sdz_spot_id.clone(), input, january(9))
        .unwrap_err();
    match err {
        SdzApiError::Forbidden(_) => {}
        _ => panic!("expected forbidden"),
    }
}

#[test]
fn update_spot_forbidden_when_owner_mismatch() {
    let repo = InMemorySpots::default();
    let spot = build_spot("user-1");
    repo.create(spot.clone()).unwrap();
    let use_case = SdzUpdateSpotUseCase::new();
    let err = use_case
        .execute(&repo, auth("user-2"), spot.sdz_spot_id, build_update(), january(9))
        .unwrap_err();
    match err {
        SdzApiError::Forbidden(_) => {}
        _ => panic!("expected forbidden"),
    }
    assert_eq!(err, SdzApiError::Forbidden("spot owner mismatch".to_string()));
}

#[test]
fn update_spot_not_found() {
    let repo = InMemorySpots::default();
    let use_case = SdzUpdateSpotUseCase::new();
    let err = use_case
        .execute(&repo, auth("user-1"), "missing".into(), build_update(), january(9))
        .unwrap_err();
    match err {
        SdzApiError::NotFound => {}
        _ => panic!("expected not found"),
    }
}

#[test]
fn approval_can_only_be_asked_for() {
    let forbidden = Err(SdzApiError::Forbidden("approval status update not allowed".to_string()));
    assert_eq!(resolve_approval_status(None, None), Ok(None));
    assert_eq!(resolve_approval_status(Some(Approved), None), Ok(Some(Approved)));
    assert_eq!(resolve_approval_status(None, Some(Pending)), Ok(Some(Pending)));
    assert_eq!(resolve_approval_status(Some(Rejected), Some(Pending)), Ok(Some(Pending)));
    assert_eq!(resolve_approval_status(Some(Pending), Some(Pending)), forbidden);
    assert_eq!(resolve_approval_status(Some(Approved), Some(Pending)), forbidden);
    assert_eq!(resolve_approval_status(None, Some(Approved)), forbidden);
    assert_eq!(resolve_approval_status(Some(Pending), Some(Approved)), forbidden);
    assert_eq!(resolve_approval_status(None, Some(Rejected)), forbidden);
}

#[test]
fn list_spots_returns_empty() {
    let repo = InMemorySpots::default();
    let use_case = SdzListSpotsUseCase::new();
    let list = use_case.execute(&repo, 10, None, SdzSpotSearchFilter::default()).unwrap();
    assert!(list.is_empty());
}

#[test]
fn list_spots_orders_recent() {
    let repo = InMemorySpots::default();
    repo.create(approved(plain_spot("spot-1", "A", "user", 1))).unwrap();

    let use_case = SdzListSpotsUseCase::new();
    let list = use_case.execute(&repo, 10, None, SdzSpotSearchFilter::default()).unwrap();
    assert_eq!(list.len(), 1);
    assert_eq!(list[0].sdz_spot_id, "spot-1");
}

#[test]
fn list_spots_includes_owner_unapproved() {
    let repo = InMemorySpots::default();
    repo.create(plain_spot("spot-owner", "Owner", "user-1", 2)).unwrap();
    repo.create(plain_spot("spot-other", "Other", "user-2", 3)).unwrap();

    let use_case = SdzListSpotsUseCase::new();
    let list = use_case
        .execute(&repo, 10, Some("user-1".into()), SdzSpotSearchFilter::default())
        .unwrap();
    assert_eq!(list.len(), 1);
    assert_eq!(list[0].sdz_spot_id, "spot-owner");
}

#[test]
fn list_spots_filters_by_query() {
    let repo = InMemorySpots::default();
    let mut first = tagged(approved(plain_spot("spot-1", "Osaka Park", "user", 2)), &["パーク"]);
    first.description = Some("Nice ledge".into());
    repo.create(first).unwrap();
    repo.create(tagged(approved(plain_spot("spot-2", "Tokyo Street", "user", 1)), &["ストリート"]))
        .unwrap();

    let use_case = SdzListSpotsUseCase::new();
    let list = use_case
        .execute(
            &repo,
            10,
            None,
            SdzSpotSearchFilter { query: Some("ledge".into()), spot_type: None, tags: vec![] },
        )
        .unwrap();
    assert_eq!(list.len(), 1);
    assert_eq!(list[0].sdz_spot_id, "spot-1");

    let by_name = use_case
        .execute(
            &repo,
            10,
            None,
            SdzSpotSearchFilter { query: Some("  TOKYO ".into()), spot_type: None, tags: vec![] },
        )
        .unwrap();
    assert_eq!(by_name.len(), 1);
    assert_eq!(by_name[0].sdz_spot_id, "spot-2");
}

#[test]
fn list_spots_filters_by_type_and_tags() {
    let repo = InMemorySpots::default();
    let mut park = tagged(approved(plain_spot("spot-park", "Park", "user", 1)), &["パーク", "夜"]);
    park.sdz_park_attributes = Some(SdzSpotParkAttributes {
        official_url: None,
        business_hours: None,
        access_info: None,
        phone_number: None,
    });
    repo.create(park).unwrap();
    let mut street =
        tagged(approved(plain_spot("spot-street", "Street", "user", 2)), &["ストリート", "夜"]);
    street.sdz_street_attributes = Some(SdzStreetAttributes {
        surface_material: None,
        surface_condition: None,
        sections: None,
        difficulty: None,
    });
    repo.create(street).unwrap();

    let use_case = SdzListSpotsUseCase::new();
    let list = use_case
        .execute(
            &repo,
            10,
            None,
            SdzSpotSearchFilter {
                query: None,
                spot_type: Some(SdzSpotTypeFilter::Street),
                tags: vec!["夜".into()],
            },
        )
        .unwrap();
    assert_eq!(list.len(), 1);
    assert_eq!(list[0].sdz_spot_id, "spot-street");
}

#[test]
fn list_spots_filters_by_tags_or() {
    let repo = InMemorySpots::default();
    repo.create(tagged(approved(plain_spot("spot-night", "Night", "user", 1)), &["夜", "パーク"]))
        .unwrap();
    repo.create(tagged(
        approved(plain_spot("spot-morning", "Morning", "user", 2)),
        &["朝", "ストリート"],
    ))
    .unwrap();
    repo.create(tagged(approved(plain_spot("spot-none", "None", "user", 3)), &["雨"])).unwrap();

    let use_case = SdzListSpotsUseCase::new();
    let list = use_case
        .execute(
            &repo,
            10,
            None,
            SdzSpotSearchFilter {
                query: None,
                spot_type: None,
                tags: vec!["夜".into(), "朝".into()],
            },
        )
        .unwrap();
    let ids = list.iter().map(|spot| spot.sdz_spot_id.as_str()).collect::<Vec<_>>();
    assert_eq!(list.len(), 2);
    assert!(ids.contains(&"spot-night"));
    assert!(ids.contains(&"spot-morning"));
    assert_eq!(ids, vec!["spot-morning", "spot-night"]);
}

#[test]
fn list_spots_is_cut_to_the_limit() {
    let repo = InMemorySpots::default();
    for i in 0..150 {
        repo.create(approved(plain_spot(&format!("s{}", i), "spot", "user", 1))).unwrap();
    }
    let use_case = SdzListSpotsUseCase::new();
    assert_eq!(use_case.execute(&repo, 3, None, SdzSpotSearchFilter::default()).unwrap().len(), 3);
    assert_eq!(
        use_case.execute(&repo, 1000, None, SdzSpotSearchFilter::default()).unwrap().len(),
        100
    );
    assert_eq!(use_case.execute(&repo, 0, None, SdzSpotSearchFilter::default()).unwrap().len(), 0);
    assert_eq!(
        use_case.execute(&BrokenSpots, 3, None, SdzSpotSearchFilter::default()).unwrap_err(),
        SdzApiError::Internal
    );
}

#[test]
fn fetch_limit_is_wider_with_a_filter() {
    let use_case = SdzListSpotsUseCase::new();
    let none = SdzSpotSearchFilter::default();
    let some = SdzSpotSearchFilter { query: None, spot_type: None, tags: vec!["a".into()] };
    let blank = SdzSpotSearchFilter { query: Some("  ".into()), spot_type: None, tags: vec![] };
    assert!(!none.is_active());
    assert!(some.is_active());
    assert!(!blank.is_active());
    assert!(SdzSpotSearchFilter {
        query: None,
        spot_type: Some(SdzSpotTypeFilter::Park),
        tags: vec![]
    }
    .is_active());
    assert_eq!(use_case.capped(10), 10);
    assert_eq!(use_case.capped(100), 100);
    assert_eq!(use_case.capped(101), 100);
    assert_eq!(use_case.capped(usize::MAX), 100);
    assert_eq!(use_case.fetch_limit(10, &none), 10);
    assert_eq!(use_case.fetch_limit(10, &some), 40);
    assert_eq!(use_case.fetch_limit(50, &some), 200);
    assert_eq!(use_case.fetch_limit(51, &some), 200);
    assert_eq!(use_case.fetch_limit(1000, &some), 200);
    assert_eq!(use_case.fetch_limit(1000, &none), 100);
    assert_eq!(use_case.fetch_limit(10, &blank), 10);
}

#[test]
fn filter_matches_kind_by_attributes_or_tag() {
    let park_filter =
        SdzSpotSearchFilter { query: None, spot_type: Some(SdzSpotTypeFilter::Park), tags: vec![] };
    let street_filter = SdzSpotSearchFilter {
        query: None,
        spot_type: Some(SdzSpotTypeFilter::Street),
        tags: vec![],
    };
    let bare = plain_spot("a", "A", "u", 1);
    assert!(!park_filter.matches(&bare));
    assert!(!street_filter.matches(&bare));
    for tag in ["パーク", "スケートパーク", "スケートボードパーク"] {
        let spot = tagged(plain_spot("a", "A", "u", 1), &["x", tag]);
        assert!(park_filter.matches(&spot));
        assert!(!street_filter.matches(&spot));
    }
    let street = tagged(plain_spot("a", "A", "u", 1), &["ストリート"]);
    assert!(street_filter.matches(&street));
    assert!(!park_filter.matches(&street));
    let lowered = SdzSpotSearchFilter { query: Some("RAIL".into()), spot_type: None, tags: vec![] };
    assert!(lowered.matches(&tagged(plain_spot("a", "A", "u", 1), &["Handrail"])));
    assert!(!lowered.matches(&tagged(plain_spot("a", "A", "u", 1), &["ledge"])));
    assert_eq!(lowered.query_text(), Some("rail".to_string()));
    let kept = lowered.apply(vec![
        tagged(plain_spot("1", "A", "u", 1), &["Handrail"]),
        plain_spot("2", "B", "u", 1),
        plain_spot("3", "Rail yard", "u", 1),
    ]);
    let ids: Vec<&str> = kept.iter().map(|s| s.sdz_spot_id.as_str()).collect();
    assert_eq!(ids, vec!["1", "3"]);
}

#[test]
fn list_query_becomes_a_filter() {
    let query = SdzSpotListQuery {
        q: Some("  ledge ".into()),
        spot_type: Some(" park ".into()),
        tags: Some("a, b,,  ,c".into()),
    };
    let filter = query.to_filter().unwrap();
    assert_eq!(filter.query.as_deref(), Some("ledge"));
    assert_eq!(filter.spot_type, Some(SdzSpotTypeFilter::Park));
    assert_eq!(filter.tags, vec!["a".to_string(), "b".to_string(), "c".to_string()]);

    for none in [None, Some("".to_string()), Some("  ".to_string()), Some("all".to_string())] {
        let filter =
            SdzSpotListQuery { q: Some("   ".into()), spot_type: none, tags: None }.to_filter().unwrap();
        assert_eq!(filter.spot_type, None);
        assert_eq!(filter.query, None);
        assert!(filter.tags.is_empty());
        assert!(!filter.is_active());
    }
    assert_eq!(
        SdzSpotListQuery { q: None, spot_type: Some("street".into()), tags: None }
            .to_filter()
            .unwrap()
            .spot_type,
        Some(SdzSpotTypeFilter::Street)
    );
    assert_eq!(
        SdzSpotListQuery { q: None, spot_type: Some("plaza".into()), tags: None }
            .to_filter()
            .unwrap_err(),
        SdzApiError::BadRequest("type must be park or street".to_string())
    );
    assert_eq!(SdzSpotTypeFilter::parse("skatepark"), Some(SdzSpotTypeFilter::Park));
    assert_eq!(SdzSpotTypeFilter::parse("Park"), None);
}

#[test]
fn add_mylist_requires_existing_spot() {
    let mylist_repo = InMemoryMyLists::default();
    let spot_repo = InMemorySpots::default();
    let use_case = SdzAddMyListUseCase::new();
    let input = SdzAddMyListInput { sdz_spot_id: "missing".to_string() };

    let err = use_case.execute(&mylist_repo, &spot_repo, auth("user-1"), input).unwrap_err();
    assert!(matches!(err, SdzApiError::NotFound));
    assert!(mylist_repo.list_by_user("user-1").unwrap().is_empty());
}

#[test]
fn add_mylist_success() {
    let mylist_repo = InMemoryMyLists::default();
    let spot_repo = InMemorySpots::default();
    spot_repo.create(sample_spot("spot-1", "user-1")).unwrap();

    let use_case = SdzAddMyListUseCase::new();
    let input = SdzAddMyListInput { sdz_spot_id: "spot-1".to_string() };
    use_case.execute(&mylist_repo, &spot_repo, auth("user-1"), input).unwrap();

    let list = mylist_repo.list_by_user("user-1").unwrap();
    assert_eq!(list.len(), 1);
    assert_eq!(list[0].sdz_spot_id, "spot-1");
}

#[test]
fn list_mylist_returns_spots() {
    let mylist_repo = InMemoryMyLists::default();
    let spot_repo = InMemorySpots::default();
    spot_repo.create(sample_spot("spot-1", "user-1")).unwrap();
    spot_repo.create(sample_spot("spot-2", "user-1")).unwrap();

    mylist_repo.add("user-1", "spot-1").unwrap();
    mylist_repo.add("user-1", "spot-2").unwrap();

    let use_case = SdzListMyListUseCase::new();
    let list = use_case.execute(&mylist_repo, &spot_repo, auth("user-1")).unwrap();

    assert_eq!(list.len(), 2);
    let ids: Vec<_> = list.into_iter().map(|spot| spot.sdz_spot_id).collect();
    assert!(ids.contains(&"spot-1".to_string()));
    assert!(ids.contains(&"spot-2".to_string()));
    assert_eq!(ids, vec!["spot-2".to_string(), "spot-1".to_string()]);
}

#[test]
fn list_mylist_passes_over_spots_that_are_gone() {
    let mylist_repo = InMemoryMyLists::default();
    let spot_repo = InMemorySpots::default();
    spot_repo.create(sample_spot("spot-1", "user-1")).unwrap();
    mylist_repo.add("user-1", "spot-1").unwrap();
    mylist_repo.add("user-1", "gone").unwrap();
    let list =
        SdzListMyListUseCase::new().execute(&mylist_repo, &spot_repo, auth("user-1")).unwrap();
    assert_eq!(list.len(), 1);
    assert_eq!(list[0].sdz_spot_id, "spot-1");
    assert_eq!(
        SdzListMyListUseCase::new()
            .execute(&mylist_repo, &BrokenSpots, auth("user-1"))
            .unwrap_err(),
        SdzApiError::Unauthorized
    );
}

#[test]
fn entries_are_ordered_newest_first() {
    let entry = |id: &str, t: i64| SdzMyListEntry { sdz_spot_id: id.to_string(), created_at: at(t) };
    let ordered = sdz_newest_first(vec![
        entry("a", 100),
        entry("b", 300),
        entry("c", 200),
        entry("d", 300),
        entry("e", 100),
    ]);
    let ids: Vec<&str> = ordered.iter().map(|e| e.sdz_spot_id.as_str()).collect();
    assert_eq!(ids, vec!["b", "d", "c", "a", "e"]);
    assert!(sdz_newest_first(vec![]).is_empty());
}

#[test]
fn remove_mylist_clears_entry() {
    let mylist_repo = InMemoryMyLists::default();
    mylist_repo.add("user-1", "spot-1").unwrap();

    let use_case = SdzRemoveMyListUseCase::new();
    use_case.execute(&mylist_repo, auth("user-1"), "spot-1".to_string()).unwrap();

    let list = mylist_repo.list_by_user("user-1").unwrap();
    assert!(list.is_empty());
}
