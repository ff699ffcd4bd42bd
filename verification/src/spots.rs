//! Spots and the stores that keep them.
//!
//! A spot's position is carried along and never looked into here: its type
//! is left open, and all that is asked of it is a check of its coordinates.

use vstd::prelude::*;
use crate::error::SdzApiError;
use crate::models::{
    spot_problem, validate_spot, SdzLocationCheck, SdzSpotApprovalStatus, SdzSpotParkAttributes,
    SdzSpotValidationError, SdzStreetAttributes,
};
use crate::storage::SdzOffsetTime;

verus! {

/// A position whose coordinates can be checked.
pub trait SdzPosition: Sized {
    /// What a check of this position may find. A position that says nothing
    /// of itself may be found in any state.
    open spec fn check_gives(&self, found: SdzLocationCheck) -> bool {
        true
    }

    /// Checks the coordinates.
    fn check(&self) -> (r: SdzLocationCheck)
        ensures
            self.check_gives(r),
    ;
}

/// What a check of a spot's position may find: where there is no position,
/// nothing is wrong with it.
pub open spec fn position_check_gives<L: SdzPosition>(
    location: Option<L>,
    found: SdzLocationCheck,
) -> bool {
    match location {
        Some(position) => position.check_gives(found),
        None => found == SdzLocationCheck::Acceptable,
    }
}

/// Checks the position of a spot, where it has one.
pub fn sdz_check_position<L: SdzPosition>(location: &Option<L>) -> (r: SdzLocationCheck)
    ensures
        position_check_gives(*location, r),
{
    match location {
        Some(position) => position.check(),
        None => SdzLocationCheck::Acceptable,
    }
}

/// A place to skate, with a position of type `L`.
#[derive(Clone, Debug)]
pub struct SdzSpot<L> {
    pub sdz_spot_id: String,
    pub name: String,
    pub description: Option<String>,
    pub location: Option<L>,
    pub tags: Vec<String>,
    pub images: Vec<String>,
    pub sdz_approval_status: Option<SdzSpotApprovalStatus>,
    pub sdz_park_attributes: Option<SdzSpotParkAttributes>,
    pub sdz_street_attributes: Option<SdzStreetAttributes>,
    pub sdz_instagram_tag: Option<String>,
    pub sdz_user_id: String,
    pub created_at: SdzOffsetTime,
    pub updated_at: SdzOffsetTime,
}

/// A spot on a user's list, with the time at which it was put there.
#[derive(Clone, Debug)]
pub struct SdzMyListEntry {
    pub sdz_spot_id: String,
    pub created_at: SdzOffsetTime,
}

impl<L: SdzPosition> SdzSpot<L> {
    /// A new spot, made at `now`. Its approval has not been asked for.
    ///
    /// The spot is made where nothing is wrong with it; otherwise the first
    /// thing that is wrong is returned.
    pub fn new_with_id(
        sdz_spot_id: String,
        name: String,
        description: Option<String>,
        location: Option<L>,
        tags: Vec<String>,
        images: Vec<String>,
        park_attributes: Option<SdzSpotParkAttributes>,
        street_attributes: Option<SdzStreetAttributes>,
        instagram_tag: Option<String>,
        sdz_user_id: String,
        now: SdzOffsetTime,
    ) -> (r: Result<SdzSpot<L>, SdzSpotValidationError>)
        ensures
            exists|found: SdzLocationCheck| #[trigger]
                position_check_gives(location, found) && match spot_problem(
                    name@,
                    found,
                    tags@.len(),
                    images@.len(),
                    park_attributes,
                    street_attributes,
                ) {
                Some(problem) => r matches Err(e) && e == problem,
                None => r matches Ok(spot) && spot == (SdzSpot {
                    sdz_spot_id,
                    name,
                    description,
                    location,
                    tags,
                    images,
                    sdz_approval_status: None,
                    sdz_park_attributes: park_attributes,
                    sdz_street_attributes: street_attributes,
                    sdz_instagram_tag: instagram_tag,
                    sdz_user_id,
                    created_at: now,
                    updated_at: now,
                }),
            },
    {
        let location_check = sdz_check_position(&location);
        match validate_spot(
            name.as_str(),
            location_check,
            tags.as_slice(),
            images.as_slice(),
            park_attributes.as_ref(),
            street_attributes.as_ref(),
        ) {
            Err(problem) => Err(problem),
            Ok(()) => Ok(
                SdzSpot {
                    sdz_spot_id,
                    name,
                    description,
                    location,
                    tags,
                    images,
                    sdz_approval_status: None,
                    sdz_park_attributes: park_attributes,
                    sdz_street_attributes: street_attributes,
                    sdz_instagram_tag: instagram_tag,
                    sdz_user_id,
                    created_at: now,
                    updated_at: now,
                },
            ),
        }
    }

    /// Whether the spot has been approved.
    pub open spec fn approved(self) -> bool {
        self.sdz_approval_status == Some(SdzSpotApprovalStatus::Approved)
    }

    /// Whether the spot has been approved.
    pub fn is_approved(&self) -> (r: bool)
        ensures
            r == self.approved(),
    {
        match self.sdz_approval_status {
            Some(SdzSpotApprovalStatus::Approved) => true,
            _ => false,
        }
    }

    /// A spot that takes the place of an earlier one at `now`: id, owner and
    /// time of creation are those of the earlier one, everything else is as
    /// given.
    ///
    /// The spot is made where nothing is wrong with it; otherwise the first
    /// thing that is wrong is returned.
    pub fn revised(
        sdz_spot_id: String,
        sdz_user_id: String,
        created_at: SdzOffsetTime,
        name: String,
        description: Option<String>,
        location: Option<L>,
        tags: Vec<String>,
        images: Vec<String>,
        approval_status: Option<SdzSpotApprovalStatus>,
        park_attributes: Option<SdzSpotParkAttributes>,
        street_attributes: Option<SdzStreetAttributes>,
        instagram_tag: Option<String>,
        now: SdzOffsetTime,
    ) -> (r: Result<SdzSpot<L>, SdzSpotValidationError>)
        ensures
            exists|found: SdzLocationCheck| #[trigger]
                position_check_gives(location, found) && match spot_problem(
                    name@,
                    found,
                    tags@.len(),
                    images@.len(),
                    park_attributes,
                    street_attributes,
                ) {
                Some(problem) => r matches Err(e) && e == problem,
                None => r matches Ok(spot) && spot == (SdzSpot {
                    sdz_spot_id,
                    name,
                    description,
                    location,
                    tags,
                    images,
                    sdz_approval_status: approval_status,
                    sdz_park_attributes: park_attributes,
                    sdz_street_attributes: street_attributes,
                    sdz_instagram_tag: instagram_tag,
                    sdz_user_id,
                    created_at,
                    updated_at: now,
                }),
            },
    {
        let location_check = sdz_check_position(&location);
        match validate_spot(
            name.as_str(),
            location_check,
            tags.as_slice(),
            images.as_slice(),
            park_attributes.as_ref(),
            street_attributes.as_ref(),
        ) {
            Err(problem) => Err(problem),
            Ok(()) => Ok(
                SdzSpot {
                    sdz_spot_id,
                    name,
                    description,
                    location,
                    tags,
                    images,
                    sdz_approval_status: approval_status,
                    sdz_park_attributes: park_attributes,
                    sdz_street_attributes: street_attributes,
                    sdz_instagram_tag: instagram_tag,
                    sdz_user_id,
                    created_at,
                    updated_at: now,
                },
            ),
        }
    }

    /// The spot after an update at `now`: id, owner and time of creation
    /// stay, everything else is as given.
    ///
    /// The updated spot is made where nothing is wrong with it; otherwise
    /// the first thing that is wrong is returned.
    pub fn update(
        &self,
        name: String,
        description: Option<String>,
        location: Option<L>,
        tags: Vec<String>,
        images: Vec<String>,
        approval_status: Option<SdzSpotApprovalStatus>,
        park_attributes: Option<SdzSpotParkAttributes>,
        street_attributes: Option<SdzStreetAttributes>,
        instagram_tag: Option<String>,
        now: SdzOffsetTime,
    ) -> (r: Result<SdzSpot<L>, SdzSpotValidationError>)
        ensures
            exists|found: SdzLocationCheck| #[trigger]
                position_check_gives(location, found) && match spot_problem(
                    name@,
                    found,
                    tags@.len(),
                    images@.len(),
                    park_attributes,
                    street_attributes,
                ) {
                Some(problem) => r matches Err(e) && e == problem,
                None => r matches Ok(spot) && spot == (SdzSpot {
                    sdz_spot_id: self.sdz_spot_id,
                    name,
                    description,
                    location,
                    tags,
                    images,
                    sdz_approval_status: approval_status,
                    sdz_park_attributes: park_attributes,
                    sdz_street_attributes: street_attributes,
                    sdz_instagram_tag: instagram_tag,
                    sdz_user_id: self.sdz_user_id,
                    created_at: self.created_at,
                    updated_at: now,
                }),
            },
    {
        SdzSpot::revised(
            self.sdz_spot_id.clone(),
            self.sdz_user_id.clone(),
            self.created_at,
            name,
            description,
            location,
            tags,
            images,
            approval_status,
            park_attributes,
            street_attributes,
            instagram_tag,
            now,
        )
    }
}

/// A store of spots.
pub trait SdzSpotRepository<L> {
    /// What this store may answer when a spot is put into it. A store that
    /// says nothing of itself may answer anything.
    open spec fn stores(&self, spot: SdzSpot<L>, result: Result<SdzSpot<L>, SdzApiError>) -> bool {
        true
    }

    /// What this store may answer when asked for a spot.
    open spec fn finds(
        &self,
        spot_id: Seq<char>,
        result: Result<Option<SdzSpot<L>>, SdzApiError>,
    ) -> bool {
        true
    }

    /// What this store may answer when asked for its latest spots.
    open spec fn lists(&self, limit: usize, result: Result<Vec<SdzSpot<L>>, SdzApiError>) -> bool {
        true
    }

    /// What this store may answer when asked how many spots with images a
    /// user has.
    open spec fn counts(&self, user_id: Seq<char>, result: Result<usize, SdzApiError>) -> bool {
        true
    }

    /// Puts a spot into the store, in place of the one with the same id.
    fn create(&self, spot: SdzSpot<L>) -> (r: Result<SdzSpot<L>, SdzApiError>)
        ensures
            self.stores(spot, r),
    ;

    /// Looks a spot up by id.
    fn find_by_id(&self, spot_id: &str) -> (r: Result<Option<SdzSpot<L>>, SdzApiError>)
        ensures
            self.finds(spot_id@, r),
    ;

    /// The latest spots, newest first, `limit` at most.
    fn list_recent(&self, limit: usize) -> (r: Result<Vec<SdzSpot<L>>, SdzApiError>)
        ensures
            self.lists(limit, r),
    ;

    /// How many spots with images a user has.
    fn count_image_spots_by_user(&self, user_id: &str) -> (r: Result<usize, SdzApiError>)
        ensures
            self.counts(user_id@, r),
    ;
}

/// A store of users' lists.
pub trait SdzMyListRepository {
    /// What this store may answer when asked for a user's list.
    open spec fn lists(
        &self,
        user_id: Seq<char>,
        result: Result<Vec<SdzMyListEntry>, SdzApiError>,
    ) -> bool {
        true
    }

    /// What this store may answer when a spot is put on a user's list.
    open spec fn adds(
        &self,
        user_id: Seq<char>,
        spot_id: Seq<char>,
        result: Result<(), SdzApiError>,
    ) -> bool {
        true
    }

    /// What this store may answer when a spot is taken off a user's list.
    open spec fn removes(
        &self,
        user_id: Seq<char>,
        spot_id: Seq<char>,
        result: Result<(), SdzApiError>,
    ) -> bool {
        true
    }

    /// A user's list.
    fn list_by_user(&self, user_id: &str) -> (r: Result<Vec<SdzMyListEntry>, SdzApiError>)
        ensures
            self.lists(user_id@, r),
    ;

    /// Puts a spot on a user's list.
    fn add(&self, user_id: &str, spot_id: &str) -> (r: Result<(), SdzApiError>)
        ensures
            self.adds(user_id@, spot_id@, r),
    ;

    /// Takes a spot off a user's list.
    fn remove(&self, user_id: &str, spot_id: &str) -> (r: Result<(), SdzApiError>)
        ensures
            self.removes(user_id@, spot_id@, r),
    ;
}

} // verus!
