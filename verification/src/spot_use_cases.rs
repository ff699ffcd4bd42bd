//! Showing, creating and updating spots.
//!
//! Each use case asks a store of spots and decides on what it answers. An
//! error of the store is handed on as it is.

use vstd::prelude::*;
use vstd::string::StringExecFns;
use crate::auth::SdzAuthUser;
use crate::error::{SdzApiError, SdzApiErrorView};
use crate::ids::{fresh_unique_id, is_unique_id_text};
use crate::models::{
    spot_problem, SdzLocationCheck, SdzSpotApprovalStatus, SdzSpotParkAttributes,
    SdzSpotValidationError, SdzStreetAttributes,
};
use crate::spots::{position_check_gives, SdzPosition, SdzSpot, SdzSpotRepository};
use crate::storage::SdzOffsetTime;
use crate::text::sdz_text_eq;

verus! {

/// A viewer, as plain text, where there is one.
pub open spec fn viewer_text(viewer_user_id: Option<String>) -> Option<Seq<char>> {
    match viewer_user_id {
        Some(v) => Some(v@),
        None => None,
    }
}

/// A spot can be seen by everyone once it is approved, and by its owner
/// before.
pub open spec fn spot_is_visible(approved: bool, owner_id: Seq<char>, viewer: Option<Seq<char>>)
    -> bool {
    approved || viewer == Some(owner_id)
}

/// Whether a viewer may see a spot. There is no viewer where the request
/// came without a caller.
pub fn sdz_may_view(approved: bool, owner_id: &str, viewer_user_id: &Option<String>) -> (r: bool)
    ensures
        r == spot_is_visible(approved, owner_id@, viewer_text(*viewer_user_id)),
{
    if approved {
        return true;
    }
    match viewer_user_id {
        Some(viewer) => sdz_text_eq(owner_id, viewer.as_str()),
        None => false,
    }
}

/// Turns what is wrong with a spot into the error for the caller.
pub fn map_validation_error(err: SdzSpotValidationError) -> (r: SdzApiError)
    ensures
        r@ == SdzApiErrorView::BadRequest(err.text()),
{
    SdzApiError::BadRequest(err.message())
}

/// Shows one spot.
#[derive(Clone, Copy, Debug)]
pub struct SdzGetSpotUseCase;

/// What a request for a spot is answered with, given what the store has
/// answered: the spot where there is one that the viewer may see, and
/// nothing found otherwise.
pub open spec fn get_spot_answer<L: SdzPosition>(
    found: Result<Option<SdzSpot<L>>, SdzApiError>,
    viewer: Option<Seq<char>>,
    r: Result<SdzSpot<L>, SdzApiError>,
) -> bool {
    match found {
        Err(e) => r == Err::<SdzSpot<L>, SdzApiError>(e),
        Ok(Some(spot)) => if spot_is_visible(spot.approved(), spot.sdz_user_id@, viewer) {
            r == Ok::<SdzSpot<L>, SdzApiError>(spot)
        } else {
            r matches Err(e) && e@ == SdzApiErrorView::NotFound
        },
        Ok(None) => r matches Err(e) && e@ == SdzApiErrorView::NotFound,
    }
}

impl SdzGetSpotUseCase {
    /// The use case. It holds nothing of its own.
    pub fn new() -> (r: SdzGetSpotUseCase) {
        SdzGetSpotUseCase
    }

    /// Shows the spot with the given id to a viewer.
    pub fn execute<L: SdzPosition, R: SdzSpotRepository<L>>(
        &self,
        repo: &R,
        spot_id: String,
        viewer_user_id: Option<String>,
    ) -> (r: Result<SdzSpot<L>, SdzApiError>)
        ensures
            exists|found: Result<Option<SdzSpot<L>>, SdzApiError>| #[trigger]
                repo.finds(spot_id@, found) && get_spot_answer(
                    found,
                    viewer_text(viewer_user_id),
                    r,
                ),
    {
        let found = repo.find_by_id(spot_id.as_str());
        let ghost witness = found;
        let answer = match found {
            Err(e) => Err(e),
            Ok(None) => Err(SdzApiError::NotFound),
            Ok(Some(spot)) => {
                if sdz_may_view(spot.is_approved(), spot.sdz_user_id.as_str(), &viewer_user_id) {
                    Ok(spot)
                } else {
                    Err(SdzApiError::NotFound)
                }
            },
        };
        proof {
            assert(repo.finds(spot_id@, witness) && get_spot_answer(
                witness,
                viewer_text(viewer_user_id),
                answer,
            ));
        }
        answer
    }
}

/// How many spots with images one user may have.
pub const SDZ_MAX_IMAGE_SPOTS_PER_USER: usize = 10;

/// The detail of the error for a user who has reached that number.
pub const SDZ_IMAGE_SPOT_LIMIT_REACHED: &'static str = "image spot limit reached (max 10)";

/// What a client sends to create a spot.
#[derive(Clone, Debug)]
pub struct CreateSpotInput<L> {
    pub name: String,
    pub description: Option<String>,
    pub location: Option<L>,
    pub tags: Option<Vec<String>>,
    pub images: Option<Vec<String>>,
    pub park_attributes: Option<SdzSpotParkAttributes>,
    pub street_attributes: Option<SdzStreetAttributes>,
    pub instagram_tag: Option<String>,
}

/// Creates spots.
#[derive(Clone, Copy, Debug)]
pub struct SdzCreateSpotUseCase;

/// A list that was sent, or the empty list where none was.
pub open spec fn list_or_empty(list: Option<Vec<String>>) -> Seq<String> {
    match list {
        Some(items) => items@,
        None => Seq::empty(),
    }
}

fn or_empty(list: Option<Vec<String>>) -> (r: Vec<String>)
    ensures
        r@ == list_or_empty(list),
{
    match list {
        Some(items) => items,
        None => Vec::new(),
    }
}

/// The spot that an input asks for.
pub open spec fn is_spot_for<L: SdzPosition>(
    spot: SdzSpot<L>,
    input: CreateSpotInput<L>,
    spot_id: Seq<char>,
    user_id: Seq<char>,
    now: SdzOffsetTime,
) -> bool {
    &&& spot.sdz_spot_id@ == spot_id
    &&& spot.name == input.name
    &&& spot.description == input.description
    &&& spot.location == input.location
    &&& spot.tags@ == list_or_empty(input.tags)
    &&& spot.images@ == list_or_empty(input.images)
    &&& spot.sdz_approval_status is None
    &&& spot.sdz_park_attributes == input.park_attributes
    &&& spot.sdz_street_attributes == input.street_attributes
    &&& spot.sdz_instagram_tag == input.instagram_tag
    &&& spot.sdz_user_id@ == user_id
    &&& spot.created_at == now
    &&& spot.updated_at == now
}

/// What a request to create a spot is answered with.
///
/// - A spot with images is refused where the user has ten such spots
///   already; for a spot without images the store is not asked for the
///   number.
/// - A spot with which something is wrong is a bad request that names the
///   first thing that is wrong.
/// - Otherwise the spot is stored and returned.
///
/// Where the store fails, its error is the answer.
pub open spec fn create_spot_answer<L: SdzPosition, R: SdzSpotRepository<L>>(
    repo: &R,
    input: CreateSpotInput<L>,
    spot_id: Seq<char>,
    user_id: Seq<char>,
    now: SdzOffsetTime,
    r: Result<SdzSpot<L>, SdzApiError>,
) -> bool {
    let quota_failed = r matches Err(e) && repo.counts(user_id, Err(e));
    let quota_reached = exists|n: usize|
        #![trigger repo.counts(user_id, Ok(n))]
        repo.counts(user_id, Ok(n)) && n >= SDZ_MAX_IMAGE_SPOTS_PER_USER && (r matches Err(e)
            && e@ == SdzApiErrorView::Forbidden(SDZ_IMAGE_SPOT_LIMIT_REACHED@));
    let quota_passed = list_or_empty(input.images).len() == 0 || exists|n: usize|
        #![trigger repo.counts(user_id, Ok(n))]
        repo.counts(user_id, Ok(n)) && n < SDZ_MAX_IMAGE_SPOTS_PER_USER;
    let made = exists|found: SdzLocationCheck| #[trigger]
        position_check_gives(input.location, found) && match spot_problem(
            input.name@,
            found,
            list_or_empty(input.tags).len(),
            list_or_empty(input.images).len(),
            input.park_attributes,
            input.street_attributes,
        ) {
            Some(problem) => r matches Err(e) && e@ == SdzApiErrorView::BadRequest(problem.text()),
            None => (r matches Ok(spot) && is_spot_for(spot, input, spot_id, user_id, now)
                && exists|stored: SdzSpot<L>, answer: Result<SdzSpot<L>, SdzApiError>| #[trigger]
                repo.stores(stored, answer) && answer is Ok) || (r matches Err(e) && exists|
                stored: SdzSpot<L>,
            | #[trigger]
                repo.stores(stored, Err(e))),
        };
    if list_or_empty(input.images).len() > 0 {
        quota_failed || quota_reached || (quota_passed && made)
    } else {
        made
    }
}

impl SdzCreateSpotUseCase {
    /// The use case. It holds nothing of its own.
    pub fn new() -> (r: SdzCreateSpotUseCase) {
        SdzCreateSpotUseCase
    }

    /// Checks the number of spots with images that a user already has,
    /// before one more is made.
    pub fn check_image_quota(&self, image_spots: usize) -> (r: Result<(), SdzApiError>)
        ensures
            image_spots < SDZ_MAX_IMAGE_SPOTS_PER_USER ==> r is Ok,
            image_spots >= SDZ_MAX_IMAGE_SPOTS_PER_USER ==> (r matches Err(e) && e@
                == SdzApiErrorView::Forbidden(SDZ_IMAGE_SPOT_LIMIT_REACHED@)),
    {
        if image_spots >= SDZ_MAX_IMAGE_SPOTS_PER_USER {
            Err(SdzApiError::Forbidden(String::from_str(SDZ_IMAGE_SPOT_LIMIT_REACHED)))
        } else {
            Ok(())
        }
    }

    /// Creates the spot with the id `spot_id` for a caller at `now`.
    pub fn create<L: SdzPosition + Clone, R: SdzSpotRepository<L>>(
        &self,
        repo: &R,
        auth_user: SdzAuthUser,
        input: CreateSpotInput<L>,
        spot_id: String,
        now: SdzOffsetTime,
    ) -> (r: Result<SdzSpot<L>, SdzApiError>)
        ensures
            create_spot_answer(repo, input, spot_id@, auth_user.sdz_user_id@, now, r),
    {
        let CreateSpotInput {
            name,
            description,
            location,
            tags,
            images,
            park_attributes,
            street_attributes,
            instagram_tag,
        } = input;
        let images = or_empty(images);
        let tags = or_empty(tags);
        if images.len() > 0 {
            match repo.count_image_spots_by_user(auth_user.sdz_user_id.as_str()) {
                Err(e) => {
                    return Err(e);
                },
                Ok(count) => {
                    match self.check_image_quota(count) {
                        Err(e) => {
                            return Err(e);
                        },
                        Ok(()) => {},
                    }
                },
            }
        }
        let made = SdzSpot::new_with_id(
            spot_id,
            name,
            description,
            location,
            tags,
            images,
            park_attributes,
            street_attributes,
            instagram_tag,
            auth_user.sdz_user_id,
            now,
        );
        match made {
            Err(problem) => Err(map_validation_error(problem)),
            Ok(spot) => {
                let copy = spot.clone();
                match repo.create(copy) {
                    Err(e) => Err(e),
                    Ok(_) => Ok(spot),
                }
            },
        }
    }

    /// Creates a spot with a fresh id for a caller at `now`.
    pub fn execute<L: SdzPosition + Clone, R: SdzSpotRepository<L>>(
        &self,
        repo: &R,
        auth_user: SdzAuthUser,
        input: CreateSpotInput<L>,
        now: SdzOffsetTime,
    ) -> (r: Result<SdzSpot<L>, SdzApiError>)
        ensures
            exists|spot_id: Seq<char>|
                is_unique_id_text(spot_id) && #[trigger] create_spot_answer(
                    repo,
                    input,
                    spot_id,
                    auth_user.sdz_user_id@,
                    now,
                    r,
                ),
    {
        let spot_id = fresh_unique_id();
        let ghost id = spot_id@;
        let answer = self.create(repo, auth_user, input, spot_id, now);
        proof {
            assert(create_spot_answer(repo, input, id, auth_user.sdz_user_id@, now, answer));
        }
        answer
    }
}

/// The detail of the error for a change of status that is not allowed.
pub const SDZ_APPROVAL_NOT_ALLOWED: &'static str = "approval status update not allowed";

/// The detail of the error for a change by someone who is not the owner.
pub const SDZ_OWNER_MISMATCH: &'static str = "spot owner mismatch";

/// The status after an update, or nothing where the update is not allowed.
///
/// Without a request the status stays. Approval can be asked for where it
/// has not been asked for yet, or where it was refused the last time.
/// Nothing else can be asked for.
pub open spec fn approval_after(
    current: Option<SdzSpotApprovalStatus>,
    requested: Option<SdzSpotApprovalStatus>,
) -> Option<Option<SdzSpotApprovalStatus>> {
    match requested {
        None => Some(current),
        Some(SdzSpotApprovalStatus::Pending) => match current {
            None | Some(SdzSpotApprovalStatus::Rejected) => Some(
                Some(SdzSpotApprovalStatus::Pending),
            ),
            _ => None,
        },
        Some(_) => None,
    }
}

/// Decides the status of a spot after an update.
pub fn resolve_approval_status(
    current: Option<SdzSpotApprovalStatus>,
    requested: Option<SdzSpotApprovalStatus>,
) -> (r: Result<Option<SdzSpotApprovalStatus>, SdzApiError>)
    ensures
        match approval_after(current, requested) {
            Some(status) => r matches Ok(s) && s == status,
            None => r matches Err(e) && e@ == SdzApiErrorView::Forbidden(
                SDZ_APPROVAL_NOT_ALLOWED@,
            ),
        },
{
    match requested {
        None => Ok(current),
        Some(SdzSpotApprovalStatus::Pending) => match current {
            None | Some(SdzSpotApprovalStatus::Rejected) => Ok(
                Some(SdzSpotApprovalStatus::Pending),
            ),
            Some(SdzSpotApprovalStatus::Pending) | Some(SdzSpotApprovalStatus::Approved) => Err(
                SdzApiError::Forbidden(String::from_str(SDZ_APPROVAL_NOT_ALLOWED)),
            ),
        },
        Some(_) => Err(SdzApiError::Forbidden(String::from_str(SDZ_APPROVAL_NOT_ALLOWED))),
    }
}

/// What a client sends to update a spot. What is left out stays as it is.
#[derive(Clone, Debug)]
pub struct UpdateSpotInput<L> {
    pub name: String,
    pub description: Option<String>,
    pub location: Option<L>,
    pub tags: Option<Vec<String>>,
    pub images: Option<Vec<String>>,
    pub approval_status: Option<SdzSpotApprovalStatus>,
    pub park_attributes: Option<SdzSpotParkAttributes>,
    pub street_attributes: Option<SdzStreetAttributes>,
    pub instagram_tag: Option<String>,
}

/// What was sent, or what there was where nothing was sent.
pub open spec fn sent_or_kept<T>(sent: Option<T>, kept: Option<T>) -> Option<T> {
    if sent is Some {
        sent
    } else {
        kept
    }
}

/// A list that was sent, or the list that there was where none was sent.
pub open spec fn list_sent_or_kept(sent: Option<Vec<String>>, kept: Vec<String>) -> Vec<String> {
    match sent {
        Some(items) => items,
        None => kept,
    }
}

fn pick<T>(sent: Option<T>, kept: Option<T>) -> (r: Option<T>)
    ensures
        r == sent_or_kept(sent, kept),
{
    match sent {
        Some(value) => Some(value),
        None => kept,
    }
}

/// The spot that an update asks for, given the spot that there was and the
/// status that the update leads to.
pub open spec fn updated_spot<L: SdzPosition>(
    existing: SdzSpot<L>,
    input: UpdateSpotInput<L>,
    status: Option<SdzSpotApprovalStatus>,
    now: SdzOffsetTime,
) -> SdzSpot<L> {
    SdzSpot {
        sdz_spot_id: existing.sdz_spot_id,
        name: input.name,
        description: sent_or_kept(input.description, existing.description),
        location: sent_or_kept(input.location, existing.location),
        tags: list_sent_or_kept(input.tags, existing.tags),
        images: list_sent_or_kept(input.images, existing.images),
        sdz_approval_status: status,
        sdz_park_attributes: sent_or_kept(input.park_attributes, existing.sdz_park_attributes),
        sdz_street_attributes: sent_or_kept(
            input.street_attributes,
            existing.sdz_street_attributes,
        ),
        sdz_instagram_tag: sent_or_kept(input.instagram_tag, existing.sdz_instagram_tag),
        sdz_user_id: existing.sdz_user_id,
        created_at: existing.created_at,
        updated_at: now,
    }
}

/// What a request to update a spot is answered with, given the spot that
/// the store has found.
///
/// - Only the owner may update a spot.
/// - The status may only change as `approval_after` allows.
/// - An updated spot with which something is wrong is a bad request that
///   names the first thing that is wrong.
/// - Otherwise the updated spot is stored and returned.
///
/// Where the store fails, its error is the answer.
pub open spec fn update_of_found<L: SdzPosition, R: SdzSpotRepository<L>>(
    repo: &R,
    existing: SdzSpot<L>,
    user_id: Seq<char>,
    input: UpdateSpotInput<L>,
    now: SdzOffsetTime,
    r: Result<SdzSpot<L>, SdzApiError>,
) -> bool {
    if existing.sdz_user_id@ != user_id {
        r matches Err(e) && e@ == SdzApiErrorView::Forbidden(SDZ_OWNER_MISMATCH@)
    } else {
        match approval_after(existing.sdz_approval_status, input.approval_status) {
            None => r matches Err(e) && e@ == SdzApiErrorView::Forbidden(
                SDZ_APPROVAL_NOT_ALLOWED@,
            ),
            Some(status) => {
                let target = updated_spot(existing, input, status, now);
                exists|found: SdzLocationCheck| #[trigger]
                    position_check_gives(target.location, found) && match spot_problem(
                        target.name@,
                        found,
                        target.tags@.len(),
                        target.images@.len(),
                        target.sdz_park_attributes,
                        target.sdz_street_attributes,
                    ) {
                        Some(problem) => r matches Err(e) && e@ == SdzApiErrorView::BadRequest(
                            problem.text(),
                        ),
                        None => (r == Ok::<SdzSpot<L>, SdzApiError>(target) && exists|
                            stored: SdzSpot<L>,
                            answer: Result<SdzSpot<L>, SdzApiError>,
                        | #[trigger]
                            repo.stores(stored, answer) && answer is Ok) || (r matches Err(e)
                            && exists|stored: SdzSpot<L>| #[trigger] repo.stores(stored, Err(e))),
                    }
            },
        }
    }
}

/// What a request to update a spot is answered with, given what the store
/// has answered when asked for the spot.
pub open spec fn update_spot_answer<L: SdzPosition, R: SdzSpotRepository<L>>(
    repo: &R,
    found: Result<Option<SdzSpot<L>>, SdzApiError>,
    user_id: Seq<char>,
    input: UpdateSpotInput<L>,
    now: SdzOffsetTime,
    r: Result<SdzSpot<L>, SdzApiError>,
) -> bool {
    match found {
        Err(e) => r == Err::<SdzSpot<L>, SdzApiError>(e),
        Ok(None) => r matches Err(e) && e@ == SdzApiErrorView::NotFound,
        Ok(Some(existing)) => update_of_found(repo, existing, user_id, input, now, r),
    }
}

/// Updates spots.
#[derive(Clone, Copy, Debug)]
pub struct SdzUpdateSpotUseCase;

impl SdzUpdateSpotUseCase {
    /// The use case. It holds nothing of its own.
    pub fn new() -> (r: SdzUpdateSpotUseCase) {
        SdzUpdateSpotUseCase
    }

    /// Checks that the caller owns the spot that is to be updated.
    pub fn check_owner(&self, owner_id: &str, auth_user: &SdzAuthUser) -> (r: Result<
        (),
        SdzApiError,
    >)
        ensures
            owner_id@ == auth_user.sdz_user_id@ ==> r is Ok,
            owner_id@ != auth_user.sdz_user_id@ ==> (r matches Err(e) && e@
                == SdzApiErrorView::Forbidden(SDZ_OWNER_MISMATCH@)),
    {
        if sdz_text_eq(owner_id, auth_user.sdz_user_id.as_str()) {
            Ok(())
        } else {
            Err(SdzApiError::Forbidden(String::from_str(SDZ_OWNER_MISMATCH)))
        }
    }

    fn update_found<L: SdzPosition + Clone, R: SdzSpotRepository<L>>(
        &self,
        repo: &R,
        existing: SdzSpot<L>,
        auth_user: &SdzAuthUser,
        input: UpdateSpotInput<L>,
        now: SdzOffsetTime,
    ) -> (r: Result<SdzSpot<L>, SdzApiError>)
        ensures
            update_of_found(repo, existing, auth_user.sdz_user_id@, input, now, r),
    {
        match self.check_owner(existing.sdz_user_id.as_str(), auth_user) {
            Err(e) => {
                return Err(e);
            },
            Ok(()) => {},
        }
        let status = match resolve_approval_status(
            existing.sdz_approval_status,
            input.approval_status,
        ) {
            Err(e) => {
                return Err(e);
            },
            Ok(status) => status,
        };
        let ghost target = updated_spot(existing, input, status, now);
        let SdzSpot {
            sdz_spot_id,
            name: _,
            description: old_description,
            location: old_location,
            tags: old_tags,
            images: old_images,
            sdz_approval_status: _,
            sdz_park_attributes: old_park,
            sdz_street_attributes: old_street,
            sdz_instagram_tag: old_instagram,
            sdz_user_id,
            created_at,
            updated_at: _,
        } = existing;
        let UpdateSpotInput {
            name,
            description,
            location,
            tags,
            images,
            approval_status: _,
            park_attributes,
            street_attributes,
            instagram_tag,
        } = input;
        let tags = match tags {
            Some(items) => items,
            None => old_tags,
        };
        let images = match images {
            Some(items) => items,
            None => old_images,
        };
        let made = SdzSpot::revised(
            sdz_spot_id,
            sdz_user_id,
            created_at,
            name,
            pick(description, old_description),
            pick(location, old_location),
            tags,
            images,
            status,
            pick(park_attributes, old_park),
            pick(street_attributes, old_street),
            pick(instagram_tag, old_instagram),
            now,
        );
        match made {
            Err(problem) => Err(map_validation_error(problem)),
            Ok(spot) => {
                assert(spot == target);
                let copy = spot.clone();
                match repo.create(copy) {
                    Err(e) => Err(e),
                    Ok(_) => Ok(spot),
                }
            },
        }
    }

    /// Updates the spot with the given id for a caller at `now`.
    pub fn execute<L: SdzPosition + Clone, R: SdzSpotRepository<L>>(
        &self,
        repo: &R,
        auth_user: SdzAuthUser,
        spot_id: String,
        input: UpdateSpotInput<L>,
        now: SdzOffsetTime,
    ) -> (r: Result<SdzSpot<L>, SdzApiError>)
        ensures
            exists|found: Result<Option<SdzSpot<L>>, SdzApiError>| #[trigger]
                repo.finds(spot_id@, found) && update_spot_answer(
                    repo,
                    found,
                    auth_user.sdz_user_id@,
                    input,
                    now,
                    r,
                ),
    {
        let found = repo.find_by_id(spot_id.as_str());
        let ghost witness = found;
        let answer = match found {
            Err(e) => Err(e),
            Ok(None) => Err(SdzApiError::NotFound),
            Ok(Some(existing)) => self.update_found(repo, existing, &auth_user, input, now),
        };
        proof {
            assert(repo.finds(spot_id@, witness) && update_spot_answer(
                repo,
                witness,
                auth_user.sdz_user_id@,
                input,
                now,
                answer,
            ));
        }
        answer
    }
}

/// Approval can always be asked for again after a rejection, and never once
/// a spot is approved.
pub proof fn lemma_approval_requests(current: Option<SdzSpotApprovalStatus>)
    ensures
        current == Some(SdzSpotApprovalStatus::Rejected) ==> approval_after(
            current,
            Some(SdzSpotApprovalStatus::Pending),
        ) == Some(Some(SdzSpotApprovalStatus::Pending)),
        current == Some(SdzSpotApprovalStatus::Approved) ==> forall|
            requested: SdzSpotApprovalStatus,
        |
            approval_after(current, Some(requested)) is None,
{
}

/// No update can approve or reject a spot: where an update changes the
/// status, the new status is that of a pending approval.
pub proof fn lemma_no_update_approves(
    current: Option<SdzSpotApprovalStatus>,
    requested: Option<SdzSpotApprovalStatus>,
)
    requires
        approval_after(current, requested) matches Some(after) && after != current,
    ensures
        approval_after(current, requested) == Some(Some(SdzSpotApprovalStatus::Pending)),
{
}

/// An update never changes whose spot it is, nor its id, nor when it was
/// made.
pub proof fn lemma_update_keeps_identity<L: SdzPosition>(
    existing: SdzSpot<L>,
    input: UpdateSpotInput<L>,
    status: Option<SdzSpotApprovalStatus>,
    now: SdzOffsetTime,
)
    ensures
        updated_spot(existing, input, status, now).sdz_spot_id == existing.sdz_spot_id,
        updated_spot(existing, input, status, now).sdz_user_id == existing.sdz_user_id,
        updated_spot(existing, input, status, now).created_at == existing.created_at,
{
}

} // verus!
