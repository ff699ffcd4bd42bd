//! Listing spots: who sees which, and what a filter lets through.

use vstd::prelude::*;
use crate::error::SdzApiError;
use crate::spot_use_cases::{sdz_may_view, spot_is_visible, viewer_text};
use crate::spots::{SdzPosition, SdzSpot, SdzSpotRepository};
use vstd::string::StringExecFns;
use crate::error::SdzApiErrorView;
use crate::text::{
    has_infix, is_blank, listed_items, lowercase_text, sdz_is_blank, sdz_split_list, sdz_text_eq,
    text_contains, texts, trimmed_text,
};

verus! {

/// The kinds of spot that a list can be narrowed to.
#[derive(Clone, Copy, Debug, PartialEq, Eq, Structural)]
pub enum SdzSpotTypeFilter {
    Park,
    Street,
}

/// The kind that a word names.
pub open spec fn type_named(raw: Seq<char>) -> Option<SdzSpotTypeFilter> {
    if raw == "park"@ || raw == "skatepark"@ {
        Some(SdzSpotTypeFilter::Park)
    } else if raw == "street"@ {
        Some(SdzSpotTypeFilter::Street)
    } else {
        None
    }
}

impl SdzSpotTypeFilter {
    /// Reads a kind from the word that names it.
    pub fn parse(raw: &str) -> (r: Option<SdzSpotTypeFilter>)
        ensures
            r == type_named(raw@),
    {
        if sdz_text_eq(raw, "park") || sdz_text_eq(raw, "skatepark") {
            Some(SdzSpotTypeFilter::Park)
        } else if sdz_text_eq(raw, "street") {
            Some(SdzSpotTypeFilter::Street)
        } else {
            None
        }
    }
}

/// What a list of spots is narrowed by.
#[derive(Clone, Debug)]
pub struct SdzSpotSearchFilter {
    /// Words to look for in names, descriptions and tags.
    pub query: Option<String>,
    /// The kind of spot.
    pub spot_type: Option<SdzSpotTypeFilter>,
    /// Tags of which a spot must have at least one. No tags, no demand.
    pub tags: Vec<String>,
}

impl Default for SdzSpotSearchFilter {
    /// The filter that narrows nothing.
    fn default() -> (r: SdzSpotSearchFilter)
        ensures
            r.query is None,
            r.spot_type is None,
            r.tags@.len() == 0,
    {
        SdzSpotSearchFilter { query: None, spot_type: None, tags: Vec::new() }
    }
}

/// What a request for a list of spots can carry.
#[derive(Clone, Debug)]
pub struct SdzSpotListQuery {
    pub q: Option<String>,
    pub spot_type: Option<String>,
    pub tags: Option<String>,
}

/// The tags that mark a spot as a park.
pub open spec fn is_park_tag(tag: Seq<char>) -> bool {
    tag == "パーク"@ || tag == "スケートパーク"@ || tag == "スケートボードパーク"@
}

/// The tag that marks a spot as a street spot.
pub open spec fn is_street_tag(tag: Seq<char>) -> bool {
    tag == "ストリート"@
}

/// Whether a tag is among the tags.
pub open spec fn has_tag(tags: Seq<String>, tag: Seq<char>) -> bool {
    exists|i: int| 0 <= i < tags.len() && (#[trigger] tags[i])@ == tag
}

/// Whether one of the wanted tags is among the tags.
pub open spec fn shares_tag(tags: Seq<String>, wanted: Seq<String>) -> bool {
    exists|j: int| 0 <= j < wanted.len() && has_tag(tags, (#[trigger] wanted[j])@)
}

/// Whether one of the tags marks a park.
pub open spec fn has_park_tag(tags: Seq<String>) -> bool {
    exists|i: int| 0 <= i < tags.len() && is_park_tag((#[trigger] tags[i])@)
}

/// Whether one of the tags marks a street spot.
pub open spec fn has_street_tag(tags: Seq<String>) -> bool {
    exists|i: int| 0 <= i < tags.len() && is_street_tag((#[trigger] tags[i])@)
}

/// Whether one of the tags holds the query, once put in lower case.
pub open spec fn tag_holds(tags: Seq<String>, query: Seq<char>) -> bool {
    exists|i: int| 0 <= i < tags.len() && has_infix(lowercase_text((#[trigger] tags[i])@), query)
}

/// The query as it is looked for: trimmed and in lower case, and absent
/// where nothing is left of it.
pub open spec fn normalized_query(query: Option<String>) -> Option<Seq<char>> {
    match query {
        Some(q) => if trimmed_text(q@).len() == 0 {
            None
        } else {
            Some(lowercase_text(trimmed_text(q@)))
        },
        None => None,
    }
}

/// Decides whether a tag is among the tags.
pub fn sdz_has_tag(tags: &[String], tag: &str) -> (r: bool)
    ensures
        r == has_tag(tags@, tag@),
{
    let mut i: usize = 0;
    while i < tags.len()
        invariant
            i <= tags.len(),
            forall|k: int| 0 <= k < i ==> (#[trigger] tags@[k])@ != tag@,
        decreases tags.len() - i,
    {
        if sdz_text_eq(tags[i].as_str(), tag) {
            return true;
        }
        i += 1;
    }
    false
}

fn any_park_tag(tags: &[String]) -> (r: bool)
    ensures
        r == has_park_tag(tags@),
{
    let mut i: usize = 0;
    while i < tags.len()
        invariant
            i <= tags.len(),
            forall|k: int| 0 <= k < i ==> !is_park_tag((#[trigger] tags@[k])@),
        decreases tags.len() - i,
    {
        let tag = tags[i].as_str();
        if sdz_text_eq(tag, "パーク") || sdz_text_eq(tag, "スケートパーク") || sdz_text_eq(
            tag,
            "スケートボードパーク",
        ) {
            return true;
        }
        i += 1;
    }
    false
}

fn any_street_tag(tags: &[String]) -> (r: bool)
    ensures
        r == has_street_tag(tags@),
{
    let mut i: usize = 0;
    while i < tags.len()
        invariant
            i <= tags.len(),
            forall|k: int| 0 <= k < i ==> !is_street_tag((#[trigger] tags@[k])@),
        decreases tags.len() - i,
    {
        if sdz_text_eq(tags[i].as_str(), "ストリート") {
            return true;
        }
        i += 1;
    }
    false
}

fn any_shared_tag(tags: &[String], wanted: &[String]) -> (r: bool)
    ensures
        r == shares_tag(tags@, wanted@),
{
    let mut j: usize = 0;
    while j < wanted.len()
        invariant
            j <= wanted.len(),
            forall|k: int| 0 <= k < j ==> !has_tag(tags@, (#[trigger] wanted@[k])@),
        decreases wanted.len() - j,
    {
        if sdz_has_tag(tags, wanted[j].as_str()) {
            return true;
        }
        j += 1;
    }
    false
}

fn any_tag_holds(tags: &[String], query: &str) -> (r: bool)
    ensures
        r == tag_holds(tags@, query@),
{
    let mut i: usize = 0;
    while i < tags.len()
        invariant
            i <= tags.len(),
            forall|k: int|
                0 <= k < i ==> !has_infix(lowercase_text((#[trigger] tags@[k])@), query@),
        decreases tags.len() - i,
    {
        let lowered = tags[i].as_str().to_lowercase();
        if text_contains(lowered.as_str(), query) {
            return true;
        }
        i += 1;
    }
    false
}

impl SdzSpotSearchFilter {
    /// A filter narrows a list where it has a query that is not blank, a
    /// kind, or a tag.
    pub open spec fn narrows(self) -> bool {
        (self.query matches Some(q) && !is_blank(q@)) || self.spot_type is Some
            || self.tags@.len() > 0
    }

    /// Whether the filter narrows a list at all.
    pub fn is_active(&self) -> (r: bool)
        ensures
            r == self.narrows(),
    {
        let has_query = match &self.query {
            Some(q) => !sdz_is_blank(q.as_str()),
            None => false,
        };
        has_query || self.spot_type.is_some() || self.tags.len() > 0
    }

    /// A spot answers the query where its name, its description or one of
    /// its tags holds the query, all in lower case. Without a query every
    /// spot does.
    pub open spec fn query_lets_through<L>(self, spot: SdzSpot<L>) -> bool {
        match normalized_query(self.query) {
            None => true,
            Some(query) => has_infix(lowercase_text(spot.name@), query) || (
            spot.description matches Some(d) && has_infix(lowercase_text(d@), query)) || tag_holds(
                spot.tags@,
                query,
            ),
        }
    }

    /// A spot is of the kind asked for where it has the attributes of that
    /// kind, or a tag that marks it. Without a kind every spot is.
    pub open spec fn type_lets_through<L>(self, spot: SdzSpot<L>) -> bool {
        match self.spot_type {
            None => true,
            Some(SdzSpotTypeFilter::Park) => spot.sdz_park_attributes is Some || has_park_tag(
                spot.tags@,
            ),
            Some(SdzSpotTypeFilter::Street) => spot.sdz_street_attributes is Some
                || has_street_tag(spot.tags@),
        }
    }

    /// A spot has the tags asked for where it has one of them at least.
    /// Without tags every spot does.
    pub open spec fn tags_let_through<L>(self, spot: SdzSpot<L>) -> bool {
        self.tags@.len() == 0 || shares_tag(spot.tags@, self.tags@)
    }

    /// What the filter lets through: the spots that answer the query, are
    /// of the kind and have the tags.
    pub open spec fn lets_through<L>(self, spot: SdzSpot<L>) -> bool {
        self.query_lets_through(spot) && self.type_lets_through(spot) && self.tags_let_through(
            spot,
        )
    }

    /// The test that the filter puts a spot to.
    pub open spec fn test<L>(self) -> spec_fn(SdzSpot<L>) -> bool {
        |spot: SdzSpot<L>| self.lets_through(spot)
    }

    /// The query as it is looked for.
    pub fn query_text(&self) -> (r: Option<String>)
        ensures
            match normalized_query(self.query) {
                Some(q) => r matches Some(s) && s@ == q,
                None => r is None,
            },
    {
        match &self.query {
            Some(q) => {
                let trimmed = q.as_str().trim();
                if trimmed.is_empty() {
                    None
                } else {
                    Some(trimmed.to_lowercase())
                }
            },
            None => None,
        }
    }

    /// Decides whether the filter lets a spot through, given the query as it
    /// is looked for.
    fn admits<L>(&self, spot: &SdzSpot<L>, query: &Option<String>) -> (r: bool)
        requires
            match normalized_query(self.query) {
                Some(q) => *query matches Some(s) && s@ == q,
                None => *query is None,
            },
        ensures
            r == self.lets_through(*spot),
    {
        let by_query = match query {
            None => true,
            Some(q) => {
                let name = spot.name.as_str().to_lowercase();
                if text_contains(name.as_str(), q.as_str()) {
                    true
                } else {
                    let in_description = match &spot.description {
                        Some(d) => {
                            let lowered = d.as_str().to_lowercase();
                            text_contains(lowered.as_str(), q.as_str())
                        },
                        None => false,
                    };
                    in_description || any_tag_holds(spot.tags.as_slice(), q.as_str())
                }
            },
        };
        if !by_query {
            return false;
        }
        let by_type = match self.spot_type {
            None => true,
            Some(SdzSpotTypeFilter::Park) => spot.sdz_park_attributes.is_some() || any_park_tag(
                spot.tags.as_slice(),
            ),
            Some(SdzSpotTypeFilter::Street) => spot.sdz_street_attributes.is_some()
                || any_street_tag(spot.tags.as_slice()),
        };
        if !by_type {
            return false;
        }
        self.tags.len() == 0 || any_shared_tag(spot.tags.as_slice(), self.tags.as_slice())
    }

    /// Decides whether the filter lets a spot through.
    pub fn matches<L>(&self, spot: &SdzSpot<L>) -> (r: bool)
        ensures
            r == self.lets_through(*spot),
    {
        let query = self.query_text();
        self.admits(spot, &query)
    }

    /// Narrows a list of spots to those that the filter lets through, in
    /// their order.
    pub fn apply<L>(&self, spots: Vec<SdzSpot<L>>) -> (r: Vec<SdzSpot<L>>)
        ensures
            r@ == spots@.filter(self.test()),
    {
        let query = self.query_text();
        let ghost keep = self.test::<L>();
        let mut out: Vec<SdzSpot<L>> = Vec::new();
        proof {
            reveal(Seq::filter);
            assert(spots@.take(0).filter(keep) =~= Seq::<SdzSpot<L>>::empty());
        }
        for spot in it: spots.into_iter()
            invariant
                it.seq() == spots@,
                keep == self.test::<L>(),
                out@ == spots@.take(it.index() as int).filter(keep),
                match normalized_query(self.query) {
                    Some(q) => query matches Some(s) && s@ == q,
                    None => query is None,
                },
        {
            proof {
                lemma_filter_step(spots@, keep, it.index() as int);
            }
            if self.admits(&spot, &query) {
                out.push(spot);
            }
        }
        proof {
            assert(spots@.take(spots@.len() as int) =~= spots@);
        }
        out
    }
}

/// Filtering one element more either appends that element or changes
/// nothing.
pub proof fn lemma_filter_step<A>(s: Seq<A>, keep: spec_fn(A) -> bool, i: int)
    requires
        0 <= i < s.len(),
    ensures
        s.take(i + 1).filter(keep) == if keep(s[i]) {
            s.take(i).filter(keep).push(s[i])
        } else {
            s.take(i).filter(keep)
        },
{
    reveal(Seq::filter);
    assert(s.take(i + 1).drop_last() =~= s.take(i));
    assert(s.take(i + 1).last() == s[i]);
}

/// The most spots that a list ever holds.
pub const SDZ_MAX_LIST_LIMIT: usize = 100;

/// The most spots that are fetched for one list.
pub const SDZ_MAX_FETCH_LIMIT: usize = 200;

/// Lists spots.
#[derive(Clone, Copy, Debug)]
pub struct SdzListSpotsUseCase;

/// The length that a list is cut to: what was asked for, and no more than
/// a hundred.
pub open spec fn capped_limit(limit: nat) -> nat {
    if limit <= SDZ_MAX_LIST_LIMIT {
        limit
    } else {
        SDZ_MAX_LIST_LIMIT as nat
    }
}

/// How many spots are fetched: with a filter four times the length of the
/// list, but no more than two hundred, so that enough are left after
/// filtering; without one, the length of the list.
pub open spec fn fetch_limit(limit: nat, narrowed: bool) -> nat {
    if !narrowed {
        capped_limit(limit)
    } else if capped_limit(limit) * 4 <= SDZ_MAX_FETCH_LIMIT {
        capped_limit(limit) * 4
    } else {
        SDZ_MAX_FETCH_LIMIT as nat
    }
}

/// The test that a viewer may see a spot.
pub open spec fn visible_to<L: SdzPosition>(viewer: Option<Seq<char>>) -> spec_fn(SdzSpot<L>) -> bool {
    |spot: SdzSpot<L>| spot_is_visible(spot.approved(), spot.sdz_user_id@, viewer)
}

/// The spots that a viewer may see, in their order.
pub open spec fn visible_spots<L: SdzPosition>(spots: Seq<SdzSpot<L>>, viewer: Option<Seq<char>>)
    -> Seq<SdzSpot<L>> {
    spots.filter(visible_to(viewer))
}

/// The spots of a list that a viewer is shown: those that the viewer may
/// see and the filter lets through, cut to `cap`.
pub open spec fn listed_spots<L: SdzPosition>(
    spots: Seq<SdzSpot<L>>,
    viewer: Option<Seq<char>>,
    filter: SdzSpotSearchFilter,
    cap: nat,
) -> Seq<SdzSpot<L>> {
    let passed = visible_spots(spots, viewer).filter(filter.test());
    if passed.len() <= cap {
        passed
    } else {
        passed.take(cap as int)
    }
}

/// What a request for a list of spots is answered with, given what the
/// store has answered.
pub open spec fn list_spots_answer<L: SdzPosition>(
    fetched: Result<Vec<SdzSpot<L>>, SdzApiError>,
    viewer: Option<Seq<char>>,
    filter: SdzSpotSearchFilter,
    cap: nat,
    r: Result<Vec<SdzSpot<L>>, SdzApiError>,
) -> bool {
    match fetched {
        Err(e) => r == Err::<Vec<SdzSpot<L>>, SdzApiError>(e),
        Ok(list) => r matches Ok(shown) && shown@ == listed_spots(list@, viewer, filter, cap),
    }
}

/// Narrows a list of spots to those that a viewer may see.
pub fn sdz_visible_spots<L: SdzPosition>(spots: Vec<SdzSpot<L>>, viewer_user_id: &Option<String>)
    -> (r: Vec<SdzSpot<L>>)
    ensures
        r@ == visible_spots(spots@, viewer_text(*viewer_user_id)),
{
    let ghost viewer = viewer_text(*viewer_user_id);
    let ghost keep = visible_to::<L>(viewer);
    let mut out: Vec<SdzSpot<L>> = Vec::new();
    proof {
        reveal(Seq::filter);
        assert(spots@.take(0).filter(keep) =~= Seq::<SdzSpot<L>>::empty());
    }
    for spot in it: spots.into_iter()
        invariant
            it.seq() == spots@,
            viewer == viewer_text(*viewer_user_id),
            keep == visible_to::<L>(viewer),
            out@ == spots@.take(it.index() as int).filter(keep),
    {
        proof {
            lemma_filter_step(spots@, keep, it.index() as int);
        }
        if sdz_may_view(spot.is_approved(), spot.sdz_user_id.as_str(), viewer_user_id) {
            out.push(spot);
        }
    }
    proof {
        assert(spots@.take(spots@.len() as int) =~= spots@);
    }
    out
}

/// The detail of the error for a kind that is not known.
pub const SDZ_TYPE_INVALID: &'static str = "type must be park or street";

/// The kind that a request asks for: none where it names none, is blank or
/// says `all`; the kind that it names otherwise, or nothing where it names
/// no kind that is known. The outer value is absent where the request is
/// invalid.
pub open spec fn type_asked(spot_type: Option<String>) -> Option<Option<SdzSpotTypeFilter>> {
    match spot_type {
        None => Some(None),
        Some(raw) => if trimmed_text(raw@).len() == 0 || trimmed_text(raw@) == "all"@ {
            Some(None)
        } else {
            match type_named(trimmed_text(raw@)) {
                Some(kind) => Some(Some(kind)),
                None => None,
            }
        },
    }
}

/// The query that a request asks for: trimmed, and none where nothing is
/// left of it.
pub open spec fn query_asked(q: Option<String>) -> Option<Seq<char>> {
    match q {
        Some(raw) => if trimmed_text(raw@).len() == 0 {
            None
        } else {
            Some(trimmed_text(raw@))
        },
        None => None,
    }
}

impl SdzSpotListQuery {
    /// Turns what a request carries into a filter. A kind that is not known
    /// is a bad request.
    pub fn to_filter(&self) -> (r: Result<SdzSpotSearchFilter, SdzApiError>)
        ensures
            match type_asked(self.spot_type) {
                None => r matches Err(e) && e@ == SdzApiErrorView::BadRequest(SDZ_TYPE_INVALID@),
                Some(kind) => r matches Ok(filter) && filter.spot_type == kind && (match (
                    filter.query,
                    query_asked(self.q),
                ) {
                    (Some(a), Some(b)) => a@ == b,
                    (None, None) => true,
                    _ => false,
                }) && texts(filter.tags@) == listed_items(
                    match self.tags {
                        Some(raw) => raw@,
                        None => Seq::empty(),
                    },
                ),
            },
    {
        let spot_type = match &self.spot_type {
            None => None,
            Some(raw) => {
                let trimmed = raw.as_str().trim();
                if trimmed.is_empty() || sdz_text_eq(trimmed, "all") {
                    None
                } else {
                    match SdzSpotTypeFilter::parse(trimmed) {
                        Some(kind) => Some(kind),
                        None => {
                            return Err(
                                SdzApiError::BadRequest(String::from_str(SDZ_TYPE_INVALID)),
                            );
                        },
                    }
                }
            },
        };
        let tags = match &self.tags {
            Some(raw) => sdz_split_list(raw.as_str()),
            None => {
                let empty = String::new();
                sdz_split_list(empty.as_str())
            },
        };
        let query = match &self.q {
            Some(raw) => {
                let trimmed = raw.as_str().trim();
                if trimmed.is_empty() {
                    None
                } else {
                    Some(trimmed.to_owned())
                }
            },
            None => None,
        };
        Ok(SdzSpotSearchFilter { query, spot_type, tags })
    }
}

impl SdzListSpotsUseCase {
    /// The use case. It holds nothing of its own.
    pub fn new() -> (r: SdzListSpotsUseCase) {
        SdzListSpotsUseCase
    }

    /// The length that the list is cut to.
    pub fn capped(&self, limit: usize) -> (r: usize)
        ensures
            r == capped_limit(limit as nat),
    {
        if limit <= SDZ_MAX_LIST_LIMIT {
            limit
        } else {
            SDZ_MAX_LIST_LIMIT
        }
    }

    /// The spots that a viewer is shown: the latest ones that the viewer may
    /// see and the filter lets through, in the order in which the store has
    /// them, `limit` at most and never more than a hundred.
    ///
    /// Where the store fails, its error is the answer.
    pub fn execute<L: SdzPosition, R: SdzSpotRepository<L>>(
        &self,
        repo: &R,
        limit: usize,
        viewer_user_id: Option<String>,
        filter: SdzSpotSearchFilter,
    ) -> (r: Result<Vec<SdzSpot<L>>, SdzApiError>)
        ensures
            exists|fetched: Result<Vec<SdzSpot<L>>, SdzApiError>| #[trigger]
                repo.lists(fetch_limit(limit as nat, filter.narrows()) as usize, fetched)
                    && list_spots_answer(
                    fetched,
                    viewer_text(viewer_user_id),
                    filter,
                    capped_limit(limit as nat),
                    r,
                ),
    {
        let capped = self.capped(limit);
        let fetch = self.fetch_limit(limit, &filter);
        let fetched = repo.list_recent(fetch);
        let ghost witness = fetched;
        let ghost viewer = viewer_text(viewer_user_id);
        let answer = match fetched {
            Err(e) => Err(e),
            Ok(list) => {
                let ghost listed = list@;
                let visible = sdz_visible_spots(list, &viewer_user_id);
                let mut shown = filter.apply(visible);
                let ghost passed = shown@;
                shown.truncate(capped);
                proof {
                    assert(passed == visible_spots(listed, viewer).filter(filter.test()));
                    if passed.len() <= capped {
                        assert(shown@ =~= passed);
                    } else {
                        assert(shown@ =~= passed.take(capped as int));
                    }
                    assert(shown@ == listed_spots(listed, viewer, filter, capped as nat));
                }
                Ok(shown)
            },
        };
        proof {
            assert(fetch == fetch_limit(limit as nat, filter.narrows()) as usize);
            assert(list_spots_answer(witness, viewer, filter, capped_limit(limit as nat), answer));
        }
        answer
    }

    /// How many spots are asked of the store.
    pub fn fetch_limit(&self, limit: usize, filter: &SdzSpotSearchFilter) -> (r: usize)
        ensures
            r == fetch_limit(limit as nat, filter.narrows()),
    {
        let capped = self.capped(limit);
        if filter.is_active() {
            let wide = capped * 4;
            if wide <= SDZ_MAX_FETCH_LIMIT {
                wide
            } else {
                SDZ_MAX_FETCH_LIMIT
            }
        } else {
            capped
        }
    }
}

/// Never more is fetched than two hundred spots, and never fewer than the
/// list can hold.
pub proof fn lemma_fetch_limit_bounds(limit: nat, narrowed: bool)
    ensures
        capped_limit(limit) <= fetch_limit(limit, narrowed) <= SDZ_MAX_FETCH_LIMIT,
        capped_limit(limit) <= limit,
        capped_limit(limit) <= SDZ_MAX_LIST_LIMIT,
{
}

} // verus!
