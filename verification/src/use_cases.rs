//! What the service decides around its stores of users, spots and lists.
//!
//! The stores are asked elsewhere. Each use case here says what follows
//! from what a store has answered.

use vstd::prelude::*;
use vstd::multiset::Multiset;
use vstd::seq_lib::{to_multiset_build, to_multiset_insert, to_multiset_len};
use crate::auth::SdzAuthUser;
use crate::error::{SdzApiError, SdzApiErrorView};
use crate::models::{HealthStatus, SdzUser};
use crate::spots::{SdzMyListEntry, SdzMyListRepository, SdzPosition, SdzSpot, SdzSpotRepository};
use crate::text::sdz_text_eq;

verus! {

/// Reports the service's health.
#[derive(Clone, Copy, Debug)]
pub struct HealthCheckUseCase;

impl HealthCheckUseCase {
    /// The use case. It holds nothing of its own.
    pub fn new() -> (r: HealthCheckUseCase) {
        HealthCheckUseCase
    }

    /// The service's health: it is healthy whenever it answers.
    pub fn execute(&self) -> (r: HealthStatus)
        ensures
            r == HealthStatus::Healthy,
    {
        HealthStatus::Healthy
    }
}

/// A store of users.
pub trait SdzUserRepository {
    /// What this store may answer when asked for a user. A store that says
    /// nothing of itself may answer anything.
    open spec fn finds(&self, user_id: Seq<char>, result: Option<SdzUser>) -> bool {
        true
    }

    /// Looks a user up by id.
    fn find_by_id(&self, user_id: &str) -> (r: Option<SdzUser>)
        ensures
            self.finds(user_id@, r),
    ;
}

/// Looks up the caller's own user.
#[derive(Clone, Copy, Debug)]
pub struct SdzGetCurrentUserUseCase;

impl SdzGetCurrentUserUseCase {
    /// The use case. It holds nothing of its own.
    pub fn new() -> (r: SdzGetCurrentUserUseCase) {
        SdzGetCurrentUserUseCase
    }

    /// The caller's user, as the store has it. A caller whom the store does
    /// not know is not found.
    pub fn execute<R: SdzUserRepository>(&self, repo: &R, auth_user: SdzAuthUser) -> (r: Result<
        SdzUser,
        SdzApiError,
    >)
        ensures
            match r {
                Ok(user) => repo.finds(auth_user.sdz_user_id@, Some(user)),
                Err(e) => e@ == SdzApiErrorView::NotFound && repo.finds(
                    auth_user.sdz_user_id@,
                    None,
                ),
            },
    {
        match repo.find_by_id(auth_user.sdz_user_id.as_str()) {
            Some(user) => Ok(user),
            None => Err(SdzApiError::NotFound),
        }
    }
}

/// Users held in memory, in the order in which they were given.
#[derive(Clone, Debug)]
pub struct SdzInMemoryUserRepository {
    users: Vec<SdzUser>,
}

/// The first user with the given id.
pub open spec fn first_user_with_id(users: Seq<SdzUser>, user_id: Seq<char>) -> Option<SdzUser>
    decreases users.len(),
{
    if users.len() == 0 {
        None
    } else if users[0].sdz_user_id@ == user_id {
        Some(users[0])
    } else {
        first_user_with_id(users.drop_first(), user_id)
    }
}

impl SdzInMemoryUserRepository {
    /// The users held.
    pub closed spec fn users(self) -> Seq<SdzUser> {
        self.users@
    }

    /// A store that holds the given users.
    pub fn new_with_seed(users: Vec<SdzUser>) -> (r: SdzInMemoryUserRepository)
        ensures
            r.users() == users@,
    {
        SdzInMemoryUserRepository { users }
    }
}

impl Default for SdzInMemoryUserRepository {
    /// The store that holds no user.
    fn default() -> (r: SdzInMemoryUserRepository)
        ensures
            r.users().len() == 0,
    {
        SdzInMemoryUserRepository { users: Vec::new() }
    }
}

impl SdzUserRepository for SdzInMemoryUserRepository {
    open spec fn finds(&self, user_id: Seq<char>, result: Option<SdzUser>) -> bool {
        match first_user_with_id(self.users(), user_id) {
            Some(user) => result matches Some(found) && found.sdz_user_id@ == user.sdz_user_id@
                && found.sdz_display_name@ == user.sdz_display_name@ && (match (
                found.sdz_email,
                user.sdz_email,
            ) {
                (Some(a), Some(b)) => a@ == b@,
                (None, None) => true,
                _ => false,
            }),
            None => result is None,
        }
    }

    fn find_by_id(&self, user_id: &str) -> (r: Option<SdzUser>) {
        let mut i: usize = 0;
        assert(self.users@.skip(0) =~= self.users@);
        while i < self.users.len()
            invariant
                i <= self.users.len(),
                first_user_with_id(self.users@, user_id@) == first_user_with_id(
                    self.users@.skip(i as int),
                    user_id@,
                ),
            decreases self.users.len() - i,
        {
            let ghost rest = self.users@.skip(i as int);
            proof {
                assert(rest[0] == self.users@[i as int]);
                assert(rest.drop_first() =~= self.users@.skip(i + 1));
            }
            if sdz_text_eq(self.users[i].sdz_user_id.as_str(), user_id) {
                let user = &self.users[i];
                return Some(
                    SdzUser {
                        sdz_user_id: user.sdz_user_id.clone(),
                        sdz_display_name: user.sdz_display_name.clone(),
                        sdz_email: match &user.sdz_email {
                            Some(email) => Some(email.clone()),
                            None => None,
                        },
                    },
                );
            }
            i += 1;
        }
        None
    }
}

/// What a client sends to put a spot on its list.
#[derive(Clone, Debug)]
pub struct SdzAddMyListInput {
    pub sdz_spot_id: String,
}

/// Puts spots on a user's list.
#[derive(Clone, Copy, Debug)]
pub struct SdzAddMyListUseCase;

impl SdzAddMyListUseCase {
    /// The use case. It holds nothing of its own.
    pub fn new() -> (r: SdzAddMyListUseCase) {
        SdzAddMyListUseCase
    }

    /// Puts a spot on the caller's list. Only a spot that the store of spots
    /// knows can be put there; what the store of lists answers is the
    /// answer.
    pub fn execute<L: SdzPosition, S: SdzSpotRepository<L>, M: SdzMyListRepository>(
        &self,
        mylist_repo: &M,
        spot_repo: &S,
        auth_user: SdzAuthUser,
        input: SdzAddMyListInput,
    ) -> (r: Result<(), SdzApiError>)
        ensures
            exists|found: Result<Option<SdzSpot<L>>, SdzApiError>| #[trigger]
                spot_repo.finds(input.sdz_spot_id@, found) && match found {
                    Err(e) => r == Err::<(), SdzApiError>(e),
                    Ok(None) => r matches Err(e) && e@ == SdzApiErrorView::NotFound,
                    Ok(Some(_)) => mylist_repo.adds(
                        auth_user.sdz_user_id@,
                        input.sdz_spot_id@,
                        r,
                    ),
                },
    {
        let found = spot_repo.find_by_id(input.sdz_spot_id.as_str());
        let ghost witness = found;
        let answer = match found {
            Err(e) => Err(e),
            Ok(None) => Err(SdzApiError::NotFound),
            Ok(Some(_)) => mylist_repo.add(
                auth_user.sdz_user_id.as_str(),
                input.sdz_spot_id.as_str(),
            ),
        };
        proof {
            assert(spot_repo.finds(input.sdz_spot_id@, witness));
        }
        answer
    }
}

/// Takes spots off a user's list.
#[derive(Clone, Copy, Debug)]
pub struct SdzRemoveMyListUseCase;

impl SdzRemoveMyListUseCase {
    /// The use case. It holds nothing of its own.
    pub fn new() -> (r: SdzRemoveMyListUseCase) {
        SdzRemoveMyListUseCase
    }

    /// Takes a spot off the caller's list: what the store of lists answers
    /// is the answer.
    pub fn execute<M: SdzMyListRepository>(
        &self,
        mylist_repo: &M,
        auth_user: SdzAuthUser,
        spot_id: String,
    ) -> (r: Result<(), SdzApiError>)
        ensures
            mylist_repo.removes(auth_user.sdz_user_id@, spot_id@, r),
    {
        mylist_repo.remove(auth_user.sdz_user_id.as_str(), spot_id.as_str())
    }
}

/// No entry is older than one that comes after it.
pub open spec fn newest_first(entries: Seq<SdzMyListEntry>) -> bool {
    forall|i: int, j: int|
        0 <= i < j < entries.len() ==> (#[trigger] entries[i]).created_at.seconds() >= (
        #[trigger] entries[j]).created_at.seconds()
}

/// The test that an entry was put on its list at the second `t`.
pub open spec fn put_at(t: int) -> spec_fn(SdzMyListEntry) -> bool {
    |entry: SdzMyListEntry| entry.created_at.seconds() == t
}

/// Entries of the same second stand in `b` in the order in which they
/// stand in `a`.
pub open spec fn keeps_ties(a: Seq<SdzMyListEntry>, b: Seq<SdzMyListEntry>) -> bool {
    forall|t: int| a.filter(#[trigger] put_at(t)) == b.filter(put_at(t))
}

/// Where no entry passes a test, filtering leaves nothing.
proof fn lemma_filter_none(s: Seq<SdzMyListEntry>, keep: spec_fn(SdzMyListEntry) -> bool)
    requires
        forall|i: int| 0 <= i < s.len() ==> !keep(#[trigger] s[i]),
    ensures
        s.filter(keep) == Seq::<SdzMyListEntry>::empty(),
    decreases s.len(),
{
    reveal(Seq::filter);
    if s.len() > 0 {
        lemma_filter_none(s.drop_last(), keep);
    }
}

/// Filtering a single entry leaves it or nothing.
proof fn lemma_filter_one(x: SdzMyListEntry, keep: spec_fn(SdzMyListEntry) -> bool)
    ensures
        seq![x].filter(keep) == if keep(x) {
            seq![x]
        } else {
            Seq::<SdzMyListEntry>::empty()
        },
{
    reveal(Seq::filter);
    let s = seq![x];
    assert(s.drop_last() =~= Seq::<SdzMyListEntry>::empty());
    assert(s.drop_last().filter(keep) =~= Seq::<SdzMyListEntry>::empty());
    assert(Seq::<SdzMyListEntry>::empty().push(x) =~= seq![x]);
}

/// Putting an entry before the first one that is not newer keeps the order
/// of entries of the same second: what was done to the list is what putting
/// the entry in front of it would have done.
proof fn lemma_insert_keeps_ties(
    out: Seq<SdzMyListEntry>,
    at: int,
    x: SdzMyListEntry,
    suffix: Seq<SdzMyListEntry>,
)
    requires
        0 <= at <= out.len(),
        forall|i: int| 0 <= i < at ==> (#[trigger] out[i]).created_at.seconds()
            > x.created_at.seconds(),
        keeps_ties(out, suffix),
    ensures
        keeps_ties(out.insert(at, x), seq![x] + suffix),
{
    let front = out.subrange(0, at);
    let back = out.subrange(at, out.len() as int);
    assert(out =~= front + back);
    assert(out.insert(at, x) =~= (front + seq![x]) + back);
    assert forall|t: int| out.insert(at, x).filter(#[trigger] put_at(t)) == (seq![x]
        + suffix).filter(put_at(t)) by {
        let keep = put_at(t);
        Seq::filter_distributes_over_add(front, back, keep);
        Seq::filter_distributes_over_add(front, seq![x], keep);
        Seq::filter_distributes_over_add(front + seq![x], back, keep);
        Seq::filter_distributes_over_add(seq![x], suffix, keep);
        lemma_filter_one(x, keep);
        assert(out.filter(keep) == suffix.filter(keep));
        if keep(x) {
            assert forall|i: int| 0 <= i < front.len() implies !keep(#[trigger] front[i]) by {
                assert(front[i] == out[i]);
            }
            lemma_filter_none(front, keep);
            assert(front.filter(keep) + back.filter(keep) =~= back.filter(keep));
            assert((front.filter(keep) + seq![x]) + back.filter(keep) =~= seq![x] + back.filter(
                keep,
            ));
        } else {
            assert(front.filter(keep) + Seq::<SdzMyListEntry>::empty() =~= front.filter(keep));
            assert(Seq::<SdzMyListEntry>::empty() + suffix.filter(keep) =~= suffix.filter(keep));
        }
    }
}

/// Orders the entries of a list by the time at which they were put there,
/// the newest first.
///
/// The result holds the same entries, and entries of the same second stay
/// in the order in which they were given.
pub fn sdz_newest_first(entries: Vec<SdzMyListEntry>) -> (r: Vec<SdzMyListEntry>)
    ensures
        newest_first(r@),
        r@.to_multiset() == entries@.to_multiset(),
        keeps_ties(r@, entries@),
        newest_first(entries@) ==> r@ == entries@,
{
    broadcast use vstd::multiset::group_multiset_axioms;

    let ghost given = entries@;
    let mut rest = entries;
    let mut out: Vec<SdzMyListEntry> = Vec::new();
    proof {
        to_multiset_len(out@);
        assert(out@.to_multiset() =~= Multiset::<SdzMyListEntry>::empty());
        assert(rest@.to_multiset().add(out@.to_multiset()) =~= given.to_multiset());
        assert(rest@.subrange(0, rest@.len() as int) =~= rest@);
        assert(given.subrange(rest@.len() as int, given.len() as int) =~= out@);
    }
    while rest.len() > 0
        invariant
            newest_first(out@),
            keeps_ties(out@, given.subrange(rest@.len() as int, given.len() as int)),
            rest@.to_multiset().add(out@.to_multiset()) == given.to_multiset(),
            rest@.len() + out@.len() == given.len(),
            rest@ == given.subrange(0, rest@.len() as int),
            newest_first(given) ==> out@ == given.subrange(
                rest@.len() as int,
                given.len() as int,
            ),
        decreases rest.len(),
    {
        let ghost rest_before = rest@;
        let ghost out_before = out@;
        let item = rest.pop().unwrap();
        let stamp = item.created_at.unix_seconds();
        proof {
            assert(rest_before =~= rest@.push(item));
            to_multiset_build(rest@, item);
        }
        let mut at: usize = 0;
        while at < out.len() && out[at].created_at.unix_seconds() > stamp
            invariant
                at <= out.len(),
                stamp == item.created_at.seconds(),
                forall|i: int| 0 <= i < at ==> (#[trigger] out@[i]).created_at.seconds() > stamp,
            decreases out.len() - at,
        {
            at += 1;
        }
        out.insert(at, item);
        proof {
            to_multiset_insert(out_before, at as int, item);
            assert(rest_before.to_multiset() =~= rest@.to_multiset().insert(item));
            assert(rest@.to_multiset().add(out@.to_multiset()) =~= given.to_multiset());
            let suffix = given.subrange(rest_before.len() as int, given.len() as int);
            lemma_insert_keeps_ties(out_before, at as int, item, suffix);
            assert(item == given[rest@.len() as int]);
            assert(seq![item] + suffix =~= given.subrange(rest@.len() as int, given.len() as int));
            assert forall|i: int, j: int| 0 <= i < j < out@.len() implies (
            #[trigger] out@[i]).created_at.seconds() >= (#[trigger] out@[j]).created_at.seconds() by {
                if j < at {
                    assert(out@[i] == out_before[i] && out@[j] == out_before[j]);
                } else if j == at {
                    assert(out@[i] == out_before[i]);
                } else if i < at {
                    assert(out@[i] == out_before[i] && out@[j] == out_before[j - 1]);
                } else if i == at {
                    assert(out@[j] == out_before[j - 1]);
                    assert(out_before[at as int].created_at.seconds() <= stamp);
                } else {
                    assert(out@[i] == out_before[i - 1] && out@[j] == out_before[j - 1]);
                }
            }
            assert(rest@ =~= given.subrange(0, rest@.len() as int));
            if newest_first(given) {
                let n = rest@.len() as int;
                assert(item == given[n]);
                if out_before.len() > 0 {
                    assert(out_before[0] == given[n + 1]);
                    assert(at == 0);
                }
                assert(out@ =~= given.subrange(n, given.len() as int));
            }
        }
    }
    proof {
        to_multiset_len(rest@);
        assert(rest@.to_multiset() =~= Multiset::<SdzMyListEntry>::empty());
        assert(rest@.to_multiset().add(out@.to_multiset()) =~= out@.to_multiset());
        assert(given.subrange(rest@.len() as int, given.len() as int) =~= given);
        if newest_first(given) {
            assert(out@ =~= given);
        }
    }
    out
}

/// The spots were found under the ids of the entries at the places `picks`,
/// in the order of the entries, and under the id of every other entry
/// nothing was found.
pub open spec fn found_in_order<L: SdzPosition, S: SdzSpotRepository<L>>(
    spot_repo: &S,
    ordered: Seq<SdzMyListEntry>,
    spots: Seq<SdzSpot<L>>,
    picks: Seq<int>,
) -> bool {
    &&& picks.len() == spots.len()
    &&& forall|i: int| 0 <= i < picks.len() ==> 0 <= #[trigger] picks[i] < ordered.len()
    &&& forall|i: int, j: int| 0 <= i < j < picks.len() ==> #[trigger] picks[i] < #[trigger] picks[j]
    &&& forall|i: int|
        0 <= i < picks.len() ==> spot_repo.finds(
            ordered[#[trigger] picks[i]].sdz_spot_id@,
            Ok(Some(spots[i])),
        )
    &&& forall|k: int|
        0 <= k < ordered.len() && !picks.contains(k) ==> spot_repo.finds(
            (#[trigger] ordered[k]).sdz_spot_id@,
            Ok(None),
        )
}

/// The spots are those of a user's list: the store of lists has answered
/// with `entries`, `ordered` holds the same entries with the newest first
/// and those of the same second in the order given, and the spots were
/// found under the ids of the entries at `picks`.
pub open spec fn is_list_of<L: SdzPosition, S: SdzSpotRepository<L>, M: SdzMyListRepository>(
    mylist_repo: &M,
    spot_repo: &S,
    user_id: Seq<char>,
    entries: Vec<SdzMyListEntry>,
    ordered: Seq<SdzMyListEntry>,
    picks: Seq<int>,
    spots: Seq<SdzSpot<L>>,
) -> bool {
    &&& mylist_repo.lists(user_id, Ok(entries))
    &&& newest_first(ordered)
    &&& ordered.to_multiset() == entries@.to_multiset()
    &&& keeps_ties(ordered, entries@)
    &&& found_in_order(spot_repo, ordered, spots, picks)
}

/// Shows a user's list.
#[derive(Clone, Copy, Debug)]
pub struct SdzListMyListUseCase;

impl SdzListMyListUseCase {
    /// The use case. It holds nothing of its own.
    pub fn new() -> (r: SdzListMyListUseCase) {
        SdzListMyListUseCase
    }

    /// The spots on the caller's list, the one put there last coming first.
    /// An entry whose spot the store of spots does not know is passed over.
    ///
    /// Where a store fails, its error is the answer.
    pub fn execute<L: SdzPosition, S: SdzSpotRepository<L>, M: SdzMyListRepository>(
        &self,
        mylist_repo: &M,
        spot_repo: &S,
        auth_user: SdzAuthUser,
    ) -> (r: Result<Vec<SdzSpot<L>>, SdzApiError>)
        ensures
            r matches Ok(spots) ==> exists|
                entries: Vec<SdzMyListEntry>,
                ordered: Seq<SdzMyListEntry>,
                picks: Seq<int>,
            | #[trigger]
                is_list_of(
                    mylist_repo,
                    spot_repo,
                    auth_user.sdz_user_id@,
                    entries,
                    ordered,
                    picks,
                    spots@,
                ),
            r matches Err(e) ==> mylist_repo.lists(auth_user.sdz_user_id@, Err(e)) || exists|
                spot_id: Seq<char>,
            | #[trigger] spot_repo.finds(spot_id, Err(e)),
    {
        let entries = match mylist_repo.list_by_user(auth_user.sdz_user_id.as_str()) {
            Err(e) => {
                return Err(e);
            },
            Ok(entries) => entries,
        };
        let ghost listed = entries;
        let ordered = sdz_newest_first(entries);
        let mut spots: Vec<SdzSpot<L>> = Vec::new();
        let ghost mut picks: Seq<int> = Seq::empty();
        let mut k: usize = 0;
        while k < ordered.len()
            invariant
                k <= ordered.len(),
                picks.len() == spots@.len(),
                forall|i: int| 0 <= i < picks.len() ==> 0 <= #[trigger] picks[i] < k,
                forall|i: int, j: int|
                    0 <= i < j < picks.len() ==> #[trigger] picks[i] < #[trigger] picks[j],
                forall|i: int|
                    0 <= i < picks.len() ==> spot_repo.finds(
                        ordered@[#[trigger] picks[i]].sdz_spot_id@,
                        Ok(Some(spots@[i])),
                    ),
                forall|m: int|
                    0 <= m < k && !picks.contains(m) ==> spot_repo.finds(
                        (#[trigger] ordered@[m]).sdz_spot_id@,
                        Ok(None),
                    ),
            decreases ordered.len() - k,
        {
            let ghost picks_before = picks;
            let ghost spots_before = spots@;
            match spot_repo.find_by_id(ordered[k].sdz_spot_id.as_str()) {
                Err(e) => {
                    proof {
                        assert(spot_repo.finds(ordered@[k as int].sdz_spot_id@, Err(e)));
                    }
                    return Err(e);
                },
                Ok(Some(spot)) => {
                    spots.push(spot);
                    proof {
                        picks = picks.push(k as int);
                        assert forall|i: int| 0 <= i < picks.len() implies spot_repo.finds(
                            ordered@[#[trigger] picks[i]].sdz_spot_id@,
                            Ok(Some(spots@[i])),
                        ) by {
                            if i < picks_before.len() {
                                assert(picks[i] == picks_before[i]);
                                assert(spots@[i] == spots_before[i]);
                            }
                        }
                        assert forall|m: int|
                            0 <= m < k + 1 && !picks.contains(m) implies spot_repo.finds(
                            (#[trigger] ordered@[m]).sdz_spot_id@,
                            Ok(None),
                        ) by {
                            assert(picks[picks.len() - 1] == k);
                            if m < k {
                                if picks_before.contains(m) {
                                    let w = choose|w: int|
                                        0 <= w < picks_before.len() && picks_before[w] == m;
                                    assert(picks[w] == m);
                                }
                            }
                        }
                    }
                },
                Ok(None) => {
                    proof {
                        assert forall|m: int|
                            0 <= m < k + 1 && !picks.contains(m) implies spot_repo.finds(
                            (#[trigger] ordered@[m]).sdz_spot_id@,
                            Ok(None),
                        ) by {}
                    }
                },
            }
            k += 1;
        }
        let answer: Result<Vec<SdzSpot<L>>, SdzApiError> = Ok(spots);
        proof {
            assert(found_in_order(spot_repo, ordered@, answer->Ok_0@, picks));
            assert(is_list_of(
                mylist_repo,
                spot_repo,
                auth_user.sdz_user_id@,
                listed,
                ordered@,
                picks,
                answer->Ok_0@,
            ));
        }
        answer
    }
}

} // verus!
