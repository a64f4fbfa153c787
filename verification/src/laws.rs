//! What holds of the store and of the session over several operations, proved
//! from the model.
use crate::error::ErrorKind;
use crate::model::{with_pair, without_pair, ListingView, Pair, StoreView, UserView};
use crate::sorting::SortOrder;
use crate::statemanager::{valid_permission_level, SessionView, UserStateView};
use vstd::prelude::*;

verus! {

/// Inserting a user keeps the invariant of the store.
pub proof fn lemma_insert_user_keeps_invariant(store: StoreView, row: UserView)
    requires
        store.wf(),
    ensures
        store.insert_user(row) matches Ok(next) ==> next.wf(),
{
}

/// Inserting a listing keeps the invariant of the store.
pub proof fn lemma_insert_listing_keeps_invariant(store: StoreView, row: ListingView)
    requires
        store.wf(),
    ensures
        store.insert_listing(row) matches Ok(next) ==> next.wf(),
{
}

/// A user whose username or email is in use is refused with
/// `UniquenessViolation`, whatever else the row holds.
pub proof fn lemma_used_name_or_email_is_refused(store: StoreView, row: UserView)
    requires
        store.username_taken(row.username) || store.email_taken(row.email),
    ensures
        store.insert_user(row) == Err::<StoreView, ErrorKind>(ErrorKind::UniquenessViolation),
{
}

/// After a user was inserted, a second user with the same username or the
/// same email is refused with `UniquenessViolation`.
pub proof fn lemma_second_user_is_refused(store: StoreView, first: UserView, second: UserView)
    requires
        store.insert_user(first) is Ok,
        second.username == first.username || second.email == first.email,
    ensures
        store.insert_user(first)->Ok_0.insert_user(second) == Err::<StoreView, ErrorKind>(
            ErrorKind::UniquenessViolation,
        ),
{
    let next = store.insert_user(first)->Ok_0;
    let at = store.users.len() as int;
    assert(next.users[at].username == first.username);
    assert(next.users[at].email == first.email);
}

/// A user with a fresh username and a fresh email is inserted, as long as an
/// identifier is left, and can then be found by username and signs in with
/// the stored hash.
pub proof fn lemma_fresh_user_is_inserted(store: StoreView, row: UserView)
    requires
        store.wf(),
        !store.username_taken(row.username),
        !store.email_taken(row.email),
        store.last_user_id < i64::MAX,
    ensures
        store.insert_user(row) is Ok,
        store.insert_user(row)->Ok_0.user_named(row.username) == Some(
            UserView { id: (store.last_user_id + 1) as i64, ..row },
        ),
        store.insert_user(row)->Ok_0.credentials_match(row.username, row.password_hash),
{
    let next = store.insert_user(row)->Ok_0;
    let at = store.users.len() as int;
    assert(next.users[at] == UserView { id: (store.last_user_id + 1) as i64, ..row });
    assert(next.username_taken(row.username));
    let chosen = choose|i: int|
        0 <= i < next.users.len() && (#[trigger] next.users[i]).username == row.username;
    if chosen < at {
        assert(store.users[chosen].username == row.username);
    }
}

/// No operation deletes or changes a user: after each of them the users that
/// were there are still there, in their places.
pub proof fn lemma_users_are_kept(
    store: StoreView,
    user: UserView,
    listing: ListingView,
    id: i64,
    pair: Pair,
)
    ensures
        store.insert_user(user) matches Ok(next) ==> next.users.take(store.users.len() as int)
            == store.users,
        store.insert_listing(listing) matches Ok(next) ==> next.users == store.users,
        store.view_listing(id) matches Ok(next) ==> next.users == store.users,
        store.add_favourite(pair.0, pair.1).users == store.users,
        store.remove_favourite(pair.0, pair.1).users == store.users,
        store.add_visited(pair.0, pair.1).users == store.users,
        store.remove_visited(pair.0, pair.1).users == store.users,
{
    if let Ok(next) = store.insert_user(user) {
        assert(next.users.take(store.users.len() as int) =~= store.users);
    }
}

/// The view counter of a listing never falls: a registered view raises the
/// counter of its listing by one and leaves every other listing as it was,
/// and no other operation touches a listing that is there.
pub proof fn lemma_views_never_fall(
    store: StoreView,
    user: UserView,
    listing: ListingView,
    id: i64,
    at: int,
)
    requires
        store.wf(),
        0 <= at < store.listings.len(),
    ensures
        store.insert_user(user) matches Ok(next) ==> next.listings == store.listings,
        store.insert_listing(listing) matches Ok(next) ==> next.listings[at] == store.listings[at],
        store.view_listing(id) matches Ok(next) ==> next.listings.len() == store.listings.len()
            && next.listings[at] == (ListingView {
            views: (store.listings[at].views + if store.listings[at].id == id {
                1int
            } else {
                0int
            }) as u64,
            ..store.listings[at]
        }),
{
    if store.has_listing(id) {
        let found = store.listing_index(id);
        if store.listings[at].id == id && found != at {
            assert(store.listings[found].id == store.listings[at].id);
        }
    }
}

/// Setting a state with one of the three permission levels succeeds, makes
/// it the current state and queues exactly that state, once, behind what was
/// queued. Somebody is signed in afterwards unless the level is `none`.
pub proof fn lemma_set_user_state_queues_the_state(
    session: SessionView,
    username: Seq<char>,
    permission_level: Seq<char>,
)
    requires
        valid_permission_level(permission_level),
    ensures
        session.set_user_state(username, permission_level) is Ok,
        session.set_user_state(username, permission_level)->Ok_0.wf(),
        session.set_user_state(username, permission_level)->Ok_0.state == (UserStateView {
            username,
            permission_level,
        }),
        session.set_user_state(username, permission_level)->Ok_0.pending == session.pending.push(
            UserStateView { username, permission_level },
        ),
        session.set_user_state(username, permission_level)->Ok_0.state.authenticated()
            <==> permission_level != "none"@,
{
    reveal_strlit("none");
    reveal_strlit("regular");
    reveal_strlit("admin");
    assert("none"@.len() != "regular"@.len());
    assert("none"@.len() != "admin"@.len());
}

/// A permission level that is none of the three is refused with
/// `InvalidPermissionLevel`.
pub proof fn lemma_unknown_level_is_refused(
    session: SessionView,
    username: Seq<char>,
    permission_level: Seq<char>,
)
    requires
        !valid_permission_level(permission_level),
    ensures
        session.set_user_state(username, permission_level) == Err::<SessionView, ErrorKind>(
            ErrorKind::InvalidPermissionLevel,
        ),
{
}

/// Signing out resets the state whatever it was, and signing out again
/// changes nothing more.
pub proof fn lemma_log_out_resets(session: SessionView)
    ensures
        session.log_out().state == UserStateView::signed_out(),
        !session.log_out().state.authenticated(),
        session.log_out().log_out() == session.log_out(),
{
    assert(!UserStateView::signed_out().authenticated()) by {
        reveal_strlit("none");
        reveal_strlit("regular");
        reveal_strlit("admin");
        assert("none"@.len() != "regular"@.len());
        assert("none"@.len() != "admin"@.len());
    }
}

/// The store after `n` views of the listing `id` were registered one after
/// the other, or the failure of the first that was refused.
pub open spec fn viewed_times(store: StoreView, id: i64, n: nat) -> Result<StoreView, ErrorKind>
    decreases n,
{
    if n == 0 {
        Ok(store)
    } else {
        match viewed_times(store, id, (n - 1) as nat) {
            Ok(before) => before.view_listing(id),
            Err(e) => Err(e),
        }
    }
}

/// Registering `n` views of a listing raises its counter by exactly `n`, as
/// long as the counter has room for them, and changes nothing else.
pub proof fn lemma_views_add_up(store: StoreView, id: i64, n: nat)
    requires
        store.wf(),
        store.has_listing(id),
        store.listing(id).views + n <= u64::MAX,
    ensures
        viewed_times(store, id, n) is Ok,
        viewed_times(store, id, n)->Ok_0.wf(),
        viewed_times(store, id, n)->Ok_0 == (StoreView {
            listings: store.listings.update(
                store.listing_index(id),
                ListingView { views: (store.listing(id).views + n) as u64, ..store.listing(id) },
            ),
            ..store
        }),
    decreases n,
{
    let at = store.listing_index(id);
    if n == 0 {
        assert(store.listings.update(at, store.listing(id)) =~= store.listings);
    } else {
        lemma_views_add_up(store, id, (n - 1) as nat);
        let before = viewed_times(store, id, (n - 1) as nat)->Ok_0;
        assert(before.listings[at].id == id);
        assert(before.has_listing(id));
        let found = before.listing_index(id);
        if found != at {
            assert(before.listings[found] == store.listings[found]);
            assert(store.listings[found].id == id);
        }
        let after = before.view_listing(id)->Ok_0;
        assert(after.listings =~= store.listings.update(
            at,
            ListingView { views: (store.listing(id).views + n) as u64, ..store.listing(id) },
        ));
        assert forall|i: int| 0 <= i < after.listings.len() implies (
        #[trigger] after.listings[i]).id == store.listings[i].id && after.listings[i].valid() by {
            if i != at {
                assert(after.listings[i] == store.listings[i]);
            }
        }
    }
}

/// Starring a listing twice leaves exactly one row for the pair, and the
/// second call changes nothing.
pub proof fn lemma_favourite_is_held_once(store: StoreView, user_id: i64, listing_id: i64)
    requires
        store.wf(),
    ensures
        store.add_favourite(user_id, listing_id).wf(),
        store.add_favourite(user_id, listing_id).add_favourite(user_id, listing_id)
            == store.add_favourite(user_id, listing_id),
        store.add_favourite(user_id, listing_id).favourites.contains((user_id, listing_id)),
        forall|i: int, j: int|
            #![trigger
                store.add_favourite(user_id, listing_id).favourites[i],
                store.add_favourite(user_id, listing_id).favourites[j]
            ]
            {
                let rows = store.add_favourite(user_id, listing_id).favourites;
                0 <= i < rows.len() && 0 <= j < rows.len() && rows[i] == (user_id, listing_id)
                    && rows[j] == (user_id, listing_id) ==> i == j
            },
{
    let pair = (user_id, listing_id);
    let rows = with_pair(store.favourites, pair);
    if !store.favourites.contains(pair) {
        assert(rows[store.favourites.len() as int] == pair);
    }
    assert(rows.no_duplicates());
}

/// Taking off a star that is not there changes nothing; taking off one that
/// is there leaves no row for the pair and keeps every other row.
pub proof fn lemma_remove_favourite(store: StoreView, user_id: i64, listing_id: i64)
    requires
        store.wf(),
    ensures
        store.remove_favourite(user_id, listing_id).wf(),
        !store.favourites.contains((user_id, listing_id)) ==> store.remove_favourite(
            user_id,
            listing_id,
        ) == store,
        !store.remove_favourite(user_id, listing_id).favourites.contains((user_id, listing_id)),
        forall|other: Pair|
            other != (user_id, listing_id) ==> (#[trigger] store.remove_favourite(
                user_id,
                listing_id,
            ).favourites.contains(other) <==> store.favourites.contains(other)),
{
    let pair = (user_id, listing_id);
    let rows = store.favourites;
    let left = without_pair(rows, pair);
    if rows.contains(pair) {
        let at = rows.index_of(pair);
        assert(left =~= rows.remove(at));
        assert forall|i: int, j: int| 0 <= i < left.len() && 0 <= j < left.len() && i
            != j implies left[i] != left[j] by {
            let a = if i < at { i } else { i + 1 };
            let b = if j < at { j } else { j + 1 };
            assert(left[i] == rows[a] && left[j] == rows[b]);
        }
        assert forall|i: int| 0 <= i < left.len() implies left[i] != pair by {
            let a = if i < at { i } else { i + 1 };
            assert(left[i] == rows[a]);
        }
        assert forall|other: Pair| other != pair implies (left.contains(other) <==> rows.contains(
            other,
        )) by {
            if rows.contains(other) {
                let a = rows.index_of(other);
                let i = if a < at { a } else { a - 1 };
                assert(left[i] == other);
            }
            if left.contains(other) {
                let i = left.index_of(other);
                let a = if i < at { i } else { i + 1 };
                assert(rows[a] == other);
            }
        }
    }
}

/// A listing without a price comes before every priced listing by ascending
/// price, and after every priced listing by descending price.
pub proof fn lemma_absent_price_ranks_lowest(absent: ListingView, priced: ListingView)
    requires
        absent.price is None,
        priced.price is Some,
    ensures
        SortOrder::PriceAsc.precedes(absent, priced),
        SortOrder::PriceDesc.precedes(priced, absent),
{
}

/// The first `k` rows of two arrangements of one table are the same.
proof fn lemma_arrangements_agree_through(
    order: SortOrder,
    table: Seq<ListingView>,
    first: Seq<ListingView>,
    second: Seq<ListingView>,
    k: nat,
)
    requires
        order.arranges(table, first),
        order.arranges(table, second),
        k <= first.len(),
    ensures
        forall|j: int| 0 <= j < k ==> first[j] == second[j],
    decreases k,
{
    if k > 0 {
        lemma_arrangements_agree_through(order, table, first, second, (k - 1) as nat);
        let at = k - 1;
        assert(table.contains(first[at]));
        assert(second.contains(first[at]));
        let m = second.index_of(first[at]);
        assert(table.contains(second[at]));
        assert(first.contains(second[at]));
        let n = first.index_of(second[at]);
        if m < at {
            assert(first[m] == second[m]);
            assert(order.precedes(first[m], first[at]));
        }
        if n < at {
            assert(second[n] == first[n]);
            assert(order.precedes(second[n], second[at]));
        }
        if m > at && n > at {
            assert(order.precedes(second[at], second[m]));
            assert(order.precedes(first[at], first[n]));
        }
    }
}

/// A table has one arrangement in each order: two listings of it that both
/// meet the contract of retrieval are the same.
pub proof fn lemma_arrangement_is_unique(
    order: SortOrder,
    table: Seq<ListingView>,
    first: Seq<ListingView>,
    second: Seq<ListingView>,
)
    requires
        order.arranges(table, first),
        order.arranges(table, second),
    ensures
        first == second,
{
    lemma_arrangements_agree_through(order, table, first, second, first.len());
    assert(first =~= second);
}

} // verus!
