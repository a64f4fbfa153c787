//! The store of user accounts and equipment listings, and its operations.
//!
//! Rows are kept in insertion order. Identifiers are handed out in sequence,
//! starting at 1, and never used twice.
use crate::credentials::{hash, hash_spec, salt, salt_spec};
use crate::error::ErrorKind;
use crate::model::{
    related_to, valid_condition, valid_price_type, with_pair, without_pair, ListingView, Pair,
    StoreView, UserView, MAX_YEAR, MIN_YEAR,
};
use crate::records::{listing_views, own_text, user_views, Listing, User};
use crate::sorting::{arrangement, SortOrder};
use crate::statemanager::{set_user_state, Session, SessionView};
use crate::text::same_text;
use vstd::prelude::*;
use vstd::string::*;

verus! {

/// The store: users, listings, and the favourite and visited relations.
pub struct Store {
    users: Vec<User>,
    listings: Vec<Listing>,
    favourites: Vec<(i64, i64)>,
    visited: Vec<(i64, i64)>,
    last_user_id: i64,
    last_listing_id: i64,
}

impl View for Store {
    type V = StoreView;

    closed spec fn view(&self) -> StoreView {
        StoreView {
            users: user_views(self.users@),
            listings: listing_views(self.listings@),
            favourites: self.favourites@,
            visited: self.visited@,
            last_user_id: self.last_user_id,
            last_listing_id: self.last_listing_id,
        }
    }
}

impl Store {
    /// Whether the store meets its invariant. Every store that this crate
    /// hands out does, and every operation keeps it.
    pub open spec fn wf(&self) -> bool {
        self@.wf()
    }

    /// A store without rows.
    pub fn new() -> (store: Store)
        ensures
            store.wf(),
            store@ == StoreView::empty(),
    {
        Store {
            users: Vec::new(),
            listings: Vec::new(),
            favourites: Vec::new(),
            visited: Vec::new(),
            last_user_id: 0,
            last_listing_id: 0,
        }
    }
}

/// Whether the identifiers of `users` lie in `1..=last` and grow with the
/// position.
fn users_in_order(users: &Vec<User>, last: i64) -> (ok: bool)
    ensures
        ok == ((forall|i: int| 0 <= i < users.len() ==> 1 <= (#[trigger] users[i]).id <= last)
            && (forall|i: int, j: int|
            0 <= i < j < users.len() ==> (#[trigger] users[i]).id < (#[trigger] users[j]).id)),
{
    let mut i: usize = 0;
    while i < users.len()
        invariant
            i <= users.len(),
            forall|k: int| 0 <= k < i ==> 1 <= (#[trigger] users[k]).id <= last,
            forall|a: int, b: int|
                0 <= a < b < i ==> (#[trigger] users[a]).id < (#[trigger] users[b]).id,
        decreases users.len() - i,
    {
        if users[i].id < 1 || users[i].id > last {
            return false;
        }
        if i > 0 && users[i - 1].id >= users[i].id {
            return false;
        }
        proof {
            assert forall|a: int, b: int| 0 <= a < b < i + 1 implies (#[trigger] users[a]).id < (
            #[trigger] users[b]).id by {
                if b == i && a < i - 1 {
                    assert(users[a].id < users[i - 1].id);
                }
            }
        }
        i += 1;
    }
    true
}

/// Whether no two of `users` share a username or an email.
fn users_are_distinct(users: &Vec<User>) -> (ok: bool)
    ensures
        ok == (forall|i: int, j: int|
            0 <= i < j < users.len() ==> (#[trigger] users[i])@.username != (
            #[trigger] users[j])@.username && users[i]@.email != users[j]@.email),
{
    let mut j: usize = 0;
    while j < users.len()
        invariant
            j <= users.len(),
            forall|a: int, b: int|
                0 <= a < b < j ==> (#[trigger] users[a])@.username != (
                #[trigger] users[b])@.username && users[a]@.email != users[b]@.email,
        decreases users.len() - j,
    {
        let mut i: usize = 0;
        while i < j
            invariant
                i <= j,
                j < users.len(),
                forall|a: int|
                    0 <= a < i ==> (#[trigger] users[a])@.username != users[j as int]@.username
                        && users[a]@.email != users[j as int]@.email,
            decreases j - i,
        {
            if same_text(users[i].username.as_str(), users[j].username.as_str()) || same_text(
                users[i].email.as_str(),
                users[j].email.as_str(),
            ) {
                assert(users[i as int]@.username == users[j as int]@.username || users[i as int]@.email
                    == users[j as int]@.email);
                return false;
            }
            i += 1;
        }
        j += 1;
    }
    true
}

/// Whether the identifiers of `listings` lie in `1..=last` and grow with the
/// position, and every listing meets its constraints.
fn listings_in_order(listings: &Vec<Listing>, last: i64) -> (ok: bool)
    ensures
        ok == ((forall|i: int|
            0 <= i < listings.len() ==> 1 <= (#[trigger] listings[i]).id <= last
                && listings[i]@.valid()) && (forall|i: int, j: int|
            0 <= i < j < listings.len() ==> (#[trigger] listings[i]).id < (
            #[trigger] listings[j]).id)),
{
    let mut i: usize = 0;
    while i < listings.len()
        invariant
            i <= listings.len(),
            forall|k: int|
                0 <= k < i ==> 1 <= (#[trigger] listings[k]).id <= last && listings[k]@.valid(),
            forall|a: int, b: int|
                0 <= a < b < i ==> (#[trigger] listings[a]).id < (#[trigger] listings[b]).id,
        decreases listings.len() - i,
    {
        let row = &listings[i];
        if row.id < 1 || row.id > last {
            return false;
        }
        if !is_valid_price_type(row.price_type.as_str()) || !is_valid_condition(
            row.condition.as_str(),
        ) || row.year_of_manufacture < MIN_YEAR || row.year_of_manufacture > MAX_YEAR {
            assert(!listings[i as int]@.valid());
            return false;
        }
        if i > 0 && listings[i - 1].id >= row.id {
            return false;
        }
        proof {
            assert forall|a: int, b: int| 0 <= a < b < i + 1 implies (#[trigger] listings[a]).id
                < (#[trigger] listings[b]).id by {
                if b == i && a < i - 1 {
                    assert(listings[a].id < listings[i - 1].id);
                }
            }
        }
        i += 1;
    }
    true
}

/// Whether `rows` holds no pair twice.
fn pairs_are_distinct(rows: &Vec<Pair>) -> (ok: bool)
    ensures
        ok == rows@.no_duplicates(),
{
    let mut j: usize = 0;
    while j < rows.len()
        invariant
            j <= rows.len(),
            forall|a: int, b: int| 0 <= a < b < j ==> rows[a] != rows[b],
        decreases rows.len() - j,
    {
        let mut i: usize = 0;
        while i < j
            invariant
                i <= j,
                j < rows.len(),
                forall|a: int| 0 <= a < i ==> rows[a] != rows[j as int],
            decreases j - i,
        {
            if rows[i].0 == rows[j].0 && rows[i].1 == rows[j].1 {
                assert(rows[i as int] == rows[j as int]);
                return false;
            }
            i += 1;
        }
        j += 1;
    }
    assert forall|a: int, b: int| 0 <= a < rows.len() && 0 <= b < rows.len() && a != b implies rows[a]
        != rows[b] by {
        if a < b {
            assert(rows[a] != rows[b]);
        } else {
            assert(rows[b] != rows[a]);
        }
    }
    true
}

/// The view of a store that holds these rows.
pub open spec fn rows_view(
    users: Seq<User>,
    listings: Seq<Listing>,
    favourites: Seq<Pair>,
    visited: Seq<Pair>,
    last_user_id: i64,
    last_listing_id: i64,
) -> StoreView {
    StoreView {
        users: user_views(users),
        listings: listing_views(listings),
        favourites,
        visited,
        last_user_id,
        last_listing_id,
    }
}

impl Store {
    /// Rebuilds a store from rows that were kept elsewhere: both tables in the
    /// order of their identifiers, the two relations, and the last identifier
    /// that each table has handed out.
    ///
    /// Gives the store exactly when the rows meet the invariant of a store, and
    /// `None` otherwise.
    pub fn from_rows(
        users: Vec<User>,
        listings: Vec<Listing>,
        favourites: Vec<Pair>,
        visited: Vec<Pair>,
        last_user_id: i64,
        last_listing_id: i64,
    ) -> (rebuilt: Option<Store>)
        ensures
            match rebuilt {
                Some(store) => store.wf() && store@ == rows_view(
                    users@,
                    listings@,
                    favourites@,
                    visited@,
                    last_user_id,
                    last_listing_id,
                ),
                None => !rows_view(
                    users@,
                    listings@,
                    favourites@,
                    visited@,
                    last_user_id,
                    last_listing_id,
                ).wf(),
            },
    {
        let ghost view = rows_view(
            users@,
            listings@,
            favourites@,
            visited@,
            last_user_id,
            last_listing_id,
        );
        if last_user_id < 0 || last_listing_id < 0 {
            return None;
        }
        if !users_in_order(&users, last_user_id) {
            proof {
                if view.wf() {
                    assert forall|i: int| 0 <= i < users.len() implies 1 <= (#[trigger] users[i]).id
                        <= last_user_id by {
                        assert(view.users[i].id == users[i].id);
                    }
                    assert forall|i: int, j: int| 0 <= i < j < users.len() implies (
                    #[trigger] users[i]).id < (#[trigger] users[j]).id by {
                        assert(view.users[i].id < view.users[j].id);
                    }
                }
            }
            return None;
        }
        if !users_are_distinct(&users) {
            proof {
                if view.wf() {
                    assert forall|i: int, j: int| 0 <= i < j < users.len() implies (
                    #[trigger] users[i])@.username != (#[trigger] users[j])@.username
                        && users[i]@.email != users[j]@.email by {
                        assert(view.users[i].username != view.users[j].username);
                        assert(view.users[i].email != view.users[j].email);
                    }
                }
            }
            return None;
        }
        if !listings_in_order(&listings, last_listing_id) {
            proof {
                if view.wf() {
                    assert forall|i: int| 0 <= i < listings.len() implies 1 <= (
                    #[trigger] listings[i]).id <= last_listing_id && listings[i]@.valid() by {
                        assert(view.listings[i] == listings[i]@);
                    }
                    assert forall|i: int, j: int| 0 <= i < j < listings.len() implies (
                    #[trigger] listings[i]).id < (#[trigger] listings[j]).id by {
                        assert(view.listings[i].id < view.listings[j].id);
                    }
                }
            }
            return None;
        }
        if !pairs_are_distinct(&favourites) || !pairs_are_distinct(&visited) {
            return None;
        }
        proof {
            assert forall|i: int| 0 <= i < view.users.len() implies 1 <= (#[trigger] view.users[i]).id
                <= view.last_user_id by {
                assert(view.users[i].id == users[i].id);
            }
            assert forall|i: int, j: int| 0 <= i < j < view.users.len() implies (
            #[trigger] view.users[i]).id < (#[trigger] view.users[j]).id && view.users[i].username
                != view.users[j].username && view.users[i].email != view.users[j].email by {
                assert(users[i].id < users[j].id);
                assert(users[i]@.username != users[j]@.username);
            }
            assert forall|i: int| 0 <= i < view.listings.len() implies 1 <= (
            #[trigger] view.listings[i]).id <= view.last_listing_id && view.listings[i].valid() by {
                assert(view.listings[i] == listings[i]@);
                assert(1 <= listings[i].id);
            }
            assert forall|i: int, j: int| 0 <= i < j < view.listings.len() implies (
            #[trigger] view.listings[i]).id < (#[trigger] view.listings[j]).id by {
                assert(listings[i].id < listings[j].id);
            }
        }
        Some(Store { users, listings, favourites, visited, last_user_id, last_listing_id })
    }
}

/// Inserts a user whose password hash is already computed.
///
/// The row gets the next identifier. The insertion is refused, and the store
/// left as it was, where the username or the email is in use
/// (`UniquenessViolation`) or no identifier is left (`StorageUnavailable`).
pub fn insert_user(
    store: &mut Store,
    username: &str,
    email: &str,
    password_hash: String,
    full_name: &str,
    phone: &str,
    created_at: u64,
) -> (result: Result<(), ErrorKind>)
    requires
        old(store).wf(),
    ensures
        final(store).wf(),
        match old(store)@.insert_user(
            UserView {
                id: 0,
                username: username@,
                email: email@,
                password_hash: password_hash@,
                full_name: full_name@,
                phone: phone@,
                created_at,
            },
        ) {
            Ok(next) => result is Ok && final(store)@ == next,
            Err(e) => result == Err::<(), ErrorKind>(e) && final(store)@ == old(store)@,
        },
{
    let mut i: usize = 0;
    while i < store.users.len()
        invariant
            i <= store.users.len(),
            *store == *old(store),
            store.wf(),
            forall|k: int|
                0 <= k < i ==> (#[trigger] store@.users[k]).username != username@
                    && store@.users[k].email != email@,
        decreases store.users.len() - i,
    {
        if same_text(store.users[i].username.as_str(), username) || same_text(
            store.users[i].email.as_str(),
            email,
        ) {
            assert(store@.users[i as int].username == username@ || store@.users[i as int].email
                == email@);
            return Err(ErrorKind::UniquenessViolation);
        }
        i += 1;
    }
    if store.last_user_id >= i64::MAX {
        return Err(ErrorKind::StorageUnavailable);
    }
    let id = store.last_user_id + 1;
    let user = User {
        id,
        username: username.to_owned(),
        email: email.to_owned(),
        password_hash,
        full_name: full_name.to_owned(),
        phone: phone.to_owned(),
        created_at,
    };
    store.last_user_id = id;
    store.users.push(user);
    proof {
        assert(store@.users =~= old(store)@.users.push(user@));
    }
    Ok(())
}

/// Adds a user. The password is stored as its hash with the shared salt and
/// the username.
///
/// Refused, with the store left as it was, where the username or the email is
/// in use (`UniquenessViolation`) or no identifier is left
/// (`StorageUnavailable`).
pub fn add_user(
    store: &mut Store,
    username: &str,
    email: &str,
    password: &str,
    full_name: &str,
    phone: &str,
    created_at: u64,
) -> (result: Result<(), ErrorKind>)
    requires
        old(store).wf(),
    ensures
        final(store).wf(),
        match old(store)@.insert_user(
            UserView {
                id: 0,
                username: username@,
                email: email@,
                password_hash: hash_spec(salt_spec(), password@, username@),
                full_name: full_name@,
                phone: phone@,
                created_at,
            },
        ) {
            Ok(next) => result is Ok && final(store)@ == next,
            Err(e) => result == Err::<(), ErrorKind>(e) && final(store)@ == old(store)@,
        },
{
    let password_hash = hash(salt(), password, username);
    insert_user(store, username, email, password_hash, full_name, phone, created_at)
}

/// Whether `text` names a price type that a listing may carry.
pub fn is_valid_price_type(text: &str) -> (valid: bool)
    ensures
        valid == valid_price_type(text@),
{
    same_text(text, "fixed") || same_text(text, "negotiable") || same_text(text, "on request")
}

/// Whether `text` names a condition that a listing may carry.
pub fn is_valid_condition(text: &str) -> (valid: bool)
    ensures
        valid == valid_condition(text@),
{
    same_text(text, "new") || same_text(text, "good as new") || same_text(text, "used")
        || same_text(text, "heavily used")
}

/// Creates a listing attributed to `user_id`, with no views yet.
///
/// The row gets the next identifier. Nothing checks who the caller is, nor
/// that `user_id` names a user. The listing is refused, and the store left as
/// it was, where the price type or the condition is none of those admitted or
/// the year lies outside 1800..=2025 (`ConstraintViolation`), or where no
/// identifier is left (`StorageUnavailable`).
pub fn create_listing(
    store: &mut Store,
    title: &str,
    price: Option<i64>,
    price_type: &str,
    condition: &str,
    location: &str,
    picture_url: Option<&str>,
    description: Option<&str>,
    make: &str,
    model: &str,
    vehicle_type: &str,
    year_of_manufacture: i32,
    fuel_or_power: &str,
    weight: Option<i64>,
    user_id: i32,
    created_at: u64,
) -> (result: Result<(), ErrorKind>)
    requires
        old(store).wf(),
    ensures
        final(store).wf(),
        match old(store)@.insert_listing(
            ListingView {
                id: 0,
                title: title@,
                price,
                price_type: price_type@,
                condition: condition@,
                location: location@,
                picture_url: match picture_url {
                    Some(t) => Some(t@),
                    None => None,
                },
                description: match description {
                    Some(t) => Some(t@),
                    None => None,
                },
                make: make@,
                model: model@,
                vehicle_type: vehicle_type@,
                year_of_manufacture,
                fuel_or_power: fuel_or_power@,
                weight,
                views: 0,
                user_id: user_id as i64,
                created_at,
            },
        ) {
            Ok(next) => result is Ok && final(store)@ == next,
            Err(e) => result == Err::<(), ErrorKind>(e) && final(store)@ == old(store)@,
        },
{
    if !is_valid_price_type(price_type) || !is_valid_condition(condition) || year_of_manufacture
        < MIN_YEAR || year_of_manufacture > MAX_YEAR {
        return Err(ErrorKind::ConstraintViolation);
    }
    if store.last_listing_id >= i64::MAX {
        return Err(ErrorKind::StorageUnavailable);
    }
    let id = store.last_listing_id + 1;
    let listing = Listing {
        id,
        title: title.to_owned(),
        price,
        price_type: price_type.to_owned(),
        condition: condition.to_owned(),
        location: location.to_owned(),
        picture_url: own_text(picture_url),
        description: own_text(description),
        make: make.to_owned(),
        model: model.to_owned(),
        vehicle_type: vehicle_type.to_owned(),
        year_of_manufacture,
        fuel_or_power: fuel_or_power.to_owned(),
        weight,
        views: 0,
        user_id: user_id as i64,
        created_at,
    };
    store.last_listing_id = id;
    store.listings.push(listing);
    proof {
        assert(store@.listings =~= old(store)@.listings.push(listing@));
    }
    Ok(())
}

/// Registers one view of the listing `id`: its counter grows by one, and
/// nothing else in the store changes.
///
/// Refused, with the store left as it was, where no listing has the
/// identifier (`NotFound`) or the counter is at the end of its range
/// (`ConstraintViolation`).
pub fn view_listing(store: &mut Store, id: i16) -> (result: Result<(), ErrorKind>)
    requires
        old(store).wf(),
    ensures
        final(store).wf(),
        match old(store)@.view_listing(id as i64) {
            Ok(next) => result is Ok && final(store)@ == next,
            Err(e) => result == Err::<(), ErrorKind>(e) && final(store)@ == old(store)@,
        },
{
    let wanted = id as i64;
    let mut i: usize = 0;
    while i < store.listings.len()
        invariant
            i <= store.listings.len(),
            *store == *old(store),
            store.wf(),
            wanted == id,
            forall|k: int| 0 <= k < i ==> (#[trigger] store@.listings[k]).id != wanted,
        decreases store.listings.len() - i,
    {
        if store.listings[i].id == wanted {
            assert(store@.listings[i as int].id == wanted);
            assert(store@.listing_index(wanted) == i);
            if store.listings[i].views >= u64::MAX {
                return Err(ErrorKind::ConstraintViolation);
            }
            let mut viewed = store.listings[i].clone();
            viewed.views = viewed.views + 1;
            store.listings.set(i, viewed);
            proof {
                assert(store@.listings =~= old(store)@.listings.update(i as int, viewed@));
            }
            return Ok(());
        }
        i += 1;
    }
    Err(ErrorKind::NotFound)
}

/// Lists every listing, in the order that `ordering` names: `price_asc`,
/// `price_desc`, `date_desc`, or by views with the most viewed first for any
/// other text.
///
/// Listings of equal rank come in the order of insertion. A listing without a
/// price ranks below every price.
pub fn get_listings(store: &Store, ordering: &str) -> (listed: Vec<Listing>)
    requires
        store.wf(),
    ensures
        SortOrder::named(ordering@).arranges(store@.listings, listing_views(listed@)),
{
    let order = SortOrder::parse(ordering);
    proof {
        assert forall|i: int, j: int| 0 <= i < j < store.listings.len() implies store.listings[i].id
            < store.listings[j].id by {
            assert(store@.listings[i].id < store@.listings[j].id);
        }
    }
    let positions = arrangement(&store.listings, order);
    let mut listed: Vec<Listing> = Vec::new();
    let mut k: usize = 0;
    while k < positions.len()
        invariant
            k <= positions.len(),
            listed.len() == k,
            forall|j: int| 0 <= j < positions.len() ==> (#[trigger] positions[j]) < store.listings.len(),
            forall|j: int| 0 <= j < k ==> (#[trigger] listed[j]) == store.listings[positions[j] as int],
        decreases positions.len() - k,
    {
        listed.push(store.listings[positions[k]].clone());
        k += 1;
    }
    proof {
        let table = store@.listings;
        let views = listing_views(listed@);
        assert forall|j: int| 0 <= j < views.len() implies #[trigger] views[j]
            == table[positions[j] as int] by {
            assert(listed[j] == store.listings[positions[j] as int]);
        }
        assert forall|i: int| 0 <= i < table.len() implies views.contains(#[trigger] table[i]) by {
            assert(positions@.contains(i as usize));
            let at = choose|at: int| 0 <= at < positions.len() && positions@[at] == i as usize;
            assert(views[at] == table[i]);
        }
        assert forall|j: int| 0 <= j < views.len() implies table.contains(#[trigger] views[j]) by {
            assert(table[positions[j] as int] == views[j]);
        }
        assert forall|a: int, b: int| 0 <= a < b < views.len() implies order.precedes(
            #[trigger] views[a],
            #[trigger] views[b],
        ) by {
            assert(order.precedes(
                store.listings[positions[a] as int]@,
                store.listings[positions[b] as int]@,
            ));
        }
    }
    listed
}

/// Where `pair` stands in `rows`, if it does.
fn position_of(rows: &Vec<Pair>, pair: Pair) -> (found: Option<usize>)
    ensures
        match found {
            Some(at) => at < rows.len() && rows[at as int] == pair,
            None => !rows@.contains(pair),
        },
{
    let mut i: usize = 0;
    while i < rows.len()
        invariant
            i <= rows.len(),
            forall|k: int| 0 <= k < i ==> rows[k] != pair,
        decreases rows.len() - i,
    {
        if rows[i].0 == pair.0 && rows[i].1 == pair.1 {
            return Some(i);
        }
        i += 1;
    }
    None
}

/// Puts `pair` into `rows` unless it is there.
fn insert_pair(rows: &mut Vec<Pair>, pair: Pair)
    requires
        old(rows)@.no_duplicates(),
    ensures
        final(rows)@.no_duplicates(),
        final(rows)@ == with_pair(old(rows)@, pair),
{
    if position_of(rows, pair).is_none() {
        rows.push(pair);
    }
}

/// Takes `pair` out of `rows` if it is there.
fn remove_pair(rows: &mut Vec<Pair>, pair: Pair)
    requires
        old(rows)@.no_duplicates(),
    ensures
        final(rows)@.no_duplicates(),
        final(rows)@ == without_pair(old(rows)@, pair),
{
    if let Some(at) = position_of(rows, pair) {
        assert(rows@.index_of(pair) == at);
        rows.remove(at);
    }
}

/// The listings of `listings` that `rows` ties to `user_id`, in their order.
fn related_listings(listings: &Vec<Listing>, rows: &Vec<Pair>, user_id: i64) -> (related: Vec<
    Listing,
>)
    ensures
        listing_views(related@) == listing_views(listings@).filter(related_to(rows@, user_id)),
{
    let ghost table = listing_views(listings@);
    let ghost wanted = related_to(rows@, user_id);
    let mut related: Vec<Listing> = Vec::new();
    let mut i: usize = 0;
    proof {
        reveal(Seq::filter);
        assert(table.take(0) =~= Seq::<ListingView>::empty());
        assert(listing_views(related@) =~= table.take(0).filter(wanted));
    }
    while i < listings.len()
        invariant
            i <= listings.len(),
            table == listing_views(listings@),
            wanted == related_to(rows@, user_id),
            listing_views(related@) == table.take(i as int).filter(wanted),
        decreases listings.len() - i,
    {
        let found = position_of(rows, (user_id, listings[i].id));
        let ghost before = listing_views(related@);
        if found.is_some() {
            related.push(listings[i].clone());
        }
        proof {
            reveal(Seq::filter);
            let next = table.take(i + 1);
            assert(next.drop_last() =~= table.take(i as int));
            assert(next.last() == table[i as int]);
            assert(wanted(table[i as int]) == found.is_some());
            if found.is_some() {
                assert(listing_views(related@) =~= before.push(table[i as int]));
            }
            assert(listing_views(related@) == next.filter(wanted));
        }
        i += 1;
    }
    assert(table.take(i as int) =~= table);
    related
}

/// A store whose tables and identifiers are those of a well-formed store, and
/// whose relations hold no pair twice, is well-formed.
proof fn lemma_tables_carry_invariant(before: StoreView, after: StoreView)
    requires
        before.wf(),
        after.users == before.users,
        after.listings == before.listings,
        after.last_user_id == before.last_user_id,
        after.last_listing_id == before.last_listing_id,
        after.favourites.no_duplicates(),
        after.visited.no_duplicates(),
    ensures
        after.wf(),
{
}

/// Stars the listing `listing_id` for the user `user_id`. Starring it again
/// changes nothing: the pair is held once.
pub fn add_favourite(store: &mut Store, user_id: i64, listing_id: i64)
    requires
        old(store).wf(),
    ensures
        final(store).wf(),
        final(store)@ == old(store)@.add_favourite(user_id, listing_id),
{
    insert_pair(&mut store.favourites, (user_id, listing_id));
    proof {
        lemma_tables_carry_invariant(old(store)@, store@);
    }
}

/// Takes the star of the user `user_id` off the listing `listing_id`. Where
/// there is no such star, nothing changes.
pub fn remove_favourite(store: &mut Store, user_id: i64, listing_id: i64)
    requires
        old(store).wf(),
    ensures
        final(store).wf(),
        final(store)@ == old(store)@.remove_favourite(user_id, listing_id),
{
    remove_pair(&mut store.favourites, (user_id, listing_id));
    proof {
        lemma_tables_carry_invariant(old(store)@, store@);
    }
}

/// Records that the user `user_id` has visited the listing `listing_id`.
/// Recording it again changes nothing: the pair is held once.
pub fn add_visited(store: &mut Store, user_id: i64, listing_id: i64)
    requires
        old(store).wf(),
    ensures
        final(store).wf(),
        final(store)@ == old(store)@.add_visited(user_id, listing_id),
{
    insert_pair(&mut store.visited, (user_id, listing_id));
    proof {
        lemma_tables_carry_invariant(old(store)@, store@);
    }
}

/// Forgets that the user `user_id` has visited the listing `listing_id`.
/// Where no such visit is recorded, nothing changes.
pub fn remove_visited(store: &mut Store, user_id: i64, listing_id: i64)
    requires
        old(store).wf(),
    ensures
        final(store).wf(),
        final(store)@ == old(store)@.remove_visited(user_id, listing_id),
{
    remove_pair(&mut store.visited, (user_id, listing_id));
    proof {
        lemma_tables_carry_invariant(old(store)@, store@);
    }
}

/// The listings that the user `user_id` has starred, in the order of
/// insertion.
pub fn get_favourite_listings(store: &Store, user_id: i64) -> (listings: Vec<Listing>)
    requires
        store.wf(),
    ensures
        listing_views(listings@) == store@.favourite_listings(user_id),
{
    related_listings(&store.listings, &store.favourites, user_id)
}

/// The listings that the user `user_id` has visited, in the order of
/// insertion.
pub fn get_visited_listings(store: &Store, user_id: i64) -> (listings: Vec<Listing>)
    requires
        store.wf(),
    ensures
        listing_views(listings@) == store@.visited_listings(user_id),
{
    related_listings(&store.listings, &store.visited, user_id)
}

/// Every user, in the order of insertion.
pub fn get_users(store: &Store) -> (users: Vec<User>)
    ensures
        user_views(users@) == store@.users,
{
    let mut users: Vec<User> = Vec::new();
    let mut i: usize = 0;
    while i < store.users.len()
        invariant
            i <= store.users.len(),
            users.len() == i,
            forall|k: int| 0 <= k < i ==> (#[trigger] users[k]) == store.users[k],
        decreases store.users.len() - i,
    {
        users.push(store.users[i].clone());
        i += 1;
    }
    assert(user_views(users@) =~= store@.users);
    users
}

/// Every listing, in the order of insertion.
pub fn get_all_listings(store: &Store) -> (listings: Vec<Listing>)
    ensures
        listing_views(listings@) == store@.listings,
{
    let mut listings: Vec<Listing> = Vec::new();
    let mut i: usize = 0;
    while i < store.listings.len()
        invariant
            i <= store.listings.len(),
            listings.len() == i,
            forall|k: int| 0 <= k < i ==> (#[trigger] listings[k]) == store.listings[k],
        decreases store.listings.len() - i,
    {
        listings.push(store.listings[i].clone());
        i += 1;
    }
    assert(listing_views(listings@) =~= store@.listings);
    listings
}

/// The user with this username, if there is one.
pub fn find_user(store: &Store, username: &str) -> (found: Option<User>)
    requires
        store.wf(),
    ensures
        match found {
            Some(user) => store@.user_named(username@) == Some(user@),
            None => store@.user_named(username@) is None,
        },
{
    let mut i: usize = 0;
    while i < store.users.len()
        invariant
            i <= store.users.len(),
            store.wf(),
            forall|k: int| 0 <= k < i ==> (#[trigger] store@.users[k]).username != username@,
        decreases store.users.len() - i,
    {
        if same_text(store.users[i].username.as_str(), username) {
            proof {
                assert(store@.users[i as int].username == username@);
                let chosen = choose|k: int|
                    0 <= k < store@.users.len() && (#[trigger] store@.users[k]).username
                        == username@;
                assert(chosen == i);
            }
            return Some(store.users[i].clone());
        }
        i += 1;
    }
    None
}

/// Whether some user is known by `identifier`, as username or as email, and
/// has `password_hash` stored.
pub fn credentials_match(store: &Store, identifier: &str, password_hash: &str) -> (matched: bool)
    ensures
        matched == store@.credentials_match(identifier@, password_hash@),
{
    let mut i: usize = 0;
    while i < store.users.len()
        invariant
            i <= store.users.len(),
            forall|k: int|
                0 <= k < i ==> !(((#[trigger] store@.users[k]).username == identifier@
                    || store@.users[k].email == identifier@) && store@.users[k].password_hash
                    == password_hash@),
        decreases store.users.len() - i,
    {
        let user = &store.users[i];
        if (same_text(user.username.as_str(), identifier) || same_text(
            user.email.as_str(),
            identifier,
        )) && same_text(user.password_hash.as_str(), password_hash) {
            assert((store@.users[i as int].username == identifier@ || store@.users[i as int].email
                == identifier@) && store@.users[i as int].password_hash == password_hash@);
            return true;
        }
        i += 1;
    }
    false
}

/// Signs a user in by username or email.
///
/// The password is hashed with the shared salt and with `username` as it was
/// handed in, so a sign-in by email matches only a hash that was computed with
/// that same text. On a match the session is set to `username` with the
/// permission level `regular`, and that state is queued for the observers;
/// without a match the session stays as it is.
pub fn verify_user(store: &Store, session: &mut Session, username: &str, password: &str) -> (verified:
    bool)
    requires
        old(session).wf(),
    ensures
        final(session).wf(),
        verified == store@.credentials_match(
            username@,
            hash_spec(salt_spec(), password@, username@),
        ),
        verified ==> old(session)@.set_user_state(username@, "regular"@) == Ok::<
            SessionView,
            ErrorKind,
        >(final(session)@),
        !verified ==> final(session)@ == old(session)@,
{
    let password_hash = hash(salt(), password, username);
    if !credentials_match(store, username, password_hash.as_str()) {
        return false;
    }
    let installed = set_user_state(session, username.to_owned(), "regular".to_owned());
    installed.is_ok()
}

} // verus!
