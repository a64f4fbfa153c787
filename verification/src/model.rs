//! The mathematical model of the store: rows as values, tables as sequences
//! in insertion order, and each operation as a function from one state to the
//! next. The executable store is proved against these definitions.
use crate::error::ErrorKind;
use vstd::prelude::*;

verus! {

/// A user account as a value.
#[verifier::ext_equal]
pub struct UserView {
    pub id: i64,
    pub username: Seq<char>,
    pub email: Seq<char>,
    pub password_hash: Seq<char>,
    pub full_name: Seq<char>,
    pub phone: Seq<char>,
    pub created_at: u64,
}

/// An equipment listing as a value. `price` and `weight` count hundredths of
/// their unit; an absent price means "price on request".
#[verifier::ext_equal]
pub struct ListingView {
    pub id: i64,
    pub title: Seq<char>,
    pub price: Option<i64>,
    pub price_type: Seq<char>,
    pub condition: Seq<char>,
    pub location: Seq<char>,
    pub picture_url: Option<Seq<char>>,
    pub description: Option<Seq<char>>,
    pub make: Seq<char>,
    pub model: Seq<char>,
    pub vehicle_type: Seq<char>,
    pub year_of_manufacture: i32,
    pub fuel_or_power: Seq<char>,
    pub weight: Option<i64>,
    pub views: u64,
    pub user_id: i64,
    pub created_at: u64,
}

/// The earliest year of manufacture that a listing may carry.
pub const MIN_YEAR: i32 = 1800;

/// The latest year of manufacture that a listing may carry.
pub const MAX_YEAR: i32 = 2025;

/// The price types that a listing may carry.
pub open spec fn valid_price_type(text: Seq<char>) -> bool {
    text == "fixed"@ || text == "negotiable"@ || text == "on request"@
}

/// The conditions that a listing may carry.
pub open spec fn valid_condition(text: Seq<char>) -> bool {
    text == "new"@ || text == "good as new"@ || text == "used"@ || text == "heavily used"@
}

impl ListingView {
    /// The constraints that every stored listing meets.
    pub open spec fn valid(self) -> bool {
        &&& valid_price_type(self.price_type)
        &&& valid_condition(self.condition)
        &&& MIN_YEAR <= self.year_of_manufacture <= MAX_YEAR
    }
}

/// A pair of a user and a listing: one row of the favourite relation or of the
/// visited relation.
pub type Pair = (i64, i64);

/// The relation without the row `pair`; unchanged where it holds no such row.
pub open spec fn without_pair(rows: Seq<Pair>, pair: Pair) -> Seq<Pair> {
    if rows.contains(pair) {
        rows.remove(rows.index_of(pair))
    } else {
        rows
    }
}

/// The relation with the row `pair`; unchanged where it already holds it.
pub open spec fn with_pair(rows: Seq<Pair>, pair: Pair) -> Seq<Pair> {
    if rows.contains(pair) {
        rows
    } else {
        rows.push(pair)
    }
}

/// The listings that the relation `rows` ties to `user_id`.
pub open spec fn related_to(rows: Seq<Pair>, user_id: i64) -> spec_fn(ListingView) -> bool {
    |row: ListingView| rows.contains((user_id, row.id))
}

/// The whole store as a value: both tables in insertion order, the two
/// relations, and the last identifier that each table has handed out.
#[verifier::ext_equal]
pub struct StoreView {
    pub users: Seq<UserView>,
    pub listings: Seq<ListingView>,
    pub favourites: Seq<Pair>,
    pub visited: Seq<Pair>,
    pub last_user_id: i64,
    pub last_listing_id: i64,
}

impl StoreView {
    /// The store with no rows, before any identifier was handed out.
    pub open spec fn empty() -> StoreView {
        StoreView {
            users: Seq::empty(),
            listings: Seq::empty(),
            favourites: Seq::empty(),
            visited: Seq::empty(),
            last_user_id: 0,
            last_listing_id: 0,
        }
    }

    /// The invariant of the store: identifiers are positive, grow with the
    /// order of insertion and never exceed the last one handed out; usernames
    /// and emails are unique; every listing meets its constraints; neither
    /// relation holds a pair twice.
    pub open spec fn wf(self) -> bool {
        &&& 0 <= self.last_user_id
        &&& 0 <= self.last_listing_id
        &&& forall|i: int|
            0 <= i < self.users.len() ==> 1 <= (#[trigger] self.users[i]).id <= self.last_user_id
        &&& forall|i: int, j: int|
            0 <= i < j < self.users.len() ==> (#[trigger] self.users[i]).id < (
            #[trigger] self.users[j]).id
        &&& forall|i: int, j: int|
            0 <= i < j < self.users.len() ==> (#[trigger] self.users[i]).username != (
            #[trigger] self.users[j]).username
        &&& forall|i: int, j: int|
            0 <= i < j < self.users.len() ==> (#[trigger] self.users[i]).email != (
            #[trigger] self.users[j]).email
        &&& forall|i: int|
            0 <= i < self.listings.len() ==> 1 <= (#[trigger] self.listings[i]).id
                <= self.last_listing_id
        &&& forall|i: int, j: int|
            0 <= i < j < self.listings.len() ==> (#[trigger] self.listings[i]).id < (
            #[trigger] self.listings[j]).id
        &&& forall|i: int| 0 <= i < self.listings.len() ==> (#[trigger] self.listings[i]).valid()
        &&& self.favourites.no_duplicates()
        &&& self.visited.no_duplicates()
    }

    /// Whether some user has this username.
    pub open spec fn username_taken(self, username: Seq<char>) -> bool {
        exists|i: int| 0 <= i < self.users.len() && (#[trigger] self.users[i]).username == username
    }

    /// Whether some user has this email.
    pub open spec fn email_taken(self, email: Seq<char>) -> bool {
        exists|i: int| 0 <= i < self.users.len() && (#[trigger] self.users[i]).email == email
    }

    /// The user with this username, if there is one.
    pub open spec fn user_named(self, username: Seq<char>) -> Option<UserView> {
        if self.username_taken(username) {
            Some(
                self.users[choose|i: int|
                    0 <= i < self.users.len() && (#[trigger] self.users[i]).username == username],
            )
        } else {
            None
        }
    }

    /// Inserting a user: the row gets the next identifier. Rejected where the
    /// username or the email is in use, or where no identifier is left.
    pub open spec fn insert_user(self, row: UserView) -> Result<StoreView, ErrorKind> {
        if self.username_taken(row.username) || self.email_taken(row.email) {
            Err(ErrorKind::UniquenessViolation)
        } else if self.last_user_id >= i64::MAX {
            Err(ErrorKind::StorageUnavailable)
        } else {
            let id = (self.last_user_id + 1) as i64;
            Ok(StoreView { users: self.users.push(UserView { id, ..row }), last_user_id: id, ..self })
        }
    }

    /// Whether some user is known by `identifier`, as username or as email,
    /// and has `password_hash` stored.
    pub open spec fn credentials_match(
        self,
        identifier: Seq<char>,
        password_hash: Seq<char>,
    ) -> bool {
        exists|i: int|
            0 <= i < self.users.len() && ((#[trigger] self.users[i]).username == identifier
                || self.users[i].email == identifier) && self.users[i].password_hash
                == password_hash
    }

    /// Inserting a listing: the row gets the next identifier and no views.
    /// Rejected where the row breaks a constraint, or where no identifier is
    /// left.
    pub open spec fn insert_listing(self, row: ListingView) -> Result<StoreView, ErrorKind> {
        if !row.valid() {
            Err(ErrorKind::ConstraintViolation)
        } else if self.last_listing_id >= i64::MAX {
            Err(ErrorKind::StorageUnavailable)
        } else {
            let id = (self.last_listing_id + 1) as i64;
            Ok(
                StoreView {
                    listings: self.listings.push(ListingView { id, views: 0, ..row }),
                    last_listing_id: id,
                    ..self
                },
            )
        }
    }

    /// Whether a listing has this identifier.
    pub open spec fn has_listing(self, id: i64) -> bool {
        exists|i: int| 0 <= i < self.listings.len() && (#[trigger] self.listings[i]).id == id
    }

    /// The position of the listing with this identifier.
    pub open spec fn listing_index(self, id: i64) -> int {
        choose|i: int| 0 <= i < self.listings.len() && (#[trigger] self.listings[i]).id == id
    }

    /// The listing with this identifier.
    pub open spec fn listing(self, id: i64) -> ListingView {
        self.listings[self.listing_index(id)]
    }

    /// Registering one view: the counter of the listing grows by one and
    /// nothing else changes. Rejected where no listing has the identifier, or
    /// where the counter is at the end of its range.
    pub open spec fn view_listing(self, id: i64) -> Result<StoreView, ErrorKind> {
        if !self.has_listing(id) {
            Err(ErrorKind::NotFound)
        } else if self.listing(id).views >= u64::MAX {
            Err(ErrorKind::ConstraintViolation)
        } else {
            let at = self.listing_index(id);
            let viewed = ListingView { views: (self.listings[at].views + 1) as u64, ..self.listings[at] };
            Ok(StoreView { listings: self.listings.update(at, viewed), ..self })
        }
    }

    /// The store after `user_id` starred `listing_id`.
    pub open spec fn add_favourite(self, user_id: i64, listing_id: i64) -> StoreView {
        StoreView { favourites: with_pair(self.favourites, (user_id, listing_id)), ..self }
    }

    /// The store after `user_id` took the star off `listing_id`.
    pub open spec fn remove_favourite(self, user_id: i64, listing_id: i64) -> StoreView {
        StoreView { favourites: without_pair(self.favourites, (user_id, listing_id)), ..self }
    }

    /// The store after `user_id` was recorded as having visited `listing_id`.
    pub open spec fn add_visited(self, user_id: i64, listing_id: i64) -> StoreView {
        StoreView { visited: with_pair(self.visited, (user_id, listing_id)), ..self }
    }

    /// The store after the visit of `user_id` to `listing_id` was forgotten.
    pub open spec fn remove_visited(self, user_id: i64, listing_id: i64) -> StoreView {
        StoreView { visited: without_pair(self.visited, (user_id, listing_id)), ..self }
    }

    /// The listings that `user_id` starred, in the order of the table.
    pub open spec fn favourite_listings(self, user_id: i64) -> Seq<ListingView> {
        self.listings.filter(related_to(self.favourites, user_id))
    }

    /// The listings that `user_id` visited, in the order of the table.
    pub open spec fn visited_listings(self, user_id: i64) -> Seq<ListingView> {
        self.listings.filter(related_to(self.visited, user_id))
    }
}

} // verus!
