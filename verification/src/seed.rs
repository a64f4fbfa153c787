//! The fixture data that a store is seeded with: six users and seven listings.
//!
//! Seeding inserts the fixtures one by one, users first, and stops at the
//! first insertion that the store refuses. What was inserted before stays.
use crate::credentials::{hash_spec, salt_spec};
use crate::db::{add_user, create_listing, Store};
use crate::error::ErrorKind;
use crate::model::{ListingView, StoreView, UserView};
use vstd::prelude::*;

verus! {

/// What a fixture user is created from.
#[derive(Debug)]
pub struct UserFixture {
    pub username: &'static str,
    pub email: &'static str,
    pub password: &'static str,
    pub full_name: &'static str,
    pub phone: &'static str,
}

/// What a fixture listing is created from.
#[derive(Debug)]
pub struct ListingFixture {
    pub title: &'static str,
    pub price: Option<i64>,
    pub price_type: &'static str,
    pub condition: &'static str,
    pub location: &'static str,
    pub picture_url: Option<&'static str>,
    pub description: Option<&'static str>,
    pub make: &'static str,
    pub model: &'static str,
    pub vehicle_type: &'static str,
    pub year_of_manufacture: i32,
    pub fuel_or_power: &'static str,
    pub weight: Option<i64>,
    pub user_id: i32,
}

/// The number of fixture users.
pub const USER_FIXTURES: usize = 6;

/// The number of fixture listings.
pub const LISTING_FIXTURES: usize = 7;

/// The fixture users, in the order of insertion.
pub open spec fn user_fixture_spec(k: int) -> UserFixture {
    if k == 0 {
        UserFixture {
            username: "john_doe",
            email: "john.doe@agritech.com",
            password: "password1",
            full_name: "John Doe",
            phone: "(417) 555-0123",
        }
    } else if k == 1 {
        UserFixture {
            username: "sarah_smith",
            email: "sarah.smith@greenvalley.org",
            password: "password2",
            full_name: "Sarah Smith",
            phone: "(620) 555-0456",
        }
    } else if k == 2 {
        UserFixture {
            username: "mike_chen",
            email: "mike.chen@premiumfarms.co",
            password: "password3",
            full_name: "Michael Chen",
            phone: "(316) 555-0789",
        }
    } else if k == 3 {
        UserFixture {
            username: "em_jackson",
            email: "emily.j@sunnyacres.com",
            password: "password4",
            full_name: "Emily Jackson",
            phone: "(785) 555-0248",
        }
    } else if k == 4 {
        UserFixture {
            username: "carlos_m",
            email: "carlos.mendoza@vinyard.org",
            password: "password5",
            full_name: "Carlos Mendoza",
            phone: "(913) 555-0999",
        }
    } else {
        UserFixture {
            username: "linda_weber",
            email: "linda.weber@protonmail.com",
            password: "password6",
            full_name: "Linda Weber",
            phone: "(314) 555-0333",
        }
    }
}

/// The fixture listings, in the order of insertion. Prices and weights count
/// hundredths.
pub open spec fn listing_fixture_spec(k: int) -> ListingFixture {
    if k == 0 {
        ListingFixture {
            title: "John Deere 5075E Tractor",
            price: Some(3_250_000i64),
            price_type: "negotiable",
            condition: "used",
            location: "Springfield, MO",
            picture_url: Some("johndeere-5075e.jpg"),
            description: Some(
                "2018 model with 450 engine hours. Includes front loader and 3-point hitch. Well-maintained service records.",
            ),
            make: "John Deere",
            model: "5075E",
            vehicle_type: "Utility Tractor",
            year_of_manufacture: 2018,
            fuel_or_power: "Diesel",
            weight: Some(507_500i64),
            user_id: 1,
        }
    } else if k == 1 {
        ListingFixture {
            title: "Bush Hog SQ720 Rotary Cutter",
            price: Some(220_000i64),
            price_type: "fixed",
            condition: "used",
            location: "Springfield, MO",
            picture_url: Some("bush-hog-sq720.jpg"),
            description: Some("6ft heavy-duty brush cutter. Good condition - ready for field work."),
            make: "Bush Hog",
            model: "SQ720",
            vehicle_type: "Rotary Cutter",
            year_of_manufacture: 2017,
            fuel_or_power: "PTO Powered",
            weight: Some(120_000i64),
            user_id: 1,
        }
    } else if k == 2 {
        ListingFixture {
            title: "Krone 4x4 Round Baler",
            price: Some(1_850_000i64),
            price_type: "negotiable",
            condition: "used",
            location: "Springfield, MO",
            picture_url: Some("krone-balers.jpg"),
            description: Some("2019 model. Twine wrap system. 5000 bales made. Stored under cover."),
            make: "Krone",
            model: "4x4",
            vehicle_type: "Round Baler",
            year_of_manufacture: 2019,
            fuel_or_power: "Hydraulic",
            weight: Some(350_000i64),
            user_id: 1,
        }
    } else if k == 3 {
        ListingFixture {
            title: "Case IH 2206 Cotton Picker",
            price: Some(14_999_900i64),
            price_type: "negotiable",
            condition: "used",
            location: "Green Valley Farm, KS",
            picture_url: Some("case-ih-2206.jpg"),
            description: Some(
                "2015 model w/ 2300 engine hours. 4-row narrow picker. Field-ready condition.",
            ),
            make: "Case IH",
            model: "2206",
            vehicle_type: "Cotton Picker",
            year_of_manufacture: 2015,
            fuel_or_power: "Diesel",
            weight: Some(1_800_000i64),
            user_id: 2,
        }
    } else if k == 4 {
        ListingFixture {
            title: "Kubota L2501 Compact Tractor",
            price: Some(1_950_000i64),
            price_type: "fixed",
            condition: "new",
            location: "Wichita, KS",
            picture_url: Some("kubota-l2501.jpg"),
            description: Some("Brand new 25HP tractor with loader. 0 hours. Financing available."),
            make: "Kubota",
            model: "L2501",
            vehicle_type: "Compact Tractor",
            year_of_manufacture: 2023,
            fuel_or_power: "Diesel",
            weight: Some(253_200i64),
            user_id: 3,
        }
    } else if k == 5 {
        ListingFixture {
            title: "Horsch Joker 4 Cultivator",
            price: Some(875_000i64),
            price_type: "negotiable",
            condition: "used",
            location: "Wichita, KS",
            picture_url: Some("horsch-joker4.jpg"),
            description: Some("12ft working width. Excellent seedbed preparation tool."),
            make: "Horsch",
            model: "Joker 4",
            vehicle_type: "Cultivator",
            year_of_manufacture: 2020,
            fuel_or_power: "Tractor-Powered",
            weight: Some(180_000i64),
            user_id: 3,
        }
    } else {
        ListingFixture {
            title: "New Holland H7250 Baler",
            price: Some(4_220_000i64),
            price_type: "fixed",
            condition: "used",
            location: "Heartland Vineyards, MO",
            picture_url: Some("newholland-h7250.jpg"),
            description: Some("2020 model square baler. Net wrap system. Only 1500 bales made."),
            make: "New Holland",
            model: "H7250",
            vehicle_type: "Square Baler",
            year_of_manufacture: 2020,
            fuel_or_power: "Hydraulic",
            weight: Some(420_000i64),
            user_id: 5,
        }
    }
}

/// The view of a borrowed text that may be absent.
pub open spec fn borrowed_text_view(text: Option<&'static str>) -> Option<Seq<char>> {
    match text {
        Some(t) => Some(t@),
        None => None,
    }
}

impl UserFixture {
    /// The row that is inserted for this fixture at time `created_at`.
    pub open spec fn row(self, created_at: u64) -> UserView {
        UserView {
            id: 0,
            username: self.username@,
            email: self.email@,
            password_hash: hash_spec(salt_spec(), self.password@, self.username@),
            full_name: self.full_name@,
            phone: self.phone@,
            created_at,
        }
    }
}

impl ListingFixture {
    /// The row that is inserted for this fixture at time `created_at`.
    pub open spec fn row(self, created_at: u64) -> ListingView {
        ListingView {
            id: 0,
            title: self.title@,
            price: self.price,
            price_type: self.price_type@,
            condition: self.condition@,
            location: self.location@,
            picture_url: borrowed_text_view(self.picture_url),
            description: borrowed_text_view(self.description),
            make: self.make@,
            model: self.model@,
            vehicle_type: self.vehicle_type@,
            year_of_manufacture: self.year_of_manufacture,
            fuel_or_power: self.fuel_or_power@,
            weight: self.weight,
            views: 0,
            user_id: self.user_id as i64,
            created_at,
        }
    }
}

/// How far seeding has come: the store after the insertions that succeeded,
/// and the failure that stopped it, if one did.
#[verifier::ext_equal]
pub struct Seeding {
    pub store: StoreView,
    pub failure: Option<ErrorKind>,
}

/// Seeding after one more fixture: fixture `k` counts through the users first
/// and then through the listings. Nothing happens after a failure.
pub open spec fn seed_step(before: Seeding, k: int, created_at: u64) -> Seeding {
    if before.failure is Some {
        before
    } else {
        let inserted = if k < USER_FIXTURES {
            before.store.insert_user(user_fixture_spec(k).row(created_at))
        } else {
            before.store.insert_listing(listing_fixture_spec(k - USER_FIXTURES).row(created_at))
        };
        match inserted {
            Ok(next) => Seeding { store: next, failure: None },
            Err(e) => Seeding { store: before.store, failure: Some(e) },
        }
    }
}

/// Seeding `store` with the first `n` fixtures.
pub open spec fn seeded_through(store: StoreView, n: nat, created_at: u64) -> Seeding
    decreases n,
{
    if n == 0 {
        Seeding { store, failure: None }
    } else {
        seed_step(seeded_through(store, (n - 1) as nat, created_at), n - 1, created_at)
    }
}

/// Seeding `store` with all fixtures.
pub open spec fn seeded(store: StoreView, created_at: u64) -> Seeding {
    seeded_through(store, (USER_FIXTURES + LISTING_FIXTURES) as nat, created_at)
}

/// Once seeding has failed, further fixtures change nothing.
pub proof fn lemma_failure_stops_seeding(store: StoreView, m: nat, n: nat, created_at: u64)
    requires
        m <= n,
        seeded_through(store, m, created_at).failure is Some,
    ensures
        seeded_through(store, n, created_at) == seeded_through(store, m, created_at),
    decreases n - m,
{
    if m < n {
        lemma_failure_stops_seeding(store, m, (n - 1) as nat, created_at);
    }
}

/// The users of a store that was seeded when empty: the fixtures in order,
/// with the identifiers 1 to 6.
pub open spec fn seeded_users(created_at: u64) -> Seq<UserView> {
    Seq::new(
        USER_FIXTURES as nat,
        |k: int| UserView { id: (k + 1) as i64, ..user_fixture_spec(k).row(created_at) },
    )
}

/// The listings of a store that was seeded when empty: the fixtures in order,
/// with the identifiers 1 to 7 and no views.
pub open spec fn seeded_listings(created_at: u64) -> Seq<ListingView> {
    Seq::new(
        LISTING_FIXTURES as nat,
        |k: int| ListingView { id: (k + 1) as i64, ..listing_fixture_spec(k).row(created_at) },
    )
}

/// No two fixture users share a username or an email.
pub proof fn lemma_fixture_users_differ()
    ensures
        forall|i: int, j: int|
            0 <= i < j < USER_FIXTURES ==> (#[trigger] user_fixture_spec(i)).username@ != (
            #[trigger] user_fixture_spec(j)).username@ && user_fixture_spec(i).email@
                != user_fixture_spec(j).email@,
{
    reveal_strlit("john_doe");
    reveal_strlit("sarah_smith");
    reveal_strlit("mike_chen");
    reveal_strlit("em_jackson");
    reveal_strlit("carlos_m");
    reveal_strlit("linda_weber");
    reveal_strlit("john.doe@agritech.com");
    reveal_strlit("sarah.smith@greenvalley.org");
    reveal_strlit("mike.chen@premiumfarms.co");
    reveal_strlit("emily.j@sunnyacres.com");
    reveal_strlit("carlos.mendoza@vinyard.org");
    reveal_strlit("linda.weber@protonmail.com");
    assert("john_doe"@.len() == 8 && "sarah_smith"@.len() == 11 && "mike_chen"@.len() == 9);
    assert("em_jackson"@.len() == 10 && "carlos_m"@.len() == 8 && "linda_weber"@.len() == 11);
    assert("john_doe"@[0] != "carlos_m"@[0]);
    assert("sarah_smith"@[0] != "linda_weber"@[0]);
    assert("john.doe@agritech.com"@.len() == 21 && "sarah.smith@greenvalley.org"@.len() == 27);
    assert("mike.chen@premiumfarms.co"@.len() == 25 && "emily.j@sunnyacres.com"@.len() == 22);
    assert("carlos.mendoza@vinyard.org"@.len() == 26 && "linda.weber@protonmail.com"@.len() == 26);
    assert("carlos.mendoza@vinyard.org"@[0] != "linda.weber@protonmail.com"@[0]);
    assert forall|i: int, j: int| 0 <= i < j < USER_FIXTURES implies (#[trigger] user_fixture_spec(
        i,
    )).username@ != (#[trigger] user_fixture_spec(j)).username@ && user_fixture_spec(i).email@
        != user_fixture_spec(j).email@ by {
        let a = user_fixture_spec(i);
        let b = user_fixture_spec(j);
        if a.username@ == b.username@ {
            assert(a.username@.len() == b.username@.len());
            assert(a.username@[0] == b.username@[0]);
        }
        if a.email@ == b.email@ {
            assert(a.email@.len() == b.email@.len());
            assert(a.email@[0] == b.email@[0]);
        }
    }
}

/// Seeding an empty store with the first `n` fixtures inserts each of them.
proof fn lemma_seeding_an_empty_store(n: nat, created_at: u64)
    requires
        n <= USER_FIXTURES + LISTING_FIXTURES,
    ensures
        seeded_through(StoreView::empty(), n, created_at) == (Seeding {
            store: StoreView {
                users: seeded_users(created_at).take(
                    if n <= USER_FIXTURES {
                        n as int
                    } else {
                        USER_FIXTURES as int
                    },
                ),
                listings: seeded_listings(created_at).take(
                    if n <= USER_FIXTURES {
                        0
                    } else {
                        n - USER_FIXTURES
                    },
                ),
                favourites: Seq::empty(),
                visited: Seq::empty(),
                last_user_id: if n <= USER_FIXTURES {
                    n as i64
                } else {
                    USER_FIXTURES as i64
                },
                last_listing_id: if n <= USER_FIXTURES {
                    0
                } else {
                    (n - USER_FIXTURES) as i64
                },
            },
            failure: None,
        }),
    decreases n,
{
    let users = seeded_users(created_at);
    let listings = seeded_listings(created_at);
    if n == 0 {
        assert(users.take(0) =~= Seq::empty());
        assert(listings.take(0) =~= Seq::empty());
    } else {
        let k = n - 1;
        lemma_seeding_an_empty_store(k as nat, created_at);
        let before = seeded_through(StoreView::empty(), k as nat, created_at);
        if k < USER_FIXTURES {
            let row = user_fixture_spec(k).row(created_at);
            lemma_fixture_users_differ();
            assert forall|i: int| 0 <= i < before.store.users.len() implies (
            #[trigger] before.store.users[i]).username != row.username && before.store.users[i].email
                != row.email by {
                assert(before.store.users[i] == users[i]);
                assert(user_fixture_spec(i).username@ != user_fixture_spec(k).username@);
            }
            assert(users.take(k + 1) =~= users.take(k).push(users[k]));
        } else {
            let at = k - USER_FIXTURES;
            let row = listing_fixture_spec(at).row(created_at);
            assert(row.valid());
            assert(users.take(USER_FIXTURES as int) =~= users);
            assert(listings.take(at + 1) =~= listings.take(at).push(listings[at]));
        }
    }
}

/// Seeding an empty store succeeds and leaves exactly the six fixture users
/// and the seven fixture listings, each with the values of its fixture, in
/// order and numbered from 1, and both relations empty.
pub proof fn lemma_fresh_store_is_seeded(created_at: u64)
    ensures
        seeded(StoreView::empty(), created_at) == (Seeding {
            store: StoreView {
                users: seeded_users(created_at),
                listings: seeded_listings(created_at),
                favourites: Seq::empty(),
                visited: Seq::empty(),
                last_user_id: 6,
                last_listing_id: 7,
            },
            failure: None,
        }),
        seeded(StoreView::empty(), created_at).store.wf(),
{
    lemma_seeding_an_empty_store((USER_FIXTURES + LISTING_FIXTURES) as nat, created_at);
    let users = seeded_users(created_at);
    let listings = seeded_listings(created_at);
    assert(users.take(USER_FIXTURES as int) =~= users);
    assert(listings.take(LISTING_FIXTURES as int) =~= listings);
    lemma_fixture_users_differ();
    let store = seeded(StoreView::empty(), created_at).store;
    assert forall|i: int| 0 <= i < store.listings.len() implies (#[trigger] store.listings[i]).valid() by {
        assert(listing_fixture_spec(i).row(created_at).valid());
    }
}

/// The `k`-th fixture user.
pub fn user_fixture(k: usize) -> (fixture: UserFixture)
    requires
        k < USER_FIXTURES,
    ensures
        fixture == user_fixture_spec(k as int),
{
    if k == 0 {
        UserFixture {
            username: "john_doe",
            email: "john.doe@agritech.com",
            password: "password1",
            full_name: "John Doe",
            phone: "(417) 555-0123",
        }
    } else if k == 1 {
        UserFixture {
            username: "sarah_smith",
            email: "sarah.smith@greenvalley.org",
            password: "password2",
            full_name: "Sarah Smith",
            phone: "(620) 555-0456",
        }
    } else if k == 2 {
        UserFixture {
            username: "mike_chen",
            email: "mike.chen@premiumfarms.co",
            password: "password3",
            full_name: "Michael Chen",
            phone: "(316) 555-0789",
        }
    } else if k == 3 {
        UserFixture {
            username: "em_jackson",
            email: "emily.j@sunnyacres.com",
            password: "password4",
            full_name: "Emily Jackson",
            phone: "(785) 555-0248",
        }
    } else if k == 4 {
        UserFixture {
            username: "carlos_m",
            email: "carlos.mendoza@vinyard.org",
            password: "password5",
            full_name: "Carlos Mendoza",
            phone: "(913) 555-0999",
        }
    } else {
        UserFixture {
            username: "linda_weber",
            email: "linda.weber@protonmail.com",
            password: "password6",
            full_name: "Linda Weber",
            phone: "(314) 555-0333",
        }
    }
}

/// The `k`-th fixture listing.
pub fn listing_fixture(k: usize) -> (fixture: ListingFixture)
    requires
        k < LISTING_FIXTURES,
    ensures
        fixture == listing_fixture_spec(k as int),
{
    if k == 0 {
        ListingFixture {
            title: "John Deere 5075E Tractor",
            price: Some(3_250_000i64),
            price_type: "negotiable",
            condition: "used",
            location: "Springfield, MO",
            picture_url: Some("johndeere-5075e.jpg"),
            description: Some(
                "2018 model with 450 engine hours. Includes front loader and 3-point hitch. Well-maintained service records.",
            ),
            make: "John Deere",
            model: "5075E",
            vehicle_type: "Utility Tractor",
            year_of_manufacture: 2018,
            fuel_or_power: "Diesel",
            weight: Some(507_500i64),
            user_id: 1,
        }
    } else if k == 1 {
        ListingFixture {
            title: "Bush Hog SQ720 Rotary Cutter",
            price: Some(220_000i64),
            price_type: "fixed",
            condition: "used",
            location: "Springfield, MO",
            picture_url: Some("bush-hog-sq720.jpg"),
            description: Some("6ft heavy-duty brush cutter. Good condition - ready for field work."),
            make: "Bush Hog",
            model: "SQ720",
            vehicle_type: "Rotary Cutter",
            year_of_manufacture: 2017,
            fuel_or_power: "PTO Powered",
            weight: Some(120_000i64),
            user_id: 1,
        }
    } else if k == 2 {
        ListingFixture {
            title: "Krone 4x4 Round Baler",
            price: Some(1_850_000i64),
            price_type: "negotiable",
            condition: "used",
            location: "Springfield, MO",
            picture_url: Some("krone-balers.jpg"),
            description: Some("2019 model. Twine wrap system. 5000 bales made. Stored under cover."),
            make: "Krone",
            model: "4x4",
            vehicle_type: "Round Baler",
            year_of_manufacture: 2019,
            fuel_or_power: "Hydraulic",
            weight: Some(350_000i64),
            user_id: 1,
        }
    } else if k == 3 {
        ListingFixture {
            title: "Case IH 2206 Cotton Picker",
            price: Some(14_999_900i64),
            price_type: "negotiable",
            condition: "used",
            location: "Green Valley Farm, KS",
            picture_url: Some("case-ih-2206.jpg"),
            description: Some(
                "2015 model w/ 2300 engine hours. 4-row narrow picker. Field-ready condition.",
            ),
            make: "Case IH",
            model: "2206",
            vehicle_type: "Cotton Picker",
            year_of_manufacture: 2015,
            fuel_or_power: "Diesel",
            weight: Some(1_800_000i64),
            user_id: 2,
        }
    } else if k == 4 {
        ListingFixture {
            title: "Kubota L2501 Compact Tractor",
            price: Some(1_950_000i64),
            price_type: "fixed",
            condition: "new",
            location: "Wichita, KS",
            picture_url: Some("kubota-l2501.jpg"),
            description: Some("Brand new 25HP tractor with loader. 0 hours. Financing available."),
            make: "Kubota",
            model: "L2501",
            vehicle_type: "Compact Tractor",
            year_of_manufacture: 2023,
            fuel_or_power: "Diesel",
            weight: Some(253_200i64),
            user_id: 3,
        }
    } else if k == 5 {
        ListingFixture {
            title: "Horsch Joker 4 Cultivator",
            price: Some(875_000i64),
            price_type: "negotiable",
            condition: "used",
            location: "Wichita, KS",
            picture_url: Some("horsch-joker4.jpg"),
            description: Some("12ft working width. Excellent seedbed preparation tool."),
            make: "Horsch",
            model: "Joker 4",
            vehicle_type: "Cultivator",
            year_of_manufacture: 2020,
            fuel_or_power: "Tractor-Powered",
            weight: Some(180_000i64),
            user_id: 3,
        }
    } else {
        ListingFixture {
            title: "New Holland H7250 Baler",
            price: Some(4_220_000i64),
            price_type: "fixed",
            condition: "used",
            location: "Heartland Vineyards, MO",
            picture_url: Some("newholland-h7250.jpg"),
            description: Some("2020 model square baler. Net wrap system. Only 1500 bales made."),
            make: "New Holland",
            model: "H7250",
            vehicle_type: "Square Baler",
            year_of_manufacture: 2020,
            fuel_or_power: "Hydraulic",
            weight: Some(420_000i64),
            user_id: 5,
        }
    }
}

/// Seeds the store with the fixtures, users first, at time `created_at`.
///
/// Stops at the first insertion that the store refuses and returns its
/// failure; the fixtures inserted before it stay.
pub fn insert_initial_data(store: &mut Store, created_at: u64) -> (result: Result<(), ErrorKind>)
    requires
        old(store).wf(),
    ensures
        final(store).wf(),
        final(store)@ == seeded(old(store)@, created_at).store,
        result == match seeded(old(store)@, created_at).failure {
            Some(e) => Err::<(), ErrorKind>(e),
            None => Ok(()),
        },
{
    let ghost total = (USER_FIXTURES + LISTING_FIXTURES) as nat;
    let mut k: usize = 0;
    while k < USER_FIXTURES
        invariant
            k <= USER_FIXTURES,
            store.wf(),
            total == USER_FIXTURES + LISTING_FIXTURES,
            seeded_through(old(store)@, k as nat, created_at) == (Seeding {
                store: store@,
                failure: None,
            }),
        decreases USER_FIXTURES - k,
    {
        let user = user_fixture(k);
        let added = add_user(
            store,
            user.username,
            user.email,
            user.password,
            user.full_name,
            user.phone,
            created_at,
        );
        proof {
            assert(seeded_through(old(store)@, (k + 1) as nat, created_at) == seed_step(
                seeded_through(old(store)@, k as nat, created_at),
                k as int,
                created_at,
            ));
        }
        if let Err(e) = added {
            proof {
                lemma_failure_stops_seeding(old(store)@, (k + 1) as nat, total, created_at);
            }
            return Err(e);
        }
        k += 1;
    }
    let mut k: usize = 0;
    while k < LISTING_FIXTURES
        invariant
            k <= LISTING_FIXTURES,
            store.wf(),
            total == USER_FIXTURES + LISTING_FIXTURES,
            seeded_through(old(store)@, (USER_FIXTURES + k) as nat, created_at) == (Seeding {
                store: store@,
                failure: None,
            }),
        decreases LISTING_FIXTURES - k,
    {
        let listing = listing_fixture(k);
        let created = create_listing(
            store,
            listing.title,
            listing.price,
            listing.price_type,
            listing.condition,
            listing.location,
            listing.picture_url,
            listing.description,
            listing.make,
            listing.model,
            listing.vehicle_type,
            listing.year_of_manufacture,
            listing.fuel_or_power,
            listing.weight,
            listing.user_id,
            created_at,
        );
        proof {
            assert(seeded_through(old(store)@, (USER_FIXTURES + k + 1) as nat, created_at)
                == seed_step(
                seeded_through(old(store)@, (USER_FIXTURES + k) as nat, created_at),
                USER_FIXTURES + k,
                created_at,
            ));
        }
        if let Err(e) = created {
            proof {
                lemma_failure_stops_seeding(
                    old(store)@,
                    (USER_FIXTURES + k + 1) as nat,
                    total,
                    created_at,
                );
            }
            return Err(e);
        }
        k += 1;
    }
    Ok(())
}

/// Prepares the store for use: seeds it with the fixture data at time
/// `created_at`.
///
/// A store has its tables from the start, so there is nothing to create, and
/// calling this on a store that holds rows is safe: seeding then stops at the
/// first fixture that the store refuses, as `insert_initial_data` says.
pub fn init(store: &mut Store, created_at: u64) -> (result: Result<(), ErrorKind>)
    requires
        old(store).wf(),
    ensures
        final(store).wf(),
        final(store)@ == seeded(old(store)@, created_at).store,
        result == match seeded(old(store)@, created_at).failure {
            Some(e) => Err::<(), ErrorKind>(e),
            None => Ok(()),
        },
{
    insert_initial_data(store, created_at)
}

} // verus!
