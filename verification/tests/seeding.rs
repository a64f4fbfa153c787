use gearxchange::credentials::{hash, salt};
use gearxchange::db::{add_user, create_listing, find_user, get_listings, Store};
use gearxchange::error::ErrorKind;
use gearxchange::seed::{
    init, insert_initial_data, listing_fixture, user_fixture, LISTING_FIXTURES, USER_FIXTURES,
};

#[test]
fn seeding_inserts_six_users() {
    let mut store = Store::new();
    assert_eq!(init(&mut store, 1_700_000_000), Ok(()));
    let expected = [
        ("john_doe", "john.doe@agritech.com", "password1", "John Doe", "(417) 555-0123"),
        ("sarah_smith", "sarah.smith@greenvalley.org", "password2", "Sarah Smith", "(620) 555-0456"),
        ("mike_chen", "mike.chen@premiumfarms.co", "password3", "Michael Chen", "(316) 555-0789"),
        ("em_jackson", "emily.j@sunnyacres.com", "password4", "Emily Jackson", "(785) 555-0248"),
        ("carlos_m", "carlos.mendoza@vinyard.org", "password5", "Carlos Mendoza", "(913) 555-0999"),
        ("linda_weber", "linda.weber@protonmail.com", "password6", "Linda Weber", "(314) 555-0333"),
    ];
    for (k, (username, email, password, full_name, phone)) in expected.iter().enumerate() {
        let user = find_user(&store, username).unwrap();
        assert_eq!(user.id, k as i64 + 1);
        assert_eq!(user.username, *username);
        assert_eq!(user.email, *email);
        assert_eq!(user.password_hash, hash(salt(), password, username));
        assert_eq!(user.full_name, *full_name);
        assert_eq!(user.phone, *phone);
        assert_eq!(user.created_at, 1_700_000_000);
    }
    assert_eq!(
        add_user(&mut store, "seventh", "seventh@example.com", "p", "S", "7", 0),
        Ok(())
    );
    assert_eq!(find_user(&store, "seventh").unwrap().id, 7);
}

#[test]
fn seeding_inserts_seven_listings() {
    let mut store = Store::new();
    assert_eq!(init(&mut store, 5), Ok(()));
    let listed = get_listings(&store, "views");
    assert_eq!(listed.len(), 7);
    let expected = [
        ("John Deere 5075E Tractor", 3_250_000, "negotiable", "used", "Springfield, MO", 2018, 507_500, 1),
        ("Bush Hog SQ720 Rotary Cutter", 220_000, "fixed", "used", "Springfield, MO", 2017, 120_000, 1),
        ("Krone 4x4 Round Baler", 1_850_000, "negotiable", "used", "Springfield, MO", 2019, 350_000, 1),
        ("Case IH 2206 Cotton Picker", 14_999_900, "negotiable", "used", "Green Valley Farm, KS", 2015, 1_800_000, 2),
        ("Kubota L2501 Compact Tractor", 1_950_000, "fixed", "new", "Wichita, KS", 2023, 253_200, 3),
        ("Horsch Joker 4 Cultivator", 875_000, "negotiable", "used", "Wichita, KS", 2020, 180_000, 3),
        ("New Holland H7250 Baler", 4_220_000, "fixed", "used", "Heartland Vineyards, MO", 2020, 420_000, 5),
    ];
    for (k, (title, price, price_type, condition, location, year, weight, user_id)) in
        expected.iter().enumerate()
    {
        let l = &listed[k];
        assert_eq!(l.id, k as i64 + 1);
        assert_eq!(l.title, *title);
        assert_eq!(l.price, Some(*price));
        assert_eq!(l.price_type, *price_type);
        assert_eq!(l.condition, *condition);
        assert_eq!(l.location, *location);
        assert_eq!(l.year_of_manufacture, *year);
        assert_eq!(l.weight, Some(*weight));
        assert_eq!(l.user_id, *user_id);
        assert_eq!(l.views, 0);
        assert_eq!(l.created_at, 5);
        assert!(l.picture_url.is_some());
        assert!(l.description.is_some());
    }
    assert_eq!(
        create_listing(
            &mut store, "T", None, "fixed", "used", "L", None, None, "M", "M", "V", 2000, "F",
            None, 1, 0,
        ),
        Ok(())
    );
    assert_eq!(get_listings(&store, "views")[7].id, 8);
}

#[test]
fn the_first_fixture_listing() {
    let mut store = Store::new();
    init(&mut store, 0).unwrap();
    let listed = get_listings(&store, "views");
    let tractor = listed
        .iter()
        .find(|l| l.title == "John Deere 5075E Tractor")
        .unwrap();
    assert_eq!(tractor.price, Some(3_250_000));
    assert_eq!(tractor.condition, "used");
    assert_eq!(tractor.year_of_manufacture, 2018);
    assert_eq!(tractor.make, "John Deere");
    assert_eq!(tractor.model, "5075E");
    assert_eq!(tractor.vehicle_type, "Utility Tractor");
    assert_eq!(tractor.fuel_or_power, "Diesel");
    assert_eq!(tractor.picture_url.as_deref(), Some("johndeere-5075e.jpg"));
    assert_eq!(
        tractor.description.as_deref(),
        Some("2018 model with 450 engine hours. Includes front loader and 3-point hitch. Well-maintained service records.")
    );
}

#[test]
fn the_fixture_tables() {
    assert_eq!(USER_FIXTURES, 6);
    assert_eq!(LISTING_FIXTURES, 7);
    assert_eq!(user_fixture(0).username, "john_doe");
    assert_eq!(user_fixture(5).username, "linda_weber");
    assert_eq!(user_fixture(5).email, "linda.weber@protonmail.com");
    assert_eq!(user_fixture(2).full_name, "Michael Chen");
    assert_eq!(user_fixture(3).password, "password4");
    assert_eq!(user_fixture(4).phone, "(913) 555-0999");
    assert_eq!(listing_fixture(0).title, "John Deere 5075E Tractor");
    assert_eq!(listing_fixture(6).title, "New Holland H7250 Baler");
    assert_eq!(listing_fixture(6).user_id, 5);
    assert_eq!(listing_fixture(3).price, Some(14_999_900));
    assert_eq!(listing_fixture(4).condition, "new");
    assert_eq!(listing_fixture(1).fuel_or_power, "PTO Powered");
    assert_eq!(listing_fixture(5).model, "Joker 4");
}

#[test]
fn seeding_a_seeded_store_is_refused_and_changes_nothing() {
    let mut store = Store::new();
    assert_eq!(init(&mut store, 1), Ok(()));
    assert_eq!(init(&mut store, 2), Err(ErrorKind::UniquenessViolation));
    assert_eq!(get_listings(&store, "").len(), 7);
    assert_eq!(find_user(&store, "john_doe").unwrap().created_at, 1);
    assert_eq!(
        add_user(&mut store, "seventh", "seventh@example.com", "p", "S", "7", 0),
        Ok(())
    );
    assert_eq!(find_user(&store, "seventh").unwrap().id, 7);
}

#[test]
fn seeding_stops_at_the_first_fixture_that_is_refused() {
    let mut store = Store::new();
    add_user(&mut store, "sarah_smith", "sarah@elsewhere.org", "pw", "Sarah", "1", 0).unwrap();
    assert_eq!(
        insert_initial_data(&mut store, 9),
        Err(ErrorKind::UniquenessViolation)
    );
    assert_eq!(find_user(&store, "john_doe").unwrap().id, 2);
    assert_eq!(find_user(&store, "sarah_smith").unwrap().id, 1);
    assert_eq!(
        find_user(&store, "sarah_smith").unwrap().email,
        "sarah@elsewhere.org"
    );
    assert!(find_user(&store, "mike_chen").is_none());
    assert!(get_listings(&store, "").is_empty());
}

#[test]
fn seeding_a_store_with_other_rows_adds_the_fixtures_after_them() {
    let mut store = Store::new();
    add_user(&mut store, "early", "early@example.com", "pw", "Early", "1", 0).unwrap();
    create_listing(
        &mut store, "Early", None, "fixed", "used", "L", None, None, "M", "M", "V", 2000, "F",
        None, 1, 0,
    )
    .unwrap();
    assert_eq!(init(&mut store, 3), Ok(()));
    assert_eq!(find_user(&store, "john_doe").unwrap().id, 2);
    assert_eq!(find_user(&store, "linda_weber").unwrap().id, 7);
    let listed = get_listings(&store, "views");
    assert_eq!(listed.len(), 8);
    assert_eq!(listed[0].title, "Early");
    assert_eq!(listed[1].title, "John Deere 5075E Tractor");
    assert_eq!(listed[7].id, 8);
}
