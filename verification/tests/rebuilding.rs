use gearxchange::db::{
    add_favourite, add_user, create_listing, find_user, get_all_listings,
    get_favourite_listings, get_listings, get_users, get_visited_listings, view_listing, Store,
};
use gearxchange::error::ErrorKind;
use gearxchange::records::{Listing, User};

fn user(id: i64, username: &str, email: &str) -> User {
    User {
        id,
        username: username.to_string(),
        email: email.to_string(),
        password_hash: "00".to_string(),
        full_name: "Full Name".to_string(),
        phone: "1".to_string(),
        created_at: 10,
    }
}

fn listing(id: i64, views: u64) -> Listing {
    Listing {
        id,
        title: format!("listing {}", id),
        price: Some(100),
        price_type: "fixed".to_string(),
        condition: "used".to_string(),
        location: "L".to_string(),
        picture_url: None,
        description: None,
        make: "M".to_string(),
        model: "M".to_string(),
        vehicle_type: "V".to_string(),
        year_of_manufacture: 2000,
        fuel_or_power: "F".to_string(),
        weight: None,
        views,
        user_id: 1,
        created_at: 10,
    }
}

#[test]
fn a_store_is_rebuilt_from_its_rows() {
    let store = Store::from_rows(
        vec![user(2, "a", "a@x"), user(5, "b", "b@x")],
        vec![listing(1, 4), listing(3, 0), listing(4, 9)],
        vec![(2, 3), (5, 1)],
        vec![(2, 4)],
        5,
        6,
    );
    let mut store = store.unwrap();
    assert_eq!(find_user(&store, "b").unwrap().id, 5);
    let by_views: Vec<i64> = get_listings(&store, "").into_iter().map(|l| l.id).collect();
    assert_eq!(by_views, vec![4, 1, 3]);
    assert_eq!(get_favourite_listings(&store, 2)[0].id, 3);
    assert_eq!(get_visited_listings(&store, 2)[0].id, 4);
    add_user(&mut store, "c", "c@x", "pw", "C", "3", 11).unwrap();
    assert_eq!(find_user(&store, "c").unwrap().id, 6);
    create_listing(
        &mut store, "T", None, "fixed", "used", "L", None, None, "M", "M", "V", 2000, "F", None,
        1, 0,
    )
    .unwrap();
    assert_eq!(get_listings(&store, "date_desc").last().unwrap().id, 7);
    add_favourite(&mut store, 2, 3);
    assert_eq!(get_favourite_listings(&store, 2).len(), 1);
}

#[test]
fn an_empty_store_is_rebuilt_from_no_rows() {
    let store = Store::from_rows(vec![], vec![], vec![], vec![], 0, 0).unwrap();
    assert!(get_listings(&store, "").is_empty());
    assert!(find_user(&store, "a").is_none());
}

#[test]
fn rows_out_of_order_are_refused() {
    assert!(Store::from_rows(
        vec![user(2, "a", "a@x"), user(1, "b", "b@x")],
        vec![],
        vec![],
        vec![],
        5,
        0
    )
    .is_none());
    assert!(Store::from_rows(
        vec![user(1, "a", "a@x"), user(1, "b", "b@x")],
        vec![],
        vec![],
        vec![],
        5,
        0
    )
    .is_none());
    assert!(Store::from_rows(
        vec![],
        vec![listing(3, 0), listing(2, 0)],
        vec![],
        vec![],
        0,
        5
    )
    .is_none());
    assert!(Store::from_rows(
        vec![],
        vec![listing(1, 0), listing(2, 0), listing(2, 0)],
        vec![],
        vec![],
        0,
        5
    )
    .is_none());
}

#[test]
fn identifiers_out_of_range_are_refused() {
    assert!(Store::from_rows(vec![user(0, "a", "a@x")], vec![], vec![], vec![], 5, 0).is_none());
    assert!(Store::from_rows(vec![user(-1, "a", "a@x")], vec![], vec![], vec![], 5, 0).is_none());
    assert!(Store::from_rows(vec![user(6, "a", "a@x")], vec![], vec![], vec![], 5, 0).is_none());
    assert!(Store::from_rows(vec![user(5, "a", "a@x")], vec![], vec![], vec![], 5, 0).is_some());
    assert!(Store::from_rows(vec![], vec![listing(0, 0)], vec![], vec![], 0, 5).is_none());
    assert!(Store::from_rows(vec![], vec![listing(6, 0)], vec![], vec![], 0, 5).is_none());
    assert!(Store::from_rows(vec![], vec![listing(5, 0)], vec![], vec![], 0, 5).is_some());
    assert!(Store::from_rows(vec![], vec![], vec![], vec![], -1, 0).is_none());
    assert!(Store::from_rows(vec![], vec![], vec![], vec![], 0, -1).is_none());
}

#[test]
fn shared_usernames_and_emails_are_refused() {
    assert!(Store::from_rows(
        vec![user(1, "a", "a@x"), user(2, "b", "b@x"), user(3, "a", "c@x")],
        vec![],
        vec![],
        vec![],
        3,
        0
    )
    .is_none());
    assert!(Store::from_rows(
        vec![user(1, "a", "a@x"), user(2, "b", "b@x"), user(3, "c", "b@x")],
        vec![],
        vec![],
        vec![],
        3,
        0
    )
    .is_none());
    assert!(Store::from_rows(
        vec![user(1, "a", "b"), user(2, "b", "a")],
        vec![],
        vec![],
        vec![],
        3,
        0
    )
    .is_some());
}

#[test]
fn listings_that_break_a_constraint_are_refused() {
    let mut bad_year = listing(1, 0);
    bad_year.year_of_manufacture = 2026;
    assert!(Store::from_rows(vec![], vec![bad_year], vec![], vec![], 0, 1).is_none());
    let mut bad_type = listing(1, 0);
    bad_type.price_type = "free".to_string();
    assert!(Store::from_rows(vec![], vec![bad_type], vec![], vec![], 0, 1).is_none());
    let mut bad_condition = listing(1, 0);
    bad_condition.condition = "broken".to_string();
    assert!(Store::from_rows(vec![], vec![bad_condition], vec![], vec![], 0, 1).is_none());
    let mut oldest = listing(1, 0);
    oldest.year_of_manufacture = 1800;
    assert!(Store::from_rows(vec![], vec![oldest], vec![], vec![], 0, 1).is_some());
}

#[test]
fn repeated_pairs_are_refused() {
    assert!(
        Store::from_rows(vec![], vec![], vec![(1, 2), (2, 1), (1, 2)], vec![], 0, 0).is_none()
    );
    assert!(
        Store::from_rows(vec![], vec![], vec![], vec![(1, 2), (1, 2)], 0, 0).is_none()
    );
    assert!(
        Store::from_rows(vec![], vec![], vec![(1, 2), (2, 1)], vec![(1, 2), (1, 1)], 0, 0)
            .is_some()
    );
}

#[test]
fn a_user_table_without_identifiers_left_is_unavailable() {
    let mut store = Store::from_rows(
        vec![user(1, "a", "a@x")],
        vec![],
        vec![],
        vec![],
        i64::MAX,
        0,
    )
    .unwrap();
    assert_eq!(
        add_user(&mut store, "b", "b@x", "pw", "B", "2", 0),
        Err(ErrorKind::StorageUnavailable)
    );
    assert!(find_user(&store, "b").is_none());
    assert_eq!(
        add_user(&mut store, "a", "b@x", "pw", "B", "2", 0),
        Err(ErrorKind::UniquenessViolation)
    );
}

#[test]
fn the_last_identifier_of_the_user_table_can_be_handed_out() {
    let mut store =
        Store::from_rows(vec![], vec![], vec![], vec![], i64::MAX - 1, 0).unwrap();
    assert_eq!(add_user(&mut store, "b", "b@x", "pw", "B", "2", 0), Ok(()));
    assert_eq!(find_user(&store, "b").unwrap().id, i64::MAX);
    assert_eq!(
        add_user(&mut store, "c", "c@x", "pw", "C", "3", 0),
        Err(ErrorKind::StorageUnavailable)
    );
}

#[test]
fn a_listing_table_without_identifiers_left_is_unavailable() {
    let mut store = Store::from_rows(vec![], vec![], vec![], vec![], 0, i64::MAX).unwrap();
    assert_eq!(
        create_listing(
            &mut store, "T", None, "fixed", "used", "L", None, None, "M", "M", "V", 2000, "F",
            None, 1, 0,
        ),
        Err(ErrorKind::StorageUnavailable)
    );
    assert_eq!(
        create_listing(
            &mut store, "T", None, "fixed", "used", "L", None, None, "M", "M", "V", 1700, "F",
            None, 1, 0,
        ),
        Err(ErrorKind::ConstraintViolation)
    );
    assert!(get_listings(&store, "").is_empty());
}

#[test]
fn a_counter_at_the_end_of_its_range_takes_no_more_views() {
    let mut store = Store::from_rows(
        vec![],
        vec![listing(1, u64::MAX - 1), listing(2, 0)],
        vec![],
        vec![],
        0,
        2,
    )
    .unwrap();
    assert_eq!(view_listing(&mut store, 1), Ok(()));
    assert_eq!(get_listings(&store, "")[0].views, u64::MAX);
    assert_eq!(view_listing(&mut store, 1), Err(ErrorKind::ConstraintViolation));
    assert_eq!(get_listings(&store, "")[0].views, u64::MAX);
    assert_eq!(view_listing(&mut store, 2), Ok(()));
    assert_eq!(get_listings(&store, "")[1].views, 1);
}

#[test]
fn the_rows_of_a_store_can_be_read_back_in_the_order_of_insertion() {
    let mut store = Store::new();
    add_user(&mut store, "a", "a@x", "pw", "A", "1", 3).unwrap();
    add_user(&mut store, "b", "b@x", "pw", "B", "2", 4).unwrap();
    for (title, price) in [("x", Some(5)), ("y", None), ("z", Some(1))] {
        create_listing(
            &mut store, title, price, "fixed", "used", "L", None, None, "M", "M", "V", 2000,
            "F", None, 1, 0,
        )
        .unwrap();
    }
    view_listing(&mut store, 3).unwrap();
    let users = get_users(&store);
    assert_eq!(users.len(), 2);
    assert_eq!(users[0].id, 1);
    assert_eq!(users[0].username, "a");
    assert_eq!(users[1].id, 2);
    assert_eq!(users[1].username, "b");
    assert_eq!(users[1].created_at, 4);
    let listings = get_all_listings(&store);
    let titles: Vec<&str> = listings.iter().map(|l| l.title.as_str()).collect();
    assert_eq!(titles, vec!["x", "y", "z"]);
    assert_eq!(listings[2].views, 1);
    assert_eq!(listings[2].id, 3);

    let rebuilt = Store::from_rows(users, listings, vec![], vec![], 2, 3).unwrap();
    assert_eq!(find_user(&rebuilt, "b").unwrap().id, 2);
    let by_views: Vec<i64> = get_listings(&rebuilt, "")
        .into_iter()
        .map(|l| l.id)
        .collect();
    assert_eq!(by_views, vec![3, 1, 2]);
}

#[test]
fn an_empty_store_has_no_rows_to_read_back() {
    let store = Store::new();
    assert!(get_users(&store).is_empty());
    assert!(get_all_listings(&store).is_empty());
}
