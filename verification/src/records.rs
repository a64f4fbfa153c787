//! The rows of the two tables as executable values, each with its view.
use crate::model::{ListingView, UserView};
use vstd::prelude::*;
use vstd::string::*;

verus! {

/// A user account.
#[derive(Debug)]
pub struct User {
    pub id: i64,
    pub username: String,
    pub email: String,
    pub password_hash: String,
    pub full_name: String,
    pub phone: String,
    /// Seconds since the Unix epoch at which the row was inserted.
    pub created_at: u64,
}

impl View for User {
    type V = UserView;

    open spec fn view(&self) -> UserView {
        UserView {
            id: self.id,
            username: self.username@,
            email: self.email@,
            password_hash: self.password_hash@,
            full_name: self.full_name@,
            phone: self.phone@,
            created_at: self.created_at,
        }
    }
}

impl Clone for User {
    fn clone(&self) -> (copy: Self)
        ensures
            copy == *self,
    {
        User {
            id: self.id,
            username: self.username.clone(),
            email: self.email.clone(),
            password_hash: self.password_hash.clone(),
            full_name: self.full_name.clone(),
            phone: self.phone.clone(),
            created_at: self.created_at,
        }
    }
}

/// An equipment listing.
#[derive(Debug)]
pub struct Listing {
    pub id: i64,
    pub title: String,
    /// Hundredths of the currency unit; `None` means "price on request".
    pub price: Option<i64>,
    pub price_type: String,
    pub condition: String,
    pub location: String,
    pub picture_url: Option<String>,
    pub description: Option<String>,
    pub make: String,
    pub model: String,
    pub vehicle_type: String,
    pub year_of_manufacture: i32,
    pub fuel_or_power: String,
    /// Hundredths of the weight unit.
    pub weight: Option<i64>,
    pub views: u64,
    /// The user that the listing is attributed to. Nothing checks that such a
    /// user exists.
    pub user_id: i64,
    /// Seconds since the Unix epoch at which the row was inserted.
    pub created_at: u64,
}

/// The view of a text that may be absent.
pub open spec fn text_view(text: Option<String>) -> Option<Seq<char>> {
    match text {
        Some(t) => Some(t@),
        None => None,
    }
}

impl View for Listing {
    type V = ListingView;

    open spec fn view(&self) -> ListingView {
        ListingView {
            id: self.id,
            title: self.title@,
            price: self.price,
            price_type: self.price_type@,
            condition: self.condition@,
            location: self.location@,
            picture_url: text_view(self.picture_url),
            description: text_view(self.description),
            make: self.make@,
            model: self.model@,
            vehicle_type: self.vehicle_type@,
            year_of_manufacture: self.year_of_manufacture,
            fuel_or_power: self.fuel_or_power@,
            weight: self.weight,
            views: self.views,
            user_id: self.user_id,
            created_at: self.created_at,
        }
    }
}

/// A copy of a text that may be absent.
pub fn clone_text(text: &Option<String>) -> (copy: Option<String>)
    ensures
        copy == *text,
{
    match text {
        Some(t) => Some(t.clone()),
        None => None,
    }
}

/// An owned copy of a borrowed text that may be absent.
pub fn own_text(text: Option<&str>) -> (owned: Option<String>)
    ensures
        text_view(owned) == match text {
            Some(t) => Some(t@),
            None => None,
        },
{
    match text {
        Some(t) => Some(t.to_owned()),
        None => None,
    }
}

impl Clone for Listing {
    fn clone(&self) -> (copy: Self)
        ensures
            copy == *self,
    {
        Listing {
            id: self.id,
            title: self.title.clone(),
            price: self.price,
            price_type: self.price_type.clone(),
            condition: self.condition.clone(),
            location: self.location.clone(),
            picture_url: clone_text(&self.picture_url),
            description: clone_text(&self.description),
            make: self.make.clone(),
            model: self.model.clone(),
            vehicle_type: self.vehicle_type.clone(),
            year_of_manufacture: self.year_of_manufacture,
            fuel_or_power: self.fuel_or_power.clone(),
            weight: self.weight,
            views: self.views,
            user_id: self.user_id,
            created_at: self.created_at,
        }
    }
}

/// The views of a sequence of users, row by row.
pub open spec fn user_views(rows: Seq<User>) -> Seq<UserView> {
    rows.map_values(|u: User| u@)
}

/// The views of a sequence of listings, row by row.
pub open spec fn listing_views(rows: Seq<Listing>) -> Seq<ListingView> {
    rows.map_values(|l: Listing| l@)
}

} // verus!
