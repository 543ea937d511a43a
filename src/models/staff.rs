//! Staff members.
use vstd::prelude::*;

use crate::models::FuzzyDate;

verus! {

#[derive(Debug, Clone)]
pub struct Staff {
    pub id: i32,
    pub name: Option<StaffName>,
    pub language_v2: Option<String>,
    pub image: Option<StaffImage>,
    pub description: Option<String>,
    pub primary_occupations: Option<Vec<String>>,
    pub gender: Option<String>,
    pub date_of_birth: Option<FuzzyDate>,
    pub date_of_death: Option<FuzzyDate>,
    pub age: Option<i32>,
    pub years_active: Option<Vec<i32>>,
    pub home_town: Option<String>,
    pub blood_type: Option<String>,
    pub is_favourite: Option<bool>,
    pub is_favourite_blocked: Option<bool>,
    pub site_url: Option<String>,
    pub favourites: Option<i32>,
    pub mod_notes: Option<String>,
}

#[derive(Debug, Clone)]
pub struct StaffName {
    pub first: Option<String>,
    pub middle: Option<String>,
    pub last: Option<String>,
    pub full: Option<String>,
    pub native: Option<String>,
    pub alternative: Option<Vec<String>>,
    pub user_preferred: Option<String>,
}

#[derive(Debug, Clone)]
pub struct StaffImage {
    pub large: Option<String>,
    pub medium: Option<String>,
}

} // verus!
