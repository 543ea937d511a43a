//! Characters.
use vstd::prelude::*;

use crate::models::FuzzyDate;

verus! {

#[derive(Debug, Clone)]
pub struct Character {
    pub id: i32,
    pub name: Option<CharacterName>,
    pub image: Option<CharacterImage>,
    pub description: Option<String>,
    pub gender: Option<String>,
    pub date_of_birth: Option<FuzzyDate>,
    pub age: Option<String>,
    pub blood_type: Option<String>,
    pub is_favourite: Option<bool>,
    pub is_favourite_blocked: Option<bool>,
    pub site_url: Option<String>,
    pub favourites: Option<i32>,
    pub mod_notes: Option<String>,
}

#[derive(Debug, Clone)]
pub struct CharacterName {
    pub first: Option<String>,
    pub middle: Option<String>,
    pub last: Option<String>,
    pub full: Option<String>,
    pub native: Option<String>,
    pub alternative: Option<Vec<String>>,
    pub alternative_spoiler: Option<Vec<String>>,
    pub user_preferred: Option<String>,
}

#[derive(Debug, Clone)]
pub struct CharacterImage {
    pub large: Option<String>,
    pub medium: Option<String>,
}

} // verus!
