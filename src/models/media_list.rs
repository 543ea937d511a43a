//! Entries of a user's media list.
use vstd::prelude::*;

use crate::models::{FuzzyDate, MediaCoverImage, MediaTitle};

verus! {

#[derive(Debug, Clone, Copy, PartialEq, Eq)]
pub enum MediaListStatus {
    CURRENT,
    PLANNING,
    COMPLETED,
    DROPPED,
    PAUSED,
    REPEATING,
}

#[derive(Debug, Clone)]
pub struct MediaListMedia {
    pub id: i32,
    pub title: Option<MediaTitle>,
    pub cover_image: Option<MediaCoverImage>,
    pub format: Option<String>,
    pub status: Option<String>,
    pub episodes: Option<i32>,
    pub chapters: Option<i32>,
    pub volumes: Option<i32>,
    pub season: Option<String>,
    pub season_year: Option<i32>,
    pub average_score: Option<i32>,
    pub genres: Option<Vec<String>>,
}

} // verus!
