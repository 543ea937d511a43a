//! Users, their options and their favourites.
use vstd::prelude::*;

verus! {

#[derive(Debug, Clone)]
pub struct UserAvatar {
    pub large: Option<String>,
    pub medium: Option<String>,
}

#[derive(Debug, Clone)]
pub struct UserOptions {
    pub title_language: Option<String>,
    pub display_adult_content: Option<bool>,
    pub airing_notifications: Option<bool>,
    pub profile_color: Option<String>,
    pub notification_options: Option<Vec<NotificationOption>>,
    pub timezone: Option<String>,
    pub activity_merge_time: Option<i32>,
    pub staff_name_language: Option<String>,
}

#[derive(Debug, Clone)]
pub struct NotificationOption {
    pub notification_type: Option<String>,
    pub enabled: Option<bool>,
}

#[derive(Debug, Clone)]
pub struct MediaListOptions {
    pub score_format: Option<String>,
    pub row_order: Option<String>,
    pub anime_list: Option<MediaListTypeOptions>,
    pub manga_list: Option<MediaListTypeOptions>,
}

#[derive(Debug, Clone)]
pub struct MediaListTypeOptions {
    pub section_order: Option<Vec<String>>,
    pub split_completed_section_by_format: Option<bool>,
    pub custom_lists: Option<Vec<String>>,
    pub advanced_scoring: Option<Vec<String>>,
    pub advanced_scoring_enabled: Option<bool>,
}

#[derive(Debug, Clone)]
pub struct Favourites {
    pub anime: Option<MediaConnection>,
    pub manga: Option<MediaConnection>,
    pub characters: Option<CharacterConnection>,
    pub staff: Option<StaffConnection>,
    pub studios: Option<StudioConnection>,
}

#[derive(Debug, Clone)]
pub struct MediaConnection {
    pub nodes: Option<Vec<Media>>,
}

#[derive(Debug, Clone)]
pub struct CharacterConnection {
    pub nodes: Option<Vec<Character>>,
}

#[derive(Debug, Clone)]
pub struct StaffConnection {
    pub nodes: Option<Vec<Staff>>,
}

#[derive(Debug, Clone)]
pub struct StudioConnection {
    pub nodes: Option<Vec<Studio>>,
}

#[derive(Debug, Clone)]
pub struct Media {
    pub id: i32,
    pub title: Option<MediaTitle>,
}

#[derive(Debug, Clone)]
pub struct MediaTitle {
    pub user_preferred: Option<String>,
}

#[derive(Debug, Clone)]
pub struct Character {
    pub id: i32,
    pub name: Option<CharacterName>,
}

#[derive(Debug, Clone)]
pub struct CharacterName {
    pub user_preferred: Option<String>,
}

#[derive(Debug, Clone)]
pub struct Staff {
    pub id: i32,
    pub name: Option<StaffName>,
}

#[derive(Debug, Clone)]
pub struct StaffName {
    pub user_preferred: Option<String>,
}

#[derive(Debug, Clone)]
pub struct Studio {
    pub id: i32,
    pub name: String,
}

} // verus!
