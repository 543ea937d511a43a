//! Anime, and the media types shared with the other models.
use vstd::prelude::*;

verus! {

#[derive(Debug, Clone)]
pub struct Anime {
    pub id: i32,
    pub title: Option<MediaTitle>,
    pub description: Option<String>,
    pub format: Option<MediaFormat>,
    pub status: Option<MediaStatus>,
    pub start_date: Option<FuzzyDate>,
    pub end_date: Option<FuzzyDate>,
    pub season: Option<MediaSeason>,
    pub season_year: Option<i32>,
    pub episodes: Option<i32>,
    pub duration: Option<i32>,
    pub genres: Option<Vec<String>>,
    pub average_score: Option<i32>,
    pub mean_score: Option<i32>,
    pub popularity: Option<i32>,
    pub favourites: Option<i32>,
    pub hashtag: Option<String>,
    pub country_of_origin: Option<String>,
    pub is_adult: Option<bool>,
    pub next_airing_episode: Option<AiringSchedule>,
    pub cover_image: Option<MediaCoverImage>,
    pub banner_image: Option<String>,
    pub studios: Option<StudioConnection>,
    pub source: Option<MediaSource>,
    pub trailer: Option<MediaTrailer>,
    pub updated_at: Option<i32>,
    pub site_url: Option<String>,
}

#[derive(Debug, Clone)]
pub struct MediaTitle {
    pub romaji: Option<String>,
    pub english: Option<String>,
    pub native: Option<String>,
    pub user_preferred: Option<String>,
}

#[derive(Debug, Clone)]
pub struct FuzzyDate {
    pub year: Option<i32>,
    pub month: Option<i32>,
    pub day: Option<i32>,
}

#[derive(Debug, Clone, Copy, PartialEq, Eq)]
pub enum MediaFormat {
    Tv,
    TvShort,
    Movie,
    Special,
    Ova,
    Ona,
    Music,
    Manga,
    Novel,
    OneShot,
}

#[derive(Debug, Clone, Copy, PartialEq, Eq)]
pub enum MediaStatus {
    Finished,
    Releasing,
    NotYetReleased,
    Cancelled,
    Hiatus,
}

#[derive(Debug, Clone, Copy, PartialEq, Eq)]
pub enum MediaSeason {
    Winter,
    Spring,
    Summer,
    Fall,
}

#[derive(Debug, Clone, Copy, PartialEq, Eq)]
pub enum MediaSource {
    Original,
    Manga,
    LightNovel,
    VisualNovel,
    VideoGame,
    Other,
    Novel,
    Doujinshi,
    Anime,
    WebNovel,
    Liveaction,
    Game,
    Comic,
    MultimediaProject,
    PictureBook,
}

#[derive(Debug, Clone)]
pub struct AiringSchedule {
    pub id: i32,
    pub airing_at: i32,
    pub time_until_airing: i32,
    pub episode: i32,
    pub media_id: i32,
}

#[derive(Debug, Clone)]
pub struct MediaCoverImage {
    pub extra_large: Option<String>,
    pub large: Option<String>,
    pub medium: Option<String>,
    pub color: Option<String>,
}

#[derive(Debug, Clone)]
pub struct MediaTrailer {
    pub id: Option<String>,
    pub site: Option<String>,
    pub thumbnail: Option<String>,
}

#[derive(Debug, Clone)]
pub struct StudioConnection {
    pub edges: Option<Vec<StudioEdge>>,
    pub nodes: Option<Vec<Studio>>,
}

#[derive(Debug, Clone)]
pub struct StudioEdge {
    pub node: Option<Studio>,
    pub is_main: bool,
}

#[derive(Debug, Clone)]
pub struct Studio {
    pub id: i32,
    pub name: String,
    pub is_animation_studio: bool,
    pub site_url: Option<String>,
}

} // verus!
