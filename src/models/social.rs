//! Studios, forum threads, reviews, recommendations, airing schedules, activities and notifications.
use vstd::prelude::*;

use crate::models::MediaCoverImage;

verus! {

#[derive(Debug, Clone)]
pub struct Studio {
    pub id: i32,
    pub name: String,
    pub is_animation_studio: bool,
    pub site_url: Option<String>,
    pub favourites: Option<i32>,
    pub is_favourite: Option<bool>,
}

#[derive(Debug, Clone)]
pub struct Thread {
    pub id: i32,
    pub title: String,
    pub body: Option<String>,
    pub user_id: i32,
    pub reply_user_id: Option<i32>,
    pub reply_comment_id: Option<i32>,
    pub category_id: Option<i32>,
    pub media_categories: Option<Vec<ThreadCategory>>,
    pub is_locked: Option<bool>,
    pub is_sticky: Option<bool>,
    pub is_subscribed: Option<bool>,
    pub like_count: i32,
    pub is_liked: Option<bool>,
    pub replied_at: Option<i32>,
    pub created_at: i32,
    pub updated_at: i32,
    pub user: Option<ThreadUser>,
    pub reply_user: Option<ThreadUser>,
    pub reply_count: Option<i32>,
    pub view_count: Option<i32>,
    pub site_url: Option<String>,
}

#[derive(Debug, Clone)]
pub struct ThreadCategory {
    pub id: i32,
    pub name: String,
}

#[derive(Debug, Clone)]
pub struct ThreadUser {
    pub id: i32,
    pub name: String,
    pub avatar: Option<UserAvatar>,
    pub donator_tier: Option<i32>,
    pub donator_badge: Option<String>,
    pub moderator_roles: Option<Vec<String>>,
}

#[derive(Debug, Clone)]
pub struct UserAvatar {
    pub large: Option<String>,
    pub medium: Option<String>,
}

#[derive(Debug, Clone)]
pub struct ThreadComment {
    pub id: i32,
    pub user_id: i32,
    pub thread_id: i32,
    pub comment: String,
    pub like_count: i32,
    pub is_liked: Option<bool>,
    pub created_at: i32,
    pub updated_at: i32,
    pub user: Option<ThreadUser>,
    pub site_url: Option<String>,
}

#[derive(Debug, Clone)]
pub struct Review {
    pub id: i32,
    pub user_id: i32,
    pub media_id: i32,
    pub media_type: Option<MediaType>,
    pub summary: Option<String>,
    pub body: String,
    pub rating: Option<i32>,
    pub rating_amount: Option<i32>,
    pub user_rating: Option<ReviewRating>,
    pub score: Option<i32>,
    pub is_private: Option<bool>,
    pub site_url: Option<String>,
    pub created_at: i32,
    pub updated_at: i32,
    pub user: Option<ReviewUser>,
    pub media: Option<ReviewMedia>,
}

#[derive(Debug, Clone, Copy, PartialEq, Eq)]
pub enum MediaType {
    ANIME,
    MANGA,
}

#[derive(Debug, Clone, Copy, PartialEq, Eq)]
pub enum ReviewRating {
    NoVote,
    UpVote,
    DownVote,
}

#[derive(Debug, Clone)]
pub struct ReviewUser {
    pub id: i32,
    pub name: String,
    pub avatar: Option<UserAvatar>,
}

#[derive(Debug, Clone)]
pub struct ReviewMedia {
    pub id: i32,
    pub title: Option<MediaTitle>,
    pub cover_image: Option<MediaCoverImage>,
    pub banner_image: Option<String>,
}

#[derive(Debug, Clone)]
pub struct MediaTitle {
    pub romaji: Option<String>,
    pub english: Option<String>,
    pub native: Option<String>,
    pub user_preferred: Option<String>,
}

#[derive(Debug, Clone)]
pub struct Recommendation {
    pub id: i32,
    pub rating: Option<i32>,
    pub user_rating: Option<RecommendationRating>,
    pub media: Option<RecommendationMedia>,
    pub media_recommendation: Option<RecommendationMedia>,
    pub user: Option<RecommendationUser>,
}

#[derive(Debug, Clone, Copy, PartialEq, Eq)]
pub enum RecommendationRating {
    NoRating,
    RateUp,
    RateDown,
}

#[derive(Debug, Clone)]
pub struct RecommendationMedia {
    pub id: i32,
    pub title: Option<MediaTitle>,
    pub cover_image: Option<MediaCoverImage>,
    pub format: Option<MediaFormat>,
    pub average_score: Option<i32>,
}

#[derive(Debug, Clone, Copy, PartialEq, Eq)]
pub enum MediaFormat {
    TV,
    TvShort,
    MOVIE,
    SPECIAL,
    OVA,
    ONA,
    MUSIC,
    MANGA,
    NOVEL,
    OneShot,
}

#[derive(Debug, Clone)]
pub struct RecommendationUser {
    pub id: i32,
    pub name: String,
    pub avatar: Option<UserAvatar>,
}

#[derive(Debug, Clone)]
pub struct AiringSchedule {
    pub id: i32,
    pub airing_at: i32,
    pub time_until_airing: i32,
    pub episode: i32,
    pub media_id: i32,
    pub media: Option<AiringMedia>,
}

#[derive(Debug, Clone)]
pub struct AiringMedia {
    pub id: i32,
    pub title: Option<MediaTitle>,
    pub cover_image: Option<MediaCoverImage>,
    pub banner_image: Option<String>,
    pub episodes: Option<i32>,
    pub format: Option<MediaFormat>,
    pub site_url: Option<String>,
}

#[derive(Debug, Clone)]
pub struct Activity {
    pub id: i32,
    pub user_id: Option<i32>,
    pub activity_type: Option<ActivityType>,
    pub reply_count: i32,
    pub like_count: i32,
    pub is_liked: Option<bool>,
    pub is_subscribed: Option<bool>,
    pub created_at: i32,
    pub user: Option<ActivityUser>,
    pub site_url: Option<String>,
}

#[derive(Debug, Clone, Copy, PartialEq, Eq)]
pub enum ActivityType {
    Text,
    AnimeList,
    MangaList,
    Message,
    MediaList,
}

#[derive(Debug, Clone)]
pub struct ActivityUser {
    pub id: i32,
    pub name: String,
    pub avatar: Option<UserAvatar>,
}

#[derive(Debug, Clone)]
pub struct TextActivity {
    pub id: i32,
    pub user_id: Option<i32>,
    pub text: Option<String>,
    pub reply_count: i32,
    pub like_count: i32,
    pub is_liked: Option<bool>,
    pub is_pinned: Option<bool>,
    pub site_url: Option<String>,
    pub created_at: i32,
    pub user: Option<ActivityUser>,
}

#[derive(Debug, Clone)]
pub struct ListActivity {
    pub id: i32,
    pub user_id: Option<i32>,
    pub activity_type: Option<ActivityType>,
    pub status: Option<String>,
    pub progress: Option<String>,
    pub reply_count: i32,
    pub like_count: i32,
    pub is_liked: Option<bool>,
    pub is_pinned: Option<bool>,
    pub site_url: Option<String>,
    pub created_at: i32,
    pub user: Option<ActivityUser>,
    pub media: Option<ActivityMedia>,
}

#[derive(Debug, Clone)]
pub struct ActivityMedia {
    pub id: i32,
    pub media_type: Option<MediaType>,
    pub title: Option<MediaTitle>,
    pub cover_image: Option<MediaCoverImage>,
}

#[derive(Debug, Clone)]
pub struct MessageActivity {
    pub id: i32,
    pub recipient_id: Option<i32>,
    pub messenger_id: Option<i32>,
    pub activity_type: Option<ActivityType>,
    pub reply_count: i32,
    pub message: Option<String>,
    pub is_locked: Option<bool>,
    pub is_subscribed: Option<bool>,
    pub like_count: i32,
    pub is_liked: Option<bool>,
    pub is_private: Option<bool>,
    pub site_url: Option<String>,
    pub created_at: i32,
    pub recipient: Option<ActivityUser>,
    pub messenger: Option<ActivityUser>,
}

#[derive(Debug, Clone)]
pub struct ActivityReply {
    pub id: i32,
    pub user_id: Option<i32>,
    pub activity_id: Option<i32>,
    pub text: Option<String>,
    pub like_count: i32,
    pub is_liked: Option<bool>,
    pub created_at: i32,
    pub user: Option<ActivityUser>,
}

#[derive(Debug, Clone)]
pub struct Notification {
    pub id: i32,
    pub user_id: Option<i32>,
    pub notification_type: Option<NotificationType>,
    pub anime_id: Option<i32>,
    pub episode: Option<i32>,
    pub contexts: Option<Vec<String>>,
    pub created_at: Option<i32>,
    pub media: Option<NotificationMedia>,
    pub user: Option<NotificationUser>,
}

#[derive(Debug, Clone, Copy, PartialEq, Eq)]
pub enum NotificationType {
    ActivityMessage,
    ActivityReply,
    Following,
    ActivityMention,
    ThreadCommentMention,
    ThreadSubscribed,
    ThreadCommentReply,
    Airing,
    ActivityLike,
    ActivityReplyLike,
    ThreadLike,
    ThreadCommentLike,
    ActivityReplySubscribed,
    RelatedMediaAddition,
    MediaDataChange,
    MediaMerge,
    MediaDeletion,
}

#[derive(Debug, Clone)]
pub struct NotificationMedia {
    pub id: i32,
    pub media_type: Option<MediaType>,
    pub title: Option<MediaTitle>,
    pub cover_image: Option<MediaCoverImage>,
}

#[derive(Debug, Clone)]
pub struct NotificationUser {
    pub id: i32,
    pub name: String,
    pub avatar: Option<UserAvatar>,
}

} // verus!
