//! Endpoint parameters and the decisions the endpoint handlers make.

pub mod admin;
pub mod advanced;
pub mod bookmarks;
pub mod browsing;
pub mod chat;
pub mod internet_radio;
pub mod lists;
pub mod media_annotation;
pub mod media_retrieval;
pub mod playlists;
pub mod podcast;
pub mod searching;
pub mod sharing;
pub mod system;
pub mod user_management;
