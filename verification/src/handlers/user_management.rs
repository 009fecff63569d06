//! User management endpoints.

use vstd::prelude::*;

verus! {

pub struct GetUserParams {
    pub username: String,
}

pub struct CreateUserParams {
    pub username: String,
    pub password: String,
    pub email: String,
    pub ldap_authenticated: Option<bool>,
    pub admin_role: Option<bool>,
    pub settings_role: Option<bool>,
    pub stream_role: Option<bool>,
    pub jukebox_role: Option<bool>,
    pub download_role: Option<bool>,
    pub upload_role: Option<bool>,
    pub playlist_role: Option<bool>,
    pub cover_art_role: Option<bool>,
    pub comment_role: Option<bool>,
    pub podcast_role: Option<bool>,
    pub share_role: Option<bool>,
    pub video_conversion_role: Option<bool>,
    pub music_folder_id: Vec<String>,
}

pub struct UpdateUserParams {
    pub username: String,
    pub password: String,
    pub email: Option<String>,
    pub ldap_authenticated: Option<bool>,
    pub admin_role: Option<bool>,
    pub settings_role: Option<bool>,
    pub stream_role: Option<bool>,
    pub jukebox_role: Option<bool>,
    pub download_role: Option<bool>,
    pub upload_role: Option<bool>,
    pub playlist_role: Option<bool>,
    pub cover_art_role: Option<bool>,
    pub comment_role: Option<bool>,
    pub podcast_role: Option<bool>,
    pub share_role: Option<bool>,
    pub video_conversion_role: Option<bool>,
    pub max_bit_rate: Option<i32>,
    pub music_folder_id: Vec<String>,
}

pub struct DeleteUserParams {
    pub username: String,
}

pub struct ChangePasswordParams {
    pub username: String,
    pub password: String,
}

} // verus!
