//! Sonic-similarity endpoints (`findSonicPath`, `getSonicSimilarTracks`).

use vstd::prelude::*;

verus! {

pub struct FindSonicPathParams {
    pub start_song_id: String,
    pub end_song_id: String,
    pub count: Option<i32>,
}

pub struct GetSonicSimilarTracksParams {
    pub id: String,
    pub count: Option<i32>,
}

} // verus!
