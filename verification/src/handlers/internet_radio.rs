//! Internet radio station endpoints.

use vstd::prelude::*;
use crate::error::{ErrorCode, SubsonicError};

verus! {

pub struct CreateInternetRadioStationParams {
    pub stream_url: String,
    pub name: String,
    pub homepage_url: Option<String>,
}

pub struct UpdateInternetRadioStationParams {
    pub id: String,
    pub stream_url: String,
    pub name: String,
    pub homepage_url: Option<String>,
}

pub struct DeleteInternetRadioStationParams {
    pub id: String,
}

/// The answer to every request that would change the radio stations, which
/// come from the upstream servers.
pub fn radio_management_unsupported() -> (e: SubsonicError)
    ensures
        e.code == ErrorCode::NotAuthorized,
        e.message@ == "Internet radio management is not supported"@,
{
    SubsonicError::not_authorized("Internet radio management is not supported")
}

/// The stored radio stations, by name.
pub const RADIO_STATIONS_SQL: &'static str = "SELECT irs.id AS db_id, irs.upstream_id, irs.name, irs.stream_url, irs.metadata_json FROM internet_radio_stations irs ORDER BY irs.name COLLATE NOCASE";

} // verus!
