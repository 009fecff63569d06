//! Annotation endpoints: star, rating, scrobble.

use vstd::prelude::*;
use crate::nexus::{IdTemplate, parse_entity_id, parse_entity_id_model};
use crate::proxy::{keyed, pair_views, push_keyed, translate_ids, upstream_ids_of};
use crate::handlers::playlists::bool_text;
use crate::text::{decimal_i64, int_decimal, string_of};

verus! {

pub struct StarParams {
    pub id: Vec<String>,
    pub album_id: Vec<String>,
    pub artist_id: Vec<String>,
}

pub struct SetRatingParams {
    pub id: String,
    /// 0 to remove rating; 1–5 to set it.
    pub rating: i32,
}

pub struct ScrobbleParams {
    pub id: String,
    pub time: Option<i64>,
    pub submission: Option<bool>,
}

/// The parameters forwarded with `star`/`unstar`: one `id` per song, one
/// `albumId` per album and one `artistId` per artist, each mapped back to the
/// upstream ID.
pub open spec fn star_params_spec(template: IdTemplate, p: StarParams) -> Seq<
    (Seq<char>, Seq<char>),
> {
    keyed("id"@, upstream_ids_of(template, p.id@)) + keyed(
        "albumId"@,
        upstream_ids_of(template, p.album_id@),
    ) + keyed("artistId"@, upstream_ids_of(template, p.artist_id@))
}

/// The parameters of a star/unstar call to forward, or `None` when it names
/// no item and nothing is forwarded.
pub fn star_params(template: IdTemplate, params: &StarParams) -> (r: Option<Vec<(String, String)>>)
    ensures
        r is None <==> star_params_spec(template, *params).len() == 0,
        r matches Some(v) ==> pair_views(v@) == star_params_spec(template, *params),
{
    let mut r: Vec<(String, String)> = Vec::new();
    let songs = translate_ids(template, &params.id);
    push_keyed(&mut r, "id", &songs);
    let albums = translate_ids(template, &params.album_id);
    push_keyed(&mut r, "albumId", &albums);
    let artists = translate_ids(template, &params.artist_id);
    push_keyed(&mut r, "artistId", &artists);
    assert(pair_views(r@) =~= star_params_spec(template, *params));
    if r.len() == 0 {
        None
    } else {
        Some(r)
    }
}

/// Every item of a star/unstar request is forwarded, each with its upstream
/// ID and in the order given: first each song as `id`, then each album as
/// `albumId`, then each artist as `artistId`, and nothing else.
pub proof fn law_star_forwards_every_item(template: IdTemplate, p: StarParams)
    ensures
        star_params_spec(template, p).len() == p.id@.len() + p.album_id@.len()
            + p.artist_id@.len(),
        forall|i: int|
            0 <= i < p.id@.len() ==> #[trigger] star_params_spec(template, p)[i] == (
                "id"@,
                parse_entity_id_model(template, p.id@[i]@).1,
            ),
        forall|i: int|
            0 <= i < p.album_id@.len() ==> #[trigger] star_params_spec(template, p)[p.id@.len()
                + i] == ("albumId"@, parse_entity_id_model(template, p.album_id@[i]@).1),
        forall|i: int|
            0 <= i < p.artist_id@.len() ==> #[trigger] star_params_spec(template, p)[p.id@.len()
                + p.album_id@.len() + i] == (
                "artistId"@,
                parse_entity_id_model(template, p.artist_id@[i]@).1,
            ),
{
    let a = keyed("id"@, upstream_ids_of(template, p.id@));
    let b = keyed("albumId"@, upstream_ids_of(template, p.album_id@));
    let c = keyed("artistId"@, upstream_ids_of(template, p.artist_id@));
    let all = star_params_spec(template, p);
    assert(all == a + b + c);
    assert forall|i: int| 0 <= i < p.id@.len() implies #[trigger] all[i] == (
        "id"@,
        parse_entity_id_model(template, p.id@[i]@).1,
    ) by {
        assert(all[i] == a[i]);
    }
    assert forall|i: int| 0 <= i < p.album_id@.len() implies #[trigger] all[p.id@.len() + i] == (
        "albumId"@,
        parse_entity_id_model(template, p.album_id@[i]@).1,
    ) by {
        assert(all[p.id@.len() + i] == b[i]);
    }
    assert forall|i: int| 0 <= i < p.artist_id@.len() implies #[trigger] all[p.id@.len()
        + p.album_id@.len() + i] == (
        "artistId"@,
        parse_entity_id_model(template, p.artist_id@[i]@).1,
    ) by {
        assert(all[p.id@.len() + p.album_id@.len() + i] == c[i]);
    }
}

/// The parameters forwarded with `setRating`: the upstream song ID and the
/// rating.
pub fn set_rating_params(template: IdTemplate, params: &SetRatingParams) -> (r: Vec<
    (String, String),
>)
    ensures
        pair_views(r@) == seq![
            ("id"@, parse_entity_id_model(template, params.id@).1),
            ("rating"@, int_decimal(params.rating as int)),
        ],
{
    let parsed = parse_entity_id(template, params.id.as_str());
    let mut r: Vec<(String, String)> = Vec::new();
    r.push((String::from_str("id"), parsed.upstream_id));
    r.push((String::from_str("rating"), string_of(&decimal_i64(params.rating as i64))));
    assert(pair_views(r@) =~= seq![
        ("id"@, parse_entity_id_model(template, params.id@).1),
        ("rating"@, int_decimal(params.rating as int)),
    ]);
    r
}

/// The parameters forwarded with `scrobble` to the song's own server: its
/// upstream ID, then the time and the submission flag when given.
pub open spec fn scrobble_params_spec(upstream_id: Seq<char>, p: ScrobbleParams) -> Seq<
    (Seq<char>, Seq<char>),
> {
    seq![("id"@, upstream_id)] + (match p.time {
        Some(t) => seq![("time"@, int_decimal(t as int))],
        None => Seq::empty(),
    }) + (match p.submission {
        Some(b) => seq![("submission"@, bool_text(b))],
        None => Seq::empty(),
    })
}

/// `scrobble` forwards the song's upstream ID as `id` first, then the time
/// (in decimal) when given, then the submission flag as `true` or `false`
/// when given, and nothing else.
pub proof fn law_scrobble_forwards_play(upstream_id: Seq<char>, p: ScrobbleParams, t: i64)
    ensures
        scrobble_params_spec(upstream_id, p)[0] == ("id"@, upstream_id),
        p.time == Some(t) && p.submission == Some(true) ==> scrobble_params_spec(upstream_id, p)
            == seq![("id"@, upstream_id), ("time"@, int_decimal(t as int)), ("submission"@, "true"@)],
        p.time == Some(t) && p.submission == Some(false) ==> scrobble_params_spec(upstream_id, p)
            == seq![("id"@, upstream_id), ("time"@, int_decimal(t as int)), ("submission"@, "false"@)],
        p.time is None && p.submission is None ==> scrobble_params_spec(upstream_id, p) == seq![
            ("id"@, upstream_id),
        ],
        scrobble_params_spec(upstream_id, p).len() == 1 + (if p.time is Some { 1int } else { 0 }) + (
        if p.submission is Some {
            1int
        } else {
            0
        }),
{
    let a = seq![("id"@, upstream_id)];
    let b = match p.time {
        Some(x) => seq![("time"@, int_decimal(x as int))],
        None => Seq::<(Seq<char>, Seq<char>)>::empty(),
    };
    let c = match p.submission {
        Some(x) => seq![("submission"@, bool_text(x))],
        None => Seq::<(Seq<char>, Seq<char>)>::empty(),
    };
    let all = scrobble_params_spec(upstream_id, p);
    assert(all == a + b + c);
    assert(all[0] == a[0]);
    if p.time == Some(t) && p.submission is Some {
        assert(all =~= seq![("id"@, upstream_id), ("time"@, int_decimal(t as int)), (
            "submission"@,
            bool_text(p.submission->0),
        )]);
    }
    if p.time is None && p.submission is None {
        assert(all =~= a);
    }
}

pub fn scrobble_params(upstream_id: &str, params: &ScrobbleParams) -> (r: Vec<(String, String)>)
    ensures
        pair_views(r@) == scrobble_params_spec(upstream_id@, *params),
{
    let mut r: Vec<(String, String)> = Vec::new();
    r.push((String::from_str("id"), String::from_str(upstream_id)));
    match params.time {
        Some(t) => {
            r.push((String::from_str("time"), string_of(&decimal_i64(t))));
        },
        None => {},
    }
    match params.submission {
        Some(b) => {
            let t = if b {
                String::from_str("true")
            } else {
                String::from_str("false")
            };
            r.push((String::from_str("submission"), t));
        },
        None => {},
    }
    assert(pair_views(r@) =~= scrobble_params_spec(upstream_id@, *params));
    r
}

} // verus!
