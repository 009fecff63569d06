//! Playlist and play-queue endpoints.

use vstd::prelude::*;
use crate::nexus::{IdTemplate, parse_entity_id_model};
use crate::proxy::{
    keyed, nonempty_pair, pair_views, push_keyed, push_nonempty, translate_ids, upstream_ids_of,
};
use crate::sql::views;
use crate::text::{decimal_i64, int_decimal, string_of};

verus! {

pub struct GetPlaylistsParams {
    pub username: Option<String>,
}

pub struct GetPlaylistParams {
    pub id: String,
}

pub struct CreatePlaylistParams {
    pub playlist_id: Option<String>,
    pub name: Option<String>,
    pub song_id: Vec<String>,
}

pub struct UpdatePlaylistParams {
    pub playlist_id: String,
    pub name: Option<String>,
    pub comment: Option<String>,
    pub public: Option<bool>,
    pub song_id_to_add: Vec<String>,
    pub song_index_to_remove: Vec<i32>,
}

pub struct DeletePlaylistParams {
    pub id: String,
}

pub struct SavePlayQueueParams {
    pub id: Vec<String>,
    pub current: Option<String>,
    pub position: Option<i64>,
}

pub struct SavePlayQueueByIndexParams {
    pub id: Vec<String>,
    pub current_index: Option<i32>,
    pub position: Option<i64>,
}

/// `Some(s@)` for `Some(s)`.
pub open spec fn opt_chars(o: Option<String>) -> Option<Seq<char>> {
    match o {
        Some(s) => Some(s@),
        None => None,
    }
}

// ── getPlaylists ──────────────────────────────────────────────────────────────

/// The user whose playlists are listed: the `username` parameter, else the
/// authenticated user.
pub open spec fn playlists_user(p: GetPlaylistsParams, auth_user: Option<String>) -> Option<
    Seq<char>,
> {
    if p.username is Some {
        opt_chars(p.username)
    } else {
        opt_chars(auth_user)
    }
}

/// The parameters forwarded with `getPlaylists`.
pub fn get_playlists_params(params: &GetPlaylistsParams, auth_user: &Option<String>) -> (r: Vec<
    (String, String),
>)
    ensures
        pair_views(r@) == (match playlists_user(*params, *auth_user) {
            Some(u) => seq![("username"@, u)],
            None => Seq::empty(),
        }),
{
    let mut r: Vec<(String, String)> = Vec::new();
    let u = match &params.username {
        Some(u) => Some(u),
        None => match auth_user {
            Some(a) => Some(a),
            None => None,
        },
    };
    match u {
        Some(u) => {
            r.push((String::from_str("username"), u.clone()));
        },
        None => {},
    }
    assert(pair_views(r@) =~= match playlists_user(*params, *auth_user) {
        Some(u) => seq![("username"@, u)],
        None => Seq::<(Seq<char>, Seq<char>)>::empty(),
    });
    r
}

// ── createPlaylist / updatePlaylist ───────────────────────────────────────────

/// The parameters forwarded with `createPlaylist`: the name and playlist id
/// when given and not empty, then one `songId` per song, mapped back to the
/// upstream ID.
pub open spec fn create_playlist_params_spec(template: IdTemplate, p: CreatePlaylistParams) -> Seq<
    (Seq<char>, Seq<char>),
> {
    nonempty_pair("name"@, opt_chars(p.name)) + nonempty_pair(
        "playlistId"@,
        opt_chars(p.playlist_id),
    ) + keyed("songId"@, upstream_ids_of(template, p.song_id@))
}

pub fn create_playlist_params(template: IdTemplate, params: &CreatePlaylistParams) -> (r: Vec<
    (String, String),
>)
    ensures
        pair_views(r@) == create_playlist_params_spec(template, *params),
{
    let mut r: Vec<(String, String)> = Vec::new();
    push_nonempty(&mut r, "name", &params.name);
    push_nonempty(&mut r, "playlistId", &params.playlist_id);
    let songs = translate_ids(template, &params.song_id);
    push_keyed(&mut r, "songId", &songs);
    assert(pair_views(r@) =~= create_playlist_params_spec(template, *params));
    r
}

/// The text of a boolean, as `bool::to_string` writes it.
pub open spec fn bool_text(b: bool) -> Seq<char> {
    if b {
        "true"@
    } else {
        "false"@
    }
}

/// The decimal texts of the indexes.
pub open spec fn decimal_texts(v: Seq<i32>) -> Seq<Seq<char>> {
    v.map_values(|n: i32| int_decimal(n as int))
}

/// The parameters forwarded with `updatePlaylist`: the playlist id, then the
/// name, comment and public flag when given (and not empty), then one
/// `songIdToAdd` per song to add, mapped back to the upstream ID, then one
/// `songIndexToRemove` per index.
pub open spec fn update_playlist_params_spec(template: IdTemplate, p: UpdatePlaylistParams) -> Seq<
    (Seq<char>, Seq<char>),
> {
    seq![("playlistId"@, p.playlist_id@)] + nonempty_pair("name"@, opt_chars(p.name))
        + nonempty_pair("comment"@, opt_chars(p.comment)) + (match p.public {
        Some(b) => seq![("public"@, bool_text(b))],
        None => Seq::empty(),
    }) + keyed("songIdToAdd"@, upstream_ids_of(template, p.song_id_to_add@)) + keyed(
        "songIndexToRemove"@,
        decimal_texts(p.song_index_to_remove@),
    )
}

fn decimal_strings(v: &Vec<i32>) -> (r: Vec<String>)
    ensures
        views(r@) == decimal_texts(v@),
{
    let mut r: Vec<String> = Vec::new();
    let mut i: usize = 0;
    while i < v.len()
        invariant
            i <= v@.len(),
            r@.len() == i,
            forall|j: int| 0 <= j < i ==> (#[trigger] r@[j])@ == int_decimal(v@[j] as int),
        decreases v.len() - i,
    {
        r.push(string_of(&decimal_i64(v[i] as i64)));
        i = i + 1;
    }
    assert(views(r@) =~= decimal_texts(v@));
    r
}

pub fn update_playlist_params(template: IdTemplate, params: &UpdatePlaylistParams) -> (r: Vec<
    (String, String),
>)
    ensures
        pair_views(r@) == update_playlist_params_spec(template, *params),
{
    let mut r: Vec<(String, String)> = Vec::new();
    r.push((String::from_str("playlistId"), params.playlist_id.clone()));
    push_nonempty(&mut r, "name", &params.name);
    push_nonempty(&mut r, "comment", &params.comment);
    let ghost before = pair_views(r@);
    match params.public {
        Some(b) => {
            let t = if b {
                String::from_str("true")
            } else {
                String::from_str("false")
            };
            r.push((String::from_str("public"), t));
        },
        None => {},
    }
    assert(pair_views(r@) =~= before + match params.public {
        Some(b) => seq![("public"@, bool_text(b))],
        None => Seq::<(Seq<char>, Seq<char>)>::empty(),
    });
    let adds = translate_ids(template, &params.song_id_to_add);
    push_keyed(&mut r, "songIdToAdd", &adds);
    let removes = decimal_strings(&params.song_index_to_remove);
    push_keyed(&mut r, "songIndexToRemove", &removes);
    assert(pair_views(r@) =~= update_playlist_params_spec(template, *params));
    r
}

// ── Play queue ────────────────────────────────────────────────────────────────

/// The owner reported for the (always empty) play queue: the authenticated
/// user, or `admin`.
pub fn play_queue_user(auth_user: &Option<String>) -> (r: String)
    ensures
        r@ == (match *auth_user {
            Some(u) => u@,
            None => "admin"@,
        }),
{
    match auth_user {
        Some(u) => u.clone(),
        None => String::from_str("admin"),
    }
}

/// One pair `(key, n)` when `n` is given.
pub open spec fn number_pair(key: Seq<char>, n: Option<i64>) -> Seq<(Seq<char>, Seq<char>)> {
    match n {
        Some(v) => seq![(key, int_decimal(v as int))],
        None => Seq::empty(),
    }
}

fn push_number(out: &mut Vec<(String, String)>, key: &str, n: Option<i64>)
    ensures
        pair_views(final(out)@) == pair_views(old(out)@) + number_pair(key@, n),
{
    match n {
        Some(v) => {
            out.push((String::from_str(key), string_of(&decimal_i64(v))));
        },
        None => {},
    }
    assert(pair_views(final(out)@) =~= pair_views(old(out)@) + number_pair(key@, n));
}

/// The parameters forwarded with `savePlayQueue`: the current song when given
/// and not empty, the position when given, then one `id` per queued song,
/// mapped back to the upstream ID.
pub open spec fn save_play_queue_params_spec(template: IdTemplate, p: SavePlayQueueParams) -> Seq<
    (Seq<char>, Seq<char>),
> {
    nonempty_pair("current"@, opt_chars(p.current)) + number_pair("position"@, p.position) + keyed(
        "id"@,
        upstream_ids_of(template, p.id@),
    )
}

pub fn save_play_queue_params(template: IdTemplate, params: &SavePlayQueueParams) -> (r: Vec<
    (String, String),
>)
    ensures
        pair_views(r@) == save_play_queue_params_spec(template, *params),
{
    let mut r: Vec<(String, String)> = Vec::new();
    push_nonempty(&mut r, "current", &params.current);
    push_number(&mut r, "position", params.position);
    let ids = translate_ids(template, &params.id);
    push_keyed(&mut r, "id", &ids);
    assert(pair_views(r@) =~= save_play_queue_params_spec(template, *params));
    r
}

/// The parameters forwarded with `savePlayQueueByIndex`: the current index and
/// the position when given, then one `id` per queued song, mapped back to the
/// upstream ID.
pub open spec fn save_play_queue_by_index_params_spec(
    template: IdTemplate,
    p: SavePlayQueueByIndexParams,
) -> Seq<(Seq<char>, Seq<char>)> {
    number_pair(
        "currentIndex"@,
        match p.current_index {
            Some(i) => Some(i as i64),
            None => None,
        },
    ) + number_pair("position"@, p.position) + keyed("id"@, upstream_ids_of(template, p.id@))
}

pub fn save_play_queue_by_index_params(
    template: IdTemplate,
    params: &SavePlayQueueByIndexParams,
) -> (r: Vec<(String, String)>)
    ensures
        pair_views(r@) == save_play_queue_by_index_params_spec(template, *params),
{
    let mut r: Vec<(String, String)> = Vec::new();
    let ci = match params.current_index {
        Some(i) => Some(i as i64),
        None => None,
    };
    push_number(&mut r, "currentIndex", ci);
    push_number(&mut r, "position", params.position);
    let ids = translate_ids(template, &params.id);
    push_keyed(&mut r, "id", &ids);
    assert(pair_views(r@) =~= save_play_queue_by_index_params_spec(template, *params));
    r
}


// ── Laws of the forwarded parameters ─────────────────────────────────────────

/// From position `start` on, `params` holds `(key, upstream ID)` for each of
/// the nexus IDs `ids`, in order.
pub open spec fn forwards_ids(
    params: Seq<(Seq<char>, Seq<char>)>,
    start: int,
    key: Seq<char>,
    template: IdTemplate,
    ids: Seq<String>,
) -> bool {
    forall|i: int|
        0 <= i < ids.len() ==> #[trigger] params[start + i] == (
            key,
            parse_entity_id_model(template, ids[i]@).1,
        )
}

/// Whether an optional text is given and not empty.
pub open spec fn given(o: Option<String>) -> bool {
    o matches Some(s) && s@.len() > 0
}

proof fn lemma_ids_block(
    front: Seq<(Seq<char>, Seq<char>)>,
    key: Seq<char>,
    template: IdTemplate,
    ids: Seq<String>,
    back: Seq<(Seq<char>, Seq<char>)>,
)
    ensures
        forwards_ids(
            front + keyed(key, upstream_ids_of(template, ids)) + back,
            front.len() as int,
            key,
            template,
            ids,
        ),
        keyed(key, upstream_ids_of(template, ids)).len() == ids.len(),
{
    let all = front + keyed(key, upstream_ids_of(template, ids)) + back;
    assert forall|i: int| 0 <= i < ids.len() implies #[trigger] all[front.len() + i] == (
        key,
        parse_entity_id_model(template, ids[i]@).1,
    ) by {
        assert(all[front.len() + i] == keyed(key, upstream_ids_of(template, ids))[i]);
    }
}

/// `createPlaylist` forwards the name and the playlist id when given and not
/// empty, then every song, in order, as `songId` with its upstream ID, and
/// nothing else.
pub proof fn law_create_playlist_forwards_songs(template: IdTemplate, p: CreatePlaylistParams)
    ensures
        ({
            let f = create_playlist_params_spec(template, p);
            let head = (if given(p.name) { 1int } else { 0 }) + (if given(p.playlist_id) {
                1int
            } else {
                0
            });
            &&& f.len() == head + p.song_id@.len()
            &&& given(p.name) ==> f[0] == ("name"@, p.name->0@)
            &&& forwards_ids(f, head, "songId"@, template, p.song_id@)
        }),
{
    let front = nonempty_pair("name"@, opt_chars(p.name)) + nonempty_pair(
        "playlistId"@,
        opt_chars(p.playlist_id),
    );
    lemma_ids_block(front, "songId"@, template, p.song_id@, Seq::empty());
    assert(front + keyed("songId"@, upstream_ids_of(template, p.song_id@)) + Seq::empty()
        =~= create_playlist_params_spec(template, p));
}

/// `updatePlaylist` forwards the playlist id first, then the name, comment
/// and public flag when given, then every song to add, in order, as
/// `songIdToAdd` with its upstream ID, then every index to remove as
/// `songIndexToRemove`, and nothing else.
pub proof fn law_update_playlist_forwards_changes(template: IdTemplate, p: UpdatePlaylistParams)
    ensures
        ({
            let f = update_playlist_params_spec(template, p);
            let head = 1 + (if given(p.name) { 1int } else { 0 }) + (if given(p.comment) {
                1int
            } else {
                0
            }) + (if p.public is Some { 1int } else { 0 });
            let adds = p.song_id_to_add@.len();
            let removes = p.song_index_to_remove@;
            &&& f.len() == head + adds + removes.len()
            &&& f[0] == ("playlistId"@, p.playlist_id@)
            &&& forwards_ids(f, head, "songIdToAdd"@, template, p.song_id_to_add@)
            &&& forall|i: int|
                0 <= i < removes.len() ==> #[trigger] f[head + adds + i] == (
                    "songIndexToRemove"@,
                    int_decimal(removes[i] as int),
                )
        }),
{
    let front = seq![("playlistId"@, p.playlist_id@)] + nonempty_pair("name"@, opt_chars(p.name))
        + nonempty_pair("comment"@, opt_chars(p.comment)) + (match p.public {
        Some(b) => seq![("public"@, bool_text(b))],
        None => Seq::empty(),
    });
    let back = keyed("songIndexToRemove"@, decimal_texts(p.song_index_to_remove@));
    let f = update_playlist_params_spec(template, p);
    lemma_ids_block(front, "songIdToAdd"@, template, p.song_id_to_add@, back);
    let mid = keyed("songIdToAdd"@, upstream_ids_of(template, p.song_id_to_add@));
    assert(f =~= front + mid + back);
    assert(f[0] == front[0]);
    let head = front.len() as int;
    let adds = p.song_id_to_add@.len() as int;
    assert forall|i: int| 0 <= i < p.song_index_to_remove@.len() implies #[trigger] f[head + adds
        + i] == ("songIndexToRemove"@, int_decimal(p.song_index_to_remove@[i] as int)) by {
        assert(f[head + adds + i] == back[i]);
    }
}

/// `savePlayQueue` forwards the current song when given and not empty and
/// the position when given, then every queued song, in order, as `id` with
/// its upstream ID, and nothing else.
pub proof fn law_save_play_queue_forwards_queue(template: IdTemplate, p: SavePlayQueueParams)
    ensures
        ({
            let f = save_play_queue_params_spec(template, p);
            let head = (if given(p.current) { 1int } else { 0 }) + (if p.position is Some {
                1int
            } else {
                0
            });
            &&& f.len() == head + p.id@.len()
            &&& forwards_ids(f, head, "id"@, template, p.id@)
        }),
{
    let front = nonempty_pair("current"@, opt_chars(p.current)) + number_pair(
        "position"@,
        p.position,
    );
    lemma_ids_block(front, "id"@, template, p.id@, Seq::empty());
    assert(front + keyed("id"@, upstream_ids_of(template, p.id@)) + Seq::empty()
        =~= save_play_queue_params_spec(template, p));
}

} // verus!
