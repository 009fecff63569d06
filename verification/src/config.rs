//! Configuration types for `nexus.toml`.
//!
//! Credentials (username, password) live here and are never written to the
//! database.  Templates are written to the database after each scan so that a
//! change that requires a full rescan can be detected.

use vstd::prelude::*;

verus! {

/// The full contents of `nexus.toml`.
#[derive(Debug, Clone)]
pub struct Config {
    pub servers: Vec<ServerConfig>,
    pub nexus: NexusConfig,
}

/// Per-upstream-server configuration.
#[derive(Debug, Clone)]
pub struct ServerConfig {
    pub name: String,
    pub url: String,
    pub username: String,
    pub password: String,
    /// Lower value = higher priority (used when aggregating entities across servers).
    pub priority: i32,
    pub matching: MatchingConfig,
}

/// Aggregation-key templates for one server.
///
/// Artist fields: `music_brainz_id`, `name`, `sort_name`.
/// Album fields: `music_brainz_id`, `name`, `sort_name`, `year`,
/// `display_artist`, `artist_key` (the artist's computed key).
#[derive(Debug, Clone)]
pub struct MatchingConfig {
    pub artist: String,
    pub album: String,
}

/// Settings of the aggregating server itself (`[nexus]`).
#[derive(Debug, Clone)]
pub struct NexusConfig {
    /// How entity IDs are built: `{upstream_id}`, `{server_name}:{upstream_id}`
    /// or `{server_id}:{upstream_id}`.
    pub entity_id_template: String,
    /// The server that playlist, play-queue and annotation writes go to.
    pub write_target: Option<String>,
    /// Stream media through this server instead of redirecting to the upstream.
    pub proxy: bool,
    /// Credentials clients must present; `None` accepts every login.
    pub auth: Option<AuthConfig>,
}

/// Credentials accepted from clients (`[nexus.auth]`).
#[derive(Debug, Clone)]
pub struct AuthConfig {
    pub username: String,
    pub password: String,
    pub api_keys: Vec<String>,
}

/// The default artist aggregation-key template.
pub open spec fn default_artist_template_model() -> Seq<char> {
    "{music_brainz_id:-{name|lowercase|trim}}"@
}

/// The default album aggregation-key template.
pub open spec fn default_album_template_model() -> Seq<char> {
    "{music_brainz_id:-{artist_key}:{name|lowercase|trim}}"@
}

/// The default entity-ID template.
pub open spec fn default_entity_id_template_model() -> Seq<char> {
    "{upstream_id}"@
}

pub fn default_artist_template() -> (r: String)
    ensures
        r@ == default_artist_template_model(),
{
    String::from_str("{music_brainz_id:-{name|lowercase|trim}}")
}

pub fn default_album_template() -> (r: String)
    ensures
        r@ == default_album_template_model(),
{
    String::from_str("{music_brainz_id:-{artist_key}:{name|lowercase|trim}}")
}

impl Default for MatchingConfig {
    fn default() -> (r: Self)
        ensures
            r.artist@ == default_artist_template_model(),
            r.album@ == default_album_template_model(),
    {
        MatchingConfig { artist: default_artist_template(), album: default_album_template() }
    }
}

impl Default for NexusConfig {
    fn default() -> (r: Self)
        ensures
            r.entity_id_template@ == default_entity_id_template_model(),
            r.write_target is None,
            !r.proxy,
            r.auth is None,
    {
        NexusConfig {
            entity_id_template: String::from_str("{upstream_id}"),
            write_target: None,
            proxy: false,
            auth: None,
        }
    }
}

impl Default for Config {
    fn default() -> (r: Self)
        ensures
            r.servers@.len() == 0,
            r.nexus.entity_id_template@ == default_entity_id_template_model(),
            r.nexus.write_target is None,
            !r.nexus.proxy,
            r.nexus.auth is None,
    {
        Config { servers: Vec::new(), nexus: NexusConfig::default() }
    }
}

impl Config {
    /// The first configured server named `name`.
    pub fn server_by_name(&self, name: &str) -> (r: Option<&ServerConfig>)
        ensures
            r is None <==> forall|i: int|
                0 <= i < self.servers@.len() ==> (#[trigger] self.servers@[i]).name@ != name@,
            r matches Some(s) ==> exists|i: int|
                0 <= i < self.servers@.len() && *s == self.servers@[i] && s.name@ == name@
                    && forall|j: int| 0 <= j < i ==> (#[trigger] self.servers@[j]).name@ != name@,
    {
        let target = crate::text::chars_of(name);
        let mut i: usize = 0;
        while i < self.servers.len()
            invariant
                i <= self.servers@.len(),
                target@ == name@,
                forall|j: int| 0 <= j < i ==> (#[trigger] self.servers@[j]).name@ != name@,
            decreases self.servers.len() - i,
        {
            let n = crate::text::chars_of(self.servers[i].name.as_str());
            if crate::text::chars_eq(&n, &target) {
                return Some(&self.servers[i]);
            }
            i = i + 1;
        }
        None
    }
}

} // verus!
