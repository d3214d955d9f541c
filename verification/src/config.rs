//! The configuration of the service: defaults, configuration files and environment
//! variables, each overriding the one before.

use crate::text::{opt_text, pieces, split, texts, trim, trimmed};
use vstd::prelude::*;

verus! {

/// The configuration.
#[derive(Debug, Clone)]
pub struct Config {
    pub server: ServerConfig,
    pub api: ApiConfig,
    pub spotify: SpotifyConfig,
    pub letterboxd: LetterboxdConfig,
    pub cache: CacheConfig,
    pub cors: CorsConfig,
}

/// Where to listen, and how much to log.
#[derive(Debug, Clone)]
pub struct ServerConfig {
    pub host: String,
    pub port: String,
    pub log_level: String,
}

/// The API key; mostly it comes from the environment.
#[derive(Debug, Clone)]
pub struct ApiConfig {
    pub key: Option<String>,
}

/// The Spotify credentials, which mostly come from the environment, and what to show.
#[derive(Debug, Clone)]
pub struct SpotifyConfig {
    pub client_id: Option<String>,
    pub client_secret: Option<String>,
    pub refresh_token: Option<String>,
    pub excluded_genres: Vec<String>,
    pub tracks_limit: usize,
}

/// The feed to read, and how much of it to show.
#[derive(Debug, Clone)]
pub struct LetterboxdConfig {
    pub default_feed_url: String,
    pub movies_limit: usize,
}

/// How long what was fetched may be served again.
#[derive(Debug, Clone)]
pub struct CacheConfig {
    pub spotify_duration_secs: u64,
    pub letterboxd_duration_secs: u64,
}

/// Whose pages may use the service.
#[derive(Debug, Clone)]
pub struct CorsConfig {
    pub allowed_origin: String,
}

/// The model of [`Config`].
#[verifier::ext_equal]
pub struct ConfigView {
    pub host: Seq<char>,
    pub port: Seq<char>,
    pub log_level: Seq<char>,
    pub api_key: Option<Seq<char>>,
    pub client_id: Option<Seq<char>>,
    pub client_secret: Option<Seq<char>>,
    pub refresh_token: Option<Seq<char>>,
    pub excluded_genres: Seq<Seq<char>>,
    pub tracks_limit: nat,
    pub default_feed_url: Seq<char>,
    pub movies_limit: nat,
    pub spotify_duration_secs: nat,
    pub letterboxd_duration_secs: nat,
    pub allowed_origin: Seq<char>,
}

impl View for Config {
    type V = ConfigView;

    open spec fn view(&self) -> ConfigView {
        ConfigView {
            host: self.server.host@,
            port: self.server.port@,
            log_level: self.server.log_level@,
            api_key: opt_text(self.api.key),
            client_id: opt_text(self.spotify.client_id),
            client_secret: opt_text(self.spotify.client_secret),
            refresh_token: opt_text(self.spotify.refresh_token),
            excluded_genres: texts(self.spotify.excluded_genres@),
            tracks_limit: self.spotify.tracks_limit as nat,
            default_feed_url: self.letterboxd.default_feed_url@,
            movies_limit: self.letterboxd.movies_limit as nat,
            spotify_duration_secs: self.cache.spotify_duration_secs as nat,
            letterboxd_duration_secs: self.cache.letterboxd_duration_secs as nat,
            allowed_origin: self.cors.allowed_origin@,
        }
    }
}

/// The configuration of a service that nobody has configured.
pub open spec fn default_config() -> ConfigView {
    ConfigView {
        host: "0.0.0.0"@,
        port: "4653"@,
        log_level: "info"@,
        api_key: None,
        client_id: None,
        client_secret: None,
        refresh_token: None,
        excluded_genres: seq!["comedy"@],
        tracks_limit: 6,
        default_feed_url: "https://letterboxd.com/atropos_Dad/rss"@,
        movies_limit: 5,
        spotify_duration_secs: 900,
        letterboxd_duration_secs: 3600,
        allowed_origin: "https://jeaic.com"@,
    }
}

impl Default for Config {
    fn default() -> (r: Config)
        ensures
            r@ == default_config(),
    {
        let mut excluded_genres: Vec<String> = Vec::new();
        excluded_genres.push("comedy".to_owned());
        assert(texts(excluded_genres@) =~= seq!["comedy"@]);
        Config {
            server: ServerConfig {
                host: "0.0.0.0".to_owned(),
                port: "4653".to_owned(),
                log_level: "info".to_owned(),
            },
            api: ApiConfig { key: None },
            spotify: SpotifyConfig {
                client_id: None,
                client_secret: None,
                refresh_token: None,
                excluded_genres,
                tracks_limit: 6,
            },
            letterboxd: LetterboxdConfig {
                default_feed_url: "https://letterboxd.com/atropos_Dad/rss".to_owned(),
                movies_limit: 5,
            },
            cache: CacheConfig { spotify_duration_secs: 900, letterboxd_duration_secs: 3600 },
            cors: CorsConfig { allowed_origin: "https://jeaic.com".to_owned() },
        }
    }
}

/// What became of a configuration file.
pub enum ConfigSource {
    /// There is none.
    Missing,
    /// It could not be read or parsed.
    Unreadable(String),
    Loaded(Config),
}

/// The environment variables that the configuration heeds.
pub struct EnvVars {
    pub host: Option<String>,
    pub port: Option<String>,
    pub rust_log: Option<String>,
    pub api_key: Option<String>,
    pub spotify_client_id: Option<String>,
    pub spotify_client_secret: Option<String>,
    pub spotify_refresh_token: Option<String>,
    pub spotify_excluded_genres: Option<String>,
    pub allowed_origin: Option<String>,
}

/// The outcome of loading a configuration, in its models.
pub open spec fn config_result(r: Result<Config, String>) -> Result<ConfigView, Seq<char>> {
    match r {
        Ok(config) => Ok(config@),
        Err(e) => Err(e@),
    }
}

/// The configuration of the first file that is there; the default where none is.
pub open spec fn chosen(sources: Seq<ConfigSource>) -> Result<ConfigView, Seq<char>>
    decreases sources.len(),
{
    if sources.len() == 0 {
        Ok(default_config())
    } else {
        match sources[0] {
            ConfigSource::Missing => chosen(sources.drop_first()),
            ConfigSource::Unreadable(e) => Err(e@),
            ConfigSource::Loaded(config) => Ok(config@),
        }
    }
}

/// The text of a variable if it is set, else the value that stood there.
pub open spec fn set_or(variable: Option<String>, value: Seq<char>) -> Seq<char> {
    match variable {
        Some(text) => text@,
        None => value,
    }
}

/// The same for a value that may be missing.
pub open spec fn set_or_kept(variable: Option<String>, value: Option<Seq<char>>) -> Option<
    Seq<char>,
> {
    match variable {
        Some(text) => Some(text@),
        None => value,
    }
}

/// The entries of a list that are not empty, trimmed.
pub open spec fn trimmed_entries(entries: Seq<Seq<char>>) -> Seq<Seq<char>>
    decreases entries.len(),
{
    if entries.len() == 0 {
        Seq::empty()
    } else {
        let before = trimmed_entries(entries.drop_last());
        if entries.last().len() > 0 {
            before.push(trimmed(entries.last()))
        } else {
            before
        }
    }
}

/// A configuration overridden by the environment.
pub open spec fn overridden(config: ConfigView, env: EnvVars) -> ConfigView {
    ConfigView {
        host: set_or(env.host, config.host),
        port: set_or(env.port, config.port),
        log_level: set_or(env.rust_log, config.log_level),
        api_key: set_or_kept(env.api_key, config.api_key),
        client_id: set_or_kept(env.spotify_client_id, config.client_id),
        client_secret: set_or_kept(env.spotify_client_secret, config.client_secret),
        refresh_token: set_or_kept(env.spotify_refresh_token, config.refresh_token),
        excluded_genres: match env.spotify_excluded_genres {
            Some(list) => trimmed_entries(pieces(list@, ',')),
            None => config.excluded_genres,
        },
        allowed_origin: set_or(env.allowed_origin, config.allowed_origin),
        ..config
    }
}

/// The configuration that is used: the file's, or the default where the file is of
/// no use, overridden by the environment.
pub open spec fn loaded(sources: Seq<ConfigSource>, env: EnvVars) -> ConfigView {
    overridden(
        match chosen(sources) {
            Ok(config) => config,
            Err(_) => default_config(),
        },
        env,
    )
}

/// What a configuration lacks, if anything: the first that is missing.
pub open spec fn lack(config: ConfigView) -> Option<Seq<char>> {
    if config.api_key is None {
        Some("API_KEY must be set either in config.toml or environment"@)
    } else if config.client_id is None {
        Some("SPOTIFY_CLIENT_ID must be set either in config.toml or environment"@)
    } else if config.client_secret is None {
        Some("SPOTIFY_CLIENT_SECRET must be set either in config.toml or environment"@)
    } else if config.refresh_token is None {
        Some("SPOTIFY_REFRESH_TOKEN must be set either in config.toml or environment"@)
    } else {
        None
    }
}

/// Reads a list of genres between commas.
pub fn parse_genre_list(list: &str) -> (r: Vec<String>)
    ensures
        texts(r@) == trimmed_entries(pieces(list@, ',')),
{
    let entries = split(list, ',');
    let ghost all = texts(entries@);
    let mut r: Vec<String> = Vec::new();
    let mut i: usize = 0;
    assert(texts(r@) =~= trimmed_entries(all.take(0)));
    while i < entries.len()
        invariant
            i <= entries.len(),
            all == texts(entries@),
            texts(r@) == trimmed_entries(all.take(i as int)),
        decreases entries.len() - i,
    {
        let ghost before = texts(r@);
        assert(all.take(i + 1).drop_last() =~= all.take(i as int));
        assert(all.take(i + 1).last() == entries@[i as int]@);
        if !entries[i].as_str().is_empty() {
            r.push(trim(entries[i].as_str()).to_owned());
            assert(texts(r@) =~= before.push(trimmed(entries@[i as int]@)));
        }
        i = i + 1;
    }
    assert(all.take(all.len() as int) =~= all);
    r
}

impl Config {
    /// Loads the configuration from files, in the order in which they are tried, and
    /// environment variables.
    pub fn load(sources: Vec<ConfigSource>, env: EnvVars) -> (r: Config)
        ensures
            r@ == loaded(sources@, env),
    {
        let mut config = match Config::load_from_toml(sources) {
            Ok(config) => config,
            Err(_) => Config::default(),
        };
        config.load_from_env(env);
        config
    }

    /// Takes the first configuration file that is there.
    pub fn load_from_toml(sources: Vec<ConfigSource>) -> (r: Result<Config, String>)
        ensures
            config_result(r) == chosen(sources@),
    {
        let ghost all = sources@;
        assert(all.skip(0) =~= all);
        for source in it: sources
            invariant
                it.seq() == all,
                chosen(all) == chosen(all.skip(it.index() as int)),
        {
            assert(all.skip(it.index() as int).drop_first() =~= all.skip(it.index() + 1));
            assert(all.skip(it.index() as int)[0] == source);
            match source {
                ConfigSource::Missing => {},
                ConfigSource::Unreadable(e) => {
                    return Err(e);
                },
                ConfigSource::Loaded(config) => {
                    return Ok(config);
                },
            }
        }
        Ok(Config::default())
    }

    /// Overrides the configuration by environment variables.
    pub fn load_from_env(&mut self, env: EnvVars)
        ensures
            final(self)@ == overridden(old(self)@, env),
    {
        if let Some(host) = env.host {
            self.server.host = host;
        }
        if let Some(port) = env.port {
            self.server.port = port;
        }
        if let Some(log_level) = env.rust_log {
            self.server.log_level = log_level;
        }
        if let Some(api_key) = env.api_key {
            self.api.key = Some(api_key);
        }
        if let Some(client_id) = env.spotify_client_id {
            self.spotify.client_id = Some(client_id);
        }
        if let Some(client_secret) = env.spotify_client_secret {
            self.spotify.client_secret = Some(client_secret);
        }
        if let Some(refresh_token) = env.spotify_refresh_token {
            self.spotify.refresh_token = Some(refresh_token);
        }
        if let Some(list) = env.spotify_excluded_genres {
            self.spotify.excluded_genres = parse_genre_list(list.as_str());
        }
        if let Some(allowed_origin) = env.allowed_origin {
            self.cors.allowed_origin = allowed_origin;
        }
    }

    /// Checks that what the service cannot do without is there.
    pub fn validate(&self) -> (r: Result<(), String>)
        ensures
            match r {
                Ok(_) => lack(self@) is None,
                Err(e) => lack(self@) == Some(e@),
            },
    {
        if self.api.key.is_none() {
            return Err("API_KEY must be set either in config.toml or environment".to_owned());
        }
        if self.spotify.client_id.is_none() {
            return Err(
                "SPOTIFY_CLIENT_ID must be set either in config.toml or environment".to_owned(),
            );
        }
        if self.spotify.client_secret.is_none() {
            return Err(
                "SPOTIFY_CLIENT_SECRET must be set either in config.toml or environment".to_owned(),
            );
        }
        if self.spotify.refresh_token.is_none() {
            return Err(
                "SPOTIFY_REFRESH_TOKEN must be set either in config.toml or environment".to_owned(),
            );
        }
        Ok(())
    }
}

/// An environment that sets the key and the three Spotify credentials makes any
/// configuration valid.
pub proof fn credentials_in_the_environment_suffice(sources: Seq<ConfigSource>, env: EnvVars)
    requires
        env.api_key is Some,
        env.spotify_client_id is Some,
        env.spotify_client_secret is Some,
        env.spotify_refresh_token is Some,
    ensures
        lack(loaded(sources, env)) is None,
{
}

/// The environment has the last word: to override a configuration twice is to
/// override it once; and the settings that have no variable stay.
pub proof fn environment_has_the_last_word(config: ConfigView, env: EnvVars)
    ensures
        overridden(overridden(config, env), env) == overridden(config, env),
        overridden(config, env).tracks_limit == config.tracks_limit,
        overridden(config, env).default_feed_url == config.default_feed_url,
        overridden(config, env).movies_limit == config.movies_limit,
        overridden(config, env).spotify_duration_secs == config.spotify_duration_secs,
        overridden(config, env).letterboxd_duration_secs == config.letterboxd_duration_secs,
{
}

/// A file that is there hides those that come behind it, readable or not.
pub proof fn the_first_file_decides(
    missing: Seq<ConfigSource>,
    source: ConfigSource,
    rest: Seq<ConfigSource>,
)
    requires
        forall|i: int| 0 <= i < missing.len() ==> (#[trigger] missing[i]) is Missing,
        !(source is Missing),
    ensures
        chosen(missing + seq![source] + rest) == (match source {
            ConfigSource::Loaded(config) => Ok::<ConfigView, Seq<char>>(config@),
            ConfigSource::Unreadable(e) => Err(e@),
            ConfigSource::Missing => Ok(default_config()),
        }),
    decreases missing.len(),
{
    let all = missing + seq![source] + rest;
    if missing.len() > 0 {
        let tail = missing.drop_first();
        assert forall|i: int| 0 <= i < tail.len() implies (#[trigger] tail[i]) is Missing by {
            assert(missing[i + 1] is Missing);
        }
        the_first_file_decides(tail, source, rest);
        assert(all.drop_first() =~= tail + seq![source] + rest);
        assert(all[0] == missing[0]);
    } else {
        assert(all[0] == source);
    }
}

/// A variable that is set decides its setting, whatever the configuration held before;
/// one that is not set leaves the setting as it was.
pub proof fn set_variables_decide(config: ConfigView, env: EnvVars)
    ensures
        env.host matches Some(v) ==> overridden(config, env).host == v@,
        env.host is None ==> overridden(config, env).host == config.host,
        env.port matches Some(v) ==> overridden(config, env).port == v@,
        env.port is None ==> overridden(config, env).port == config.port,
        env.rust_log matches Some(v) ==> overridden(config, env).log_level == v@,
        env.rust_log is None ==> overridden(config, env).log_level == config.log_level,
        env.api_key matches Some(v) ==> overridden(config, env).api_key == Some(v@),
        env.api_key is None ==> overridden(config, env).api_key == config.api_key,
        env.spotify_client_id matches Some(v) ==> overridden(config, env).client_id == Some(v@),
        env.spotify_client_id is None ==> overridden(config, env).client_id == config.client_id,
        env.spotify_client_secret matches Some(v) ==> overridden(config, env).client_secret == Some(
            v@,
        ),
        env.spotify_client_secret is None ==> overridden(config, env).client_secret
            == config.client_secret,
        env.spotify_refresh_token matches Some(v) ==> overridden(config, env).refresh_token == Some(
            v@,
        ),
        env.spotify_refresh_token is None ==> overridden(config, env).refresh_token
            == config.refresh_token,
        env.spotify_excluded_genres is None ==> overridden(config, env).excluded_genres
            == config.excluded_genres,
        env.allowed_origin matches Some(v) ==> overridden(config, env).allowed_origin == v@,
        env.allowed_origin is None ==> overridden(config, env).allowed_origin
            == config.allowed_origin,
{
}

/// What a set variable decides does not depend on the configuration: two configurations
/// agree in it once they are overridden.
pub proof fn overridden_settings_agree(a: ConfigView, b: ConfigView, env: EnvVars)
    ensures
        env.api_key is Some ==> overridden(a, env).api_key == overridden(b, env).api_key,
        env.spotify_client_id is Some ==> overridden(a, env).client_id == overridden(
            b,
            env,
        ).client_id,
        env.spotify_client_secret is Some ==> overridden(a, env).client_secret == overridden(
            b,
            env,
        ).client_secret,
        env.spotify_refresh_token is Some ==> overridden(a, env).refresh_token == overridden(
            b,
            env,
        ).refresh_token,
        env.spotify_excluded_genres is Some ==> overridden(a, env).excluded_genres == overridden(
            b,
            env,
        ).excluded_genres,
{
}

/// The configuration that is used is that of the file, or the default where no file is
/// of use, with the set variables in place of what it holds.
pub proof fn the_file_is_used_where_no_variable_is_set(sources: Seq<ConfigSource>, env: EnvVars)
    ensures
        chosen(sources) matches Ok(config) ==> (env.api_key is None ==> loaded(
            sources,
            env,
        ).api_key == config.api_key) && loaded(sources, env).default_feed_url
            == config.default_feed_url && loaded(sources, env).movies_limit == config.movies_limit
            && loaded(sources, env).letterboxd_duration_secs == config.letterboxd_duration_secs,
        chosen(sources) is Err ==> loaded(sources, env) == overridden(default_config(), env),
        env.api_key matches Some(v) ==> loaded(sources, env).api_key == Some(v@),
        chosen(Seq::empty()) == Ok::<ConfigView, Seq<char>>(default_config()),
        chosen(seq![ConfigSource::Missing] + sources) == chosen(sources),
{
    let more = seq![ConfigSource::Missing] + sources;
    assert(more.drop_first() =~= sources);
    assert(more[0] == ConfigSource::Missing);
}

/// The entries of a list are taken one by one, in their order: each is trimmed, and goes
/// only if there is nothing in it.
pub proof fn entries_are_trimmed_one_by_one(
    front: Seq<Seq<char>>,
    entry: Seq<char>,
    back: Seq<Seq<char>>,
)
    ensures
        trimmed_entries(front + back) == trimmed_entries(front) + trimmed_entries(back),
        entry.len() > 0 ==> trimmed_entries(seq![entry]) == seq![trimmed(entry)],
        entry.len() == 0 ==> trimmed_entries(seq![entry]).len() == 0,
    decreases back.len(),
{
    let one = seq![entry];
    assert(one.drop_last() =~= Seq::empty());
    assert(trimmed_entries(one.drop_last()) =~= Seq::empty());
    if entry.len() > 0 {
        assert(trimmed_entries(one) =~= seq![trimmed(entry)]);
    }
    if back.len() > 0 {
        entries_are_trimmed_one_by_one(front, entry, back.drop_last());
        assert((front + back).drop_last() =~= front + back.drop_last());
        assert(trimmed_entries(front + back) =~= trimmed_entries(front) + trimmed_entries(back));
    } else {
        assert(front + back =~= front);
        assert(trimmed_entries(front) + trimmed_entries(back) =~= trimmed_entries(front));
    }
}

/// The variable that lists genres gives its entries between commas.
pub proof fn the_variable_lists_the_genres(config: ConfigView, env: EnvVars)
    requires
        env.spotify_excluded_genres is Some,
    ensures
        overridden(config, env).excluded_genres == trimmed_entries(
            pieces(env.spotify_excluded_genres->0@, ','),
        ),
        crate::text::glued(pieces(env.spotify_excluded_genres->0@, ','), ',')
            == env.spotify_excluded_genres->0@,
{
    crate::text::pieces_are_glued_back(env.spotify_excluded_genres->0@, ',');
}

/// A configuration is complete exactly if it has the key and the three credentials; what
/// is named as missing is missing, and nothing that is asked for before it is.
pub proof fn what_is_missing_is_named(config: ConfigView)
    ensures
        lack(config) is None <==> config.api_key is Some && config.client_id is Some
            && config.client_secret is Some && config.refresh_token is Some,
        config.api_key is None ==> lack(config) == Some(
            "API_KEY must be set either in config.toml or environment"@,
        ),
        config.api_key is Some && config.client_id is None ==> lack(config) == Some(
            "SPOTIFY_CLIENT_ID must be set either in config.toml or environment"@,
        ),
        config.api_key is Some && config.client_id is Some && config.client_secret is None ==> lack(
            config,
        ) == Some("SPOTIFY_CLIENT_SECRET must be set either in config.toml or environment"@),
        config.api_key is Some && config.client_id is Some && config.client_secret is Some
            && config.refresh_token is None ==> lack(config) == Some(
            "SPOTIFY_REFRESH_TOKEN must be set either in config.toml or environment"@,
        ),
{
}

} // verus!
